//! The search for a compute backend along a chain of them.

use vstd::prelude::*;
use crate::backend::{BackendChoice, BackendKind, BuildTarget};
use crate::error::Qwen3TtsError;
#[allow(unused_imports)]
use crate::error::ErrorModel;
use crate::text::{chars_of, trim};
#[allow(unused_imports)]
use crate::text::{text_in, trimmed};

verus! {

/// The parts of a list whose parts are parted by commas. There is one more part than commas.
pub open spec fn comma_parts(list: Seq<char>) -> Seq<Seq<char>>
    decreases list.len(),
{
    if list.len() == 0 {
        seq![Seq::empty()]
    } else {
        let before = comma_parts(list.drop_last());
        if list.last() == ',' {
            before.push(Seq::empty())
        } else {
            before.drop_last().push(before.last().push(list.last()))
        }
    }
}

/// The backends that some words name and that a build has, in order.
pub open spec fn kinds_named(target: BuildTarget, names: Seq<Seq<char>>) -> Seq<BackendKind>
    decreases names.len(),
{
    if names.len() == 0 {
        Seq::empty()
    } else {
        let before = kinds_named(target, names.drop_last());
        match target.spec_asked(Some(trimmed(names.last()))) {
            Some(kind) => before.push(kind),
            None => before,
        }
    }
}

/// The chain that a list spells: the backends that it names and that the build has, in order.
pub open spec fn chain_of(target: BuildTarget, list: Seq<char>) -> Seq<BackendKind> {
    kinds_named(target, comma_parts(list))
}

/// The parts of a list whose parts are parted by commas.
fn split_at_commas(list: &str) -> (parts: Vec<String>)
    ensures
        parts@.len() == comma_parts(list@).len(),
        forall|i: int| 0 <= i < parts@.len() ==> (#[trigger] parts@[i])@ == comma_parts(list@)[i],
{
    let chars = chars_of(list);
    let mut parts: Vec<String> = Vec::new();
    let mut part = String::new();
    let mut i: usize = 0;
    assert(chars@.take(0) == Seq::<char>::empty());
    while i < chars.len()
        invariant
            i <= chars@.len(),
            parts@.len() + 1 == comma_parts(chars@.take(i as int)).len(),
            part@ == comma_parts(chars@.take(i as int)).last(),
            forall|k: int|
                0 <= k < parts@.len() ==> (#[trigger] parts@[k])@ == comma_parts(
                    chars@.take(i as int),
                )[k],
        decreases chars@.len() - i,
    {
        assert(chars@.take(i + 1).drop_last() == chars@.take(i as int));
        if chars[i] == ',' {
            parts.push(part);
            part = String::new();
        } else {
            part.push(chars[i]);
        }
        i = i + 1;
    }
    assert(chars@.take(i as int) == chars@);
    parts.push(part);
    parts
}

/// The chain that a list spells: the backends that it names and that the build has, in order.
pub fn backend_chain(target: BuildTarget, list: &str) -> (chain: Vec<BackendKind>)
    ensures
        chain@ == chain_of(target, list@),
{
    let parts = split_at_commas(list);
    let ghost names = comma_parts(list@);
    let mut chain: Vec<BackendKind> = Vec::new();
    let mut i: usize = 0;
    assert(names.take(0) == Seq::<Seq<char>>::empty());
    while i < parts.len()
        invariant
            i <= parts@.len(),
            parts@.len() == names.len(),
            forall|k: int| 0 <= k < parts@.len() ==> (#[trigger] parts@[k])@ == names[k],
            chain@ == kinds_named(target, names.take(i as int)),
        decreases parts@.len() - i,
    {
        assert(names.take(i + 1).drop_last() == names.take(i as int));
        let word = Some(trim(parts[i].as_str()));
        match target.asked(&word) {
            Some(kind) => chain.push(kind),
            None => {},
        }
        i = i + 1;
    }
    assert(names.take(i as int) == names);
    chain
}

/// Where a search stands, as contracts see it: what is to be initialised, and the chain behind it.
pub struct SearchModel {
    pub choice: BackendChoice,
    pub rest: Seq<BackendKind>,
}

impl SearchModel {
    /// The search along a chain. Behind its end stands the CPU.
    pub open spec fn along(chain: Seq<BackendKind>) -> SearchModel {
        if chain.len() == 0 {
            SearchModel { choice: BackendChoice::InitCpu, rest: chain }
        } else {
            SearchModel {
                choice: BackendChoice::spec_toward(chain[0]),
                rest: chain.skip(1),
            }
        }
    }

    /// Where a search starts: with what is asked for. Where nothing is, it goes along the chain
    /// that `fallback` spells, or, without one, by what the build prefers.
    pub open spec fn start(
        target: BuildTarget,
        requested: Option<Seq<char>>,
        fallback: Option<Seq<char>>,
    ) -> SearchModel {
        match (target.spec_asked(requested), fallback) {
            (None, Some(list)) => SearchModel::along(chain_of(target, list)),
            _ => SearchModel {
                choice: BackendChoice::spec_start(target, requested),
                rest: Seq::empty(),
            },
        }
    }

    /// Where a search goes once an initialisation has succeeded or failed: an accelerator that
    /// cannot be initialised makes way for the next backend of the chain.
    pub open spec fn next(self, ok: bool) -> Result<SearchModel, ErrorModel> {
        if self.choice is TryAccelerator && !ok {
            Ok(SearchModel::along(self.rest))
        } else {
            match self.choice.spec_next(ok) {
                Ok(choice) => Ok(SearchModel { choice, ..self }),
                Err(e) => Err(e),
            }
        }
    }

    /// The backend that a search ends with where `starts` tells which accelerators can be
    /// initialised.
    pub open spec fn found(self, starts: spec_fn(BackendKind) -> bool) -> BackendKind
        decreases self.rest.len(),
    {
        match self.choice {
            BackendChoice::TryAccelerator(kind) => if starts(kind) {
                kind
            } else if self.rest.len() == 0 {
                BackendKind::Cpu
            } else {
                SearchModel::along(self.rest).found(starts)
            },
            BackendChoice::InitFallback(kind) => kind,
            BackendChoice::InitCpu => BackendKind::Cpu,
            BackendChoice::InitAllocator { primary, .. } => primary,
            BackendChoice::Ready { primary, .. } => primary,
        }
    }
}

/// A search for a backend.
#[derive(Debug)]
pub struct BackendSearch {
    choice: BackendChoice,
    chain: Vec<BackendKind>,
    tried: usize,
}

impl BackendSearch {
    /// No more of the chain has been tried than there is.
    pub closed spec fn wf(&self) -> bool {
        self.tried <= self.chain@.len()
    }

    /// Where the search stands.
    pub closed spec fn model(&self) -> SearchModel {
        SearchModel { choice: self.choice, rest: self.chain@.skip(self.tried as int) }
    }

    fn along(chain: Vec<BackendKind>, tried: usize) -> (r: BackendSearch)
        requires
            tried <= chain@.len(),
        ensures
            r.wf(),
            r.model() == SearchModel::along(chain@.skip(tried as int)),
    {
        if tried < chain.len() {
            let choice = BackendChoice::toward(chain[tried]);
            assert(chain@.skip(tried as int).skip(1) == chain@.skip(tried + 1));
            BackendSearch { choice, chain, tried: tried + 1 }
        } else {
            BackendSearch { choice: BackendChoice::InitCpu, chain, tried }
        }
    }

    /// Where a search starts. `requested` is the word that asks for a backend, `fallback` the list
    /// of those to try where none is asked for.
    pub fn start(
        target: BuildTarget,
        requested: &Option<String>,
        fallback: &Option<String>,
    ) -> (r: BackendSearch)
        ensures
            r.wf(),
            r.model() == SearchModel::start(target, text_in(*requested), text_in(*fallback)),
    {
        if target.asked(requested).is_none() {
            match fallback {
                Some(list) => {
                    let chain = backend_chain(target, list.as_str());
                    assert(chain@.skip(0) == chain@);
                    return BackendSearch::along(chain, 0);
                },
                None => {},
            }
        }
        let r = BackendSearch {
            choice: BackendChoice::start(target, requested),
            chain: Vec::new(),
            tried: 0,
        };
        assert(r.model().rest == Seq::<BackendKind>::empty());
        r
    }

    /// What is to be initialised.
    pub fn choice(&self) -> (r: BackendChoice)
        ensures
            r == self.model().choice,
    {
        self.choice
    }

    /// Where the search goes once an initialisation has succeeded or failed.
    pub fn next(self, ok: bool) -> (r: Result<BackendSearch, Qwen3TtsError>)
        requires
            self.wf(),
        ensures
            match r {
                Ok(search) => search.wf() && self.model().next(ok) == Ok::<_, ErrorModel>(
                    search.model(),
                ),
                Err(e) => self.model().next(ok) == Err::<SearchModel, _>(e@),
            },
    {
        if !ok {
            match self.choice {
                BackendChoice::TryAccelerator(_) => {
                    return Ok(BackendSearch::along(self.chain, self.tried));
                },
                _ => {},
            }
        }
        match self.choice.next(ok) {
            Ok(choice) => Ok(BackendSearch { choice, chain: self.chain, tried: self.tried }),
            Err(e) => Err(e),
        }
    }
}

/// Along a chain the first backend that can be initialised is found. The CPU always can, and it is
/// found where nothing else is.
pub proof fn lemma_first_that_starts(
    chain: Seq<BackendKind>,
    starts: spec_fn(BackendKind) -> bool,
    k: int,
)
    requires
        0 <= k <= chain.len(),
        forall|i: int|
            0 <= i < k ==> #[trigger] chain[i] != BackendKind::Cpu && !starts(chain[i]),
        k < chain.len() ==> chain[k] == BackendKind::Cpu || starts(chain[k]),
    ensures
        SearchModel::along(chain).found(starts) == (if k < chain.len() {
            chain[k]
        } else {
            BackendKind::Cpu
        }),
    decreases chain.len(),
{
    if k > 0 {
        assert(chain[0] != BackendKind::Cpu && !starts(chain[0]));
        lemma_first_that_starts(chain.skip(1), starts, k - 1);
    }
}

/// What a search finds does not change from one step to the next, as long as the steps come out as
/// `starts` tells.
pub proof fn lemma_search_finds(
    search: SearchModel,
    ok: bool,
    starts: spec_fn(BackendKind) -> bool,
)
    requires
        search.choice matches BackendChoice::TryAccelerator(kind) ==> ok == starts(kind),
    ensures
        search.next(ok) matches Ok(next) ==> next.found(starts) == search.found(starts),
{
}

/// A backend that is asked for is searched for first, whatever the fallback is.
pub proof fn lemma_request_comes_first(
    target: BuildTarget,
    requested: Option<Seq<char>>,
    fallback: Option<Seq<char>>,
)
    requires
        target.spec_asked(requested) is Some,
    ensures
        SearchModel::start(target, requested, fallback).choice == BackendChoice::spec_toward(
            target.spec_asked(requested)->Some_0,
        ),
{
}

/// Where the search for a backend starts: what is asked for goes first. Where nothing is, the chain
/// goes from its first backend on, and the CPU stands behind its end.
pub proof fn lemma_search_starts(
    target: BuildTarget,
    requested: Option<String>,
    fallback: Option<String>,
    r: BackendSearch,
    text: &str,
    chain: Vec<BackendKind>,
    first: BackendChoice,
)
    requires
        call_ensures(BackendSearch::start, (target, &requested, &fallback), r),
        call_ensures(BackendChoice::start, (target, &requested), first),
        fallback matches Some(list) ==> text@ == list@,
        call_ensures(backend_chain, (target, text), chain),
    ensures
        ({
            let served = requested matches Some(word) && crate::backend::serves(target, word@);
            &&& served || fallback is None ==> r.model().choice == first && r.model().rest.len()
                == 0
            &&& !served && fallback is Some && chain@.len() == 0 ==> r.model().choice
                == BackendChoice::InitCpu
            &&& !served && fallback is Some && chain@.len() > 0 ==> {
                &&& r.model().choice == (if chain@[0] == BackendKind::Cpu {
                    BackendChoice::InitCpu
                } else {
                    BackendChoice::TryAccelerator(chain@[0])
                })
                &&& r.model().rest == chain@.skip(1)
            }
        }),
{
    reveal_strlit("cpu");
    reveal_strlit("metal");
    reveal_strlit("vulkan");
    assert("cpu"@.len() == 3 && "metal"@.len() == 5 && "vulkan"@.len() == 6);
}

/// Where the search for a backend goes: an accelerator that does not start makes way for the next of
/// the chain, and for the CPU at its end. Everything else goes on as the choice of one backend.
pub proof fn lemma_search_goes_on(
    search: BackendSearch,
    ok: bool,
    r: Result<BackendSearch, Qwen3TtsError>,
    plain: Result<BackendChoice, Qwen3TtsError>,
)
    requires
        call_ensures(BackendSearch::next, (search, ok), r),
        call_ensures(BackendChoice::next, (search.model().choice, ok), plain),
    ensures
        ({
            let rest = search.model().rest;
            let makes_way = search.model().choice is TryAccelerator && !ok;
            &&& makes_way ==> r is Ok
            &&& makes_way && rest.len() == 0 ==> r->Ok_0.model().choice == BackendChoice::InitCpu
            &&& makes_way && rest.len() > 0 ==> {
                &&& r->Ok_0.model().choice == (if rest[0] == BackendKind::Cpu {
                    BackendChoice::InitCpu
                } else {
                    BackendChoice::TryAccelerator(rest[0])
                })
                &&& r->Ok_0.model().rest == rest.skip(1)
            }
            &&& !makes_way ==> (r is Ok <==> plain is Ok)
            &&& !makes_way && plain is Ok ==> r->Ok_0.model().choice == plain->Ok_0
                && r->Ok_0.model().rest == rest
            &&& !makes_way && plain is Err ==> r->Err_0@ == plain->Err_0@
        }),
{
}

proof fn lemma_comma_parts_are_pieces(list: Seq<char>, other: Seq<char>)
    requires
        !other.contains(','),
    ensures
        comma_parts(list).len() > 0,
        comma_parts(list + seq![','] + other) == comma_parts(list).push(other),
        comma_parts(other) == seq![other],
    decreases other.len(),
{
    lemma_some_part(list);
    let whole = list + seq![','] + other;
    if other.len() == 0 {
        assert(whole.drop_last() =~= list);
        assert(other =~= Seq::<char>::empty());
    } else {
        let less = other.drop_last();
        assert(!less.contains(',')) by {
            if less.contains(',') {
                let i = choose|i: int| 0 <= i < less.len() && less[i] == ',';
                assert(other[i] == ',');
            }
        }
        assert(other[other.len() - 1] != ',');
        lemma_comma_parts_are_pieces(list, less);
        assert(whole.drop_last() =~= list + seq![','] + less);
        assert(less.push(other.last()) =~= other);
        let before = comma_parts(list).push(less);
        assert(before.drop_last().push(before.last().push(other.last())) =~= comma_parts(list).push(
            other,
        ));
        assert(seq![less].drop_last().push(seq![less].last().push(other.last())) =~= seq![other]);
    }
}

proof fn lemma_some_part(list: Seq<char>)
    ensures
        comma_parts(list).len() > 0,
    decreases list.len(),
{
    if list.len() > 0 {
        lemma_some_part(list.drop_last());
    }
}

/// A list with one more word behind a comma spells the same chain with that word's backend behind
/// it, where the build can serve the word, and the same chain where it cannot. Whitespace round the
/// word does not matter.
pub proof fn lemma_chain_grows_by_words(
    target: BuildTarget,
    list: &str,
    word: Seq<char>,
    longer: &str,
    chain: Vec<BackendKind>,
    more: Vec<BackendKind>,
)
    requires
        call_ensures(backend_chain, (target, list), chain),
        !word.contains(','),
        longer@ == list@ + seq![','] + word,
        call_ensures(backend_chain, (target, longer), more),
    ensures
        trimmed(word) == "cpu"@ ==> more@ == chain@.push(BackendKind::Cpu),
        trimmed(word) == "metal"@ && target.metal ==> more@ == chain@.push(BackendKind::Metal),
        trimmed(word) == "vulkan"@ && target.vulkan ==> more@ == chain@.push(BackendKind::Vulkan),
        !crate::backend::serves(target, trimmed(word)) ==> more@ == chain@,
{
    reveal_strlit("cpu");
    reveal_strlit("metal");
    reveal_strlit("vulkan");
    assert("cpu"@.len() == 3 && "metal"@.len() == 5 && "vulkan"@.len() == 6);
    lemma_comma_parts_are_pieces(list@, word);
    let names = comma_parts(list@).push(word);
    assert(names.drop_last() =~= comma_parts(list@));
    assert(more@ == kinds_named(target, names));
}

/// A list of one word spells the chain of that word's backend, where the build can serve it.
pub proof fn lemma_chain_of_one_word(target: BuildTarget, word: &str, chain: Vec<BackendKind>)
    requires
        call_ensures(backend_chain, (target, word), chain),
        !word@.contains(','),
    ensures
        trimmed(word@) == "cpu"@ ==> chain@ == seq![BackendKind::Cpu],
        trimmed(word@) == "metal"@ && target.metal ==> chain@ == seq![BackendKind::Metal],
        trimmed(word@) == "vulkan"@ && target.vulkan ==> chain@ == seq![BackendKind::Vulkan],
        !crate::backend::serves(target, trimmed(word@)) ==> chain@.len() == 0,
{
    reveal_strlit("cpu");
    reveal_strlit("metal");
    reveal_strlit("vulkan");
    assert("cpu"@.len() == 3 && "metal"@.len() == 5 && "vulkan"@.len() == 6);
    lemma_comma_parts_are_pieces(word@, word@);
    let names = seq![word@];
    assert(names.drop_last() =~= Seq::<Seq<char>>::empty());
    reveal_with_fuel(kinds_named, 2);
}

} // verus!
