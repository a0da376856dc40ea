//! The developer commands: benchmarks and timings over several backends.

use vstd::prelude::*;
use crate::cli::args::value_arg;
#[allow(unused_imports)]
use crate::cli::args::{missing_value, words};
use crate::paths::join;
#[allow(unused_imports)]
use crate::paths::joined;
use crate::text::same_text;

verus! {

/// Whether a word names a backend, or several.
pub open spec fn backend_word(word: Seq<char>) -> bool {
    word == "cpu"@ || word == "metal"@ || word == "vulkan"@ || word == "all"@ || word == "both"@
}

/// Whether a word names a backend, or several.
pub fn is_backend_word(word: &str) -> (r: bool)
    ensures
        r == backend_word(word@),
{
    same_text(word, "cpu") || same_text(word, "metal") || same_text(word, "vulkan") || same_text(
        word,
        "all",
    ) || same_text(word, "both")
}

/// The backends that a word names, or what is said of it.
pub open spec fn backends_named(word: Seq<char>) -> Result<Seq<Seq<char>>, Seq<char>> {
    if word == "cpu"@ {
        Ok(seq!["cpu"@])
    } else if word == "metal"@ {
        Ok(seq!["metal"@])
    } else if word == "vulkan"@ {
        Ok(seq!["vulkan"@])
    } else if word == "all"@ {
        Ok(seq!["cpu"@, "metal"@, "vulkan"@])
    } else if word == "both"@ {
        Ok(seq!["cpu"@, "metal"@])
    } else {
        Err("unsupported backend: "@ + word)
    }
}

/// The views of some texts.
pub open spec fn texts(list: Seq<&'static str>) -> Seq<Seq<char>> {
    Seq::new(list.len(), |i: int| list[i]@)
}

/// The backends that a word names.
pub fn backends_of(word: &str) -> (r: Result<Vec<&'static str>, String>)
    ensures
        match r {
            Ok(list) => backends_named(word@) == Ok::<_, Seq<char>>(texts(list@)),
            Err(message) => backends_named(word@) == Err::<Seq<Seq<char>>, _>(message@),
        },
{
    let mut list: Vec<&'static str> = Vec::new();
    if same_text(word, "cpu") {
        list.push("cpu");
        assert(texts(list@) =~= seq!["cpu"@]);
    } else if same_text(word, "metal") {
        list.push("metal");
        assert(texts(list@) =~= seq!["metal"@]);
    } else if same_text(word, "vulkan") {
        list.push("vulkan");
        assert(texts(list@) =~= seq!["vulkan"@]);
    } else if same_text(word, "all") {
        list.push("cpu");
        list.push("metal");
        list.push("vulkan");
        assert(texts(list@) =~= seq!["cpu"@, "metal"@, "vulkan"@]);
    } else if same_text(word, "both") {
        list.push("cpu");
        list.push("metal");
        assert(texts(list@) =~= seq!["cpu"@, "metal"@]);
    } else {
        let mut message = "unsupported backend: ".to_string();
        message.append(word);
        return Err(message);
    }
    Ok(list)
}

/// Where the model is looked for under the workspace.
pub fn default_model_dir(workspace_root: &str) -> (r: String)
    ensures
        r@ == joined(workspace_root@, "models/volko76-q4k-q8"@),
{
    join(workspace_root, "models/volko76-q4k-q8")
}

/// The arguments of the benchmark command. The values are passed on as they were written.
#[derive(Debug)]
pub struct BenchArgs {
    pub backend: String,
    pub model_dir: String,
    pub text: String,
    pub threads: String,
    pub frames: String,
    pub temperature: String,
    pub top_k: String,
    pub top_p: String,
    /// What is passed on to the benchmark harness.
    pub criterion_args: Vec<String>,
}

/// What contracts say of [`BenchArgs`].
pub struct BenchModel {
    pub backend: Seq<char>,
    pub model_dir: Seq<char>,
    pub text: Seq<char>,
    pub threads: Seq<char>,
    pub frames: Seq<char>,
    pub temperature: Seq<char>,
    pub top_k: Seq<char>,
    pub top_p: Seq<char>,
    pub criterion_args: Seq<Seq<char>>,
}

impl View for BenchArgs {
    type V = BenchModel;

    open spec fn view(&self) -> BenchModel {
        BenchModel {
            backend: self.backend@,
            model_dir: self.model_dir@,
            text: self.text@,
            threads: self.threads@,
            frames: self.frames@,
            temperature: self.temperature@,
            top_k: self.top_k@,
            top_p: self.top_p@,
            criterion_args: words(self.criterion_args@),
        }
    }
}

/// Whether a word is a flag of the benchmark command that takes a value.
pub open spec fn bench_flag(word: Seq<char>) -> bool {
    word == "--model-dir"@ || word == "--text"@ || word == "--threads"@ || word == "--frames"@
        || word == "--temperature"@ || word == "--top-k"@ || word == "--top-p"@
}

impl BenchModel {
    /// The arguments of the benchmark command where nothing is said.
    pub open spec fn initial(workspace_root: Seq<char>) -> BenchModel {
        BenchModel {
            backend: "cpu"@,
            model_dir: joined(workspace_root, "models/volko76-q4k-q8"@),
            text: "hello"@,
            threads: "4"@,
            frames: "16"@,
            temperature: "0.0"@,
            top_k: "0"@,
            top_p: "1.0"@,
            criterion_args: Seq::empty(),
        }
    }

    /// The value that a flag has.
    pub open spec fn get(self, flag: Seq<char>) -> Seq<char> {
        if flag == "--model-dir"@ {
            self.model_dir
        } else if flag == "--text"@ {
            self.text
        } else if flag == "--threads"@ {
            self.threads
        } else if flag == "--frames"@ {
            self.frames
        } else if flag == "--temperature"@ {
            self.temperature
        } else if flag == "--top-k"@ {
            self.top_k
        } else {
            self.top_p
        }
    }

    /// The arguments with that of one flag replaced.
    pub open spec fn with(self, flag: Seq<char>, value: Seq<char>) -> BenchModel {
        if flag == "--model-dir"@ {
            BenchModel { model_dir: value, ..self }
        } else if flag == "--text"@ {
            BenchModel { text: value, ..self }
        } else if flag == "--threads"@ {
            BenchModel { threads: value, ..self }
        } else if flag == "--frames"@ {
            BenchModel { frames: value, ..self }
        } else if flag == "--temperature"@ {
            BenchModel { temperature: value, ..self }
        } else if flag == "--top-k"@ {
            BenchModel { top_k: value, ..self }
        } else {
            BenchModel { top_p: value, ..self }
        }
    }
}

/// What the arguments from `idx` on add to those read so far, or what is said of them.
pub open spec fn bench_from(m: BenchModel, args: Seq<Seq<char>>, idx: int) -> Result<
    BenchModel,
    Seq<char>,
>
    decreases args.len() - idx,
{
    if idx >= args.len() {
        Ok(m)
    } else {
        let word = args[idx];
        if backend_word(word) {
            bench_from(BenchModel { backend: word, ..m }, args, idx + 1)
        } else if bench_flag(word) {
            if idx + 1 < args.len() {
                bench_from(m.with(word, args[idx + 1]), args, idx + 2)
            } else {
                Err(missing_value(word))
            }
        } else if word == "--"@ {
            Ok(BenchModel { criterion_args: args.skip(idx + 1), ..m })
        } else {
            Err("unknown xtask bench argument: "@ + word)
        }
    }
}

impl BenchArgs {
    fn set(&mut self, flag: &str, value: String)
        requires
            bench_flag(flag@),
        ensures
            final(self)@ == old(self)@.with(flag@, value@),
    {
        if same_text(flag, "--model-dir") {
            self.model_dir = value;
        } else if same_text(flag, "--text") {
            self.text = value;
        } else if same_text(flag, "--threads") {
            self.threads = value;
        } else if same_text(flag, "--frames") {
            self.frames = value;
        } else if same_text(flag, "--temperature") {
            self.temperature = value;
        } else if same_text(flag, "--top-k") {
            self.top_k = value;
        } else {
            self.top_p = value;
        }
    }

    /// Reads the arguments of the benchmark command.
    pub fn parse(workspace_root: &str, args: &Vec<String>) -> (r: Result<BenchArgs, String>)
        ensures
            match (bench_from(BenchModel::initial(workspace_root@), words(args@), 0), r) {
                (Ok(m), Ok(parsed)) => parsed@ == m,
                (Err(fault), Err(message)) => message@ == fault,
                _ => false,
            },
    {
        let mut parsed = BenchArgs {
            backend: "cpu".to_string(),
            model_dir: default_model_dir(workspace_root),
            text: "hello".to_string(),
            threads: "4".to_string(),
            frames: "16".to_string(),
            temperature: "0.0".to_string(),
            top_k: "0".to_string(),
            top_p: "1.0".to_string(),
            criterion_args: Vec::new(),
        };
        assert(words(parsed.criterion_args@) =~= Seq::<Seq<char>>::empty());
        let ghost all = bench_from(BenchModel::initial(workspace_root@), words(args@), 0);
        let mut idx: usize = 0;
        while idx < args.len()
            invariant
                idx <= args@.len(),
                all == bench_from(parsed@, words(args@), idx as int),
                all == bench_from(BenchModel::initial(workspace_root@), words(args@), 0),
            decreases args@.len() - idx,
        {
            assert(words(args@)[idx as int] == args@[idx as int]@);
            assert(idx + 1 < args@.len() ==> words(args@)[idx + 1] == args@[idx + 1]@);
            let word = args[idx].clone();
            if is_backend_word(word.as_str()) {
                parsed.backend = word;
                idx = idx + 1;
            } else if same_text(word.as_str(), "--model-dir") || same_text(
                word.as_str(),
                "--text",
            ) || same_text(word.as_str(), "--threads") || same_text(word.as_str(), "--frames")
                || same_text(word.as_str(), "--temperature") || same_text(word.as_str(), "--top-k")
                || same_text(word.as_str(), "--top-p") {
                match value_arg(args, &mut idx, word.as_str()) {
                    Ok(value) => parsed.set(word.as_str(), value),
                    Err(message) => {
                        return Err(message);
                    },
                }
            } else if same_text(word.as_str(), "--") {
                parsed.criterion_args = words_from(args, idx + 1);
                return Ok(parsed);
            } else {
                let mut message = "unknown xtask bench argument: ".to_string();
                message.append(word.as_str());
                return Err(message);
            }
        }
        Ok(parsed)
    }
}

/// What is written for the benchmark command in one go: a word that names backends, or a flag with
/// its value.
pub enum BenchItem {
    Backend(Seq<char>),
    Flag(Seq<char>, Seq<char>),
}

impl BenchItem {
    /// Whether an item is one of the command's.
    pub open spec fn valid(self) -> bool {
        match self {
            BenchItem::Backend(word) => backend_word(word),
            BenchItem::Flag(flag, _) => bench_flag(flag),
        }
    }

    /// The words that an item is written in.
    pub open spec fn written(self) -> Seq<Seq<char>> {
        match self {
            BenchItem::Backend(word) => seq![word],
            BenchItem::Flag(flag, value) => seq![flag, value],
        }
    }

    /// The arguments once an item has been read.
    pub open spec fn read(self, m: BenchModel) -> BenchModel {
        match self {
            BenchItem::Backend(word) => BenchModel { backend: word, ..m },
            BenchItem::Flag(flag, value) => m.with(flag, value),
        }
    }
}

/// Whether all items are the command's.
pub open spec fn all_valid(items: Seq<BenchItem>) -> bool {
    forall|i: int| 0 <= i < items.len() ==> (#[trigger] items[i]).valid()
}

/// The words that some items are written in.
pub open spec fn items_written(items: Seq<BenchItem>) -> Seq<Seq<char>>
    decreases items.len(),
{
    if items.len() == 0 {
        Seq::empty()
    } else {
        items_written(items.drop_last()) + items.last().written()
    }
}

/// The arguments once some items have been read.
pub open spec fn items_read(m: BenchModel, items: Seq<BenchItem>) -> BenchModel
    decreases items.len(),
{
    if items.len() == 0 {
        m
    } else {
        items.last().read(items_read(m, items.drop_last()))
    }
}

/// The words that name backends are no flags.
proof fn lemma_flags_name_no_backends(word: Seq<char>)
    requires
        bench_flag(word) || word == "--"@,
    ensures
        !backend_word(word),
        word == "--"@ ==> !bench_flag(word),
{
    reveal_strlit("cpu");
    reveal_strlit("metal");
    reveal_strlit("vulkan");
    reveal_strlit("all");
    reveal_strlit("both");
    reveal_strlit("--");
    reveal_strlit("--model-dir");
    reveal_strlit("--text");
    reveal_strlit("--threads");
    reveal_strlit("--frames");
    reveal_strlit("--temperature");
    reveal_strlit("--top-k");
    reveal_strlit("--top-p");
    assert(word[0] == '-');
    assert("cpu"@[0] == 'c' && "metal"@[0] == 'm' && "vulkan"@[0] == 'v' && "all"@[0] == 'a'
        && "both"@[0] == 'b');
    assert("--"@.len() == 2 && "--model-dir"@.len() == 11 && "--text"@.len() == 6
        && "--threads"@.len() == 9 && "--frames"@.len() == 8 && "--temperature"@.len() == 13
        && "--top-k"@.len() == 7 && "--top-p"@.len() == 7);
}

/// Reading starts anew behind what has been read.
proof fn lemma_bench_from_shifts(m: BenchModel, args: Seq<Seq<char>>, from: int, k: int)
    requires
        0 <= from <= args.len(),
        0 <= k,
    ensures
        bench_from(m, args, from + k) == bench_from(m, args.skip(from), k),
    decreases args.len() - from - k,
{
    if from + k < args.len() {
        let word = args[from + k];
        assert(args.skip(from)[k] == word);
        if backend_word(word) {
            lemma_bench_from_shifts(BenchModel { backend: word, ..m }, args, from, k + 1);
        } else if bench_flag(word) {
            if from + k + 1 < args.len() {
                assert(args.skip(from)[k + 1] == args[from + k + 1]);
                lemma_bench_from_shifts(m.with(word, args[from + k + 1]), args, from, k + 2);
            }
        } else {
            assert(args.skip(from + k + 1) =~= args.skip(from).skip(k + 1));
        }
    }
}

/// Items are read one by one, and what stands behind them is read after them.
pub proof fn lemma_bench_items_are_read(
    m: BenchModel,
    items: Seq<BenchItem>,
    behind: Seq<Seq<char>>,
)
    requires
        all_valid(items),
    ensures
        bench_from(m, items_written(items) + behind, 0) == bench_from(
            items_read(m, items),
            behind,
            0,
        ),
    decreases items.len(),
{
    if items.len() == 0 {
        assert(items_written(items) + behind =~= behind);
    } else {
        let before = items.drop_last();
        let item = items.last();
        assert(item.valid());
        assert(all_valid(before)) by {
            assert forall|i: int| 0 <= i < before.len() implies (#[trigger] before[i]).valid() by {
                assert(items[i].valid());
            }
        }
        let rest = item.written() + behind;
        lemma_bench_items_are_read(m, before, rest);
        assert(items_written(items) + behind =~= items_written(before) + rest);
        let read = items_read(m, before);
        assert(rest[0] == item.written()[0]);
        match item {
            BenchItem::Backend(word) => {
                lemma_bench_from_shifts(item.read(read), rest, 1, 0);
                assert(rest.skip(1) =~= behind);
            },
            BenchItem::Flag(flag, value) => {
                lemma_flags_name_no_backends(flag);
                assert(rest[1] == value);
                lemma_bench_from_shifts(item.read(read), rest, 2, 0);
                assert(rest.skip(2) =~= behind);
            },
        }
    }
}

/// What follows the first `--` is passed on as it is, whatever it looks like.
pub proof fn lemma_rest_is_passed_on(
    m: BenchModel,
    items: Seq<BenchItem>,
    rest: Seq<Seq<char>>,
)
    requires
        all_valid(items),
    ensures
        bench_from(m, items_written(items) + (seq!["--"@] + rest), 0) == Ok::<_, Seq<char>>(
            BenchModel { criterion_args: rest, ..items_read(m, items) },
        ),
{
    let behind = seq!["--"@] + rest;
    lemma_bench_items_are_read(m, items, behind);
    lemma_flags_name_no_backends("--"@);
    assert(behind[0] == "--"@);
    assert(behind.skip(1) =~= rest);
}

/// A word that is none of the command's is refused behind items, and so is a flag without a value.
pub proof fn lemma_bench_word_is_refused(
    m: BenchModel,
    items: Seq<BenchItem>,
    word: Seq<char>,
    rest: Seq<Seq<char>>,
)
    requires
        all_valid(items),
        !backend_word(word) && word != "--"@,
        bench_flag(word) ==> rest.len() == 0,
    ensures
        bench_from(m, items_written(items) + (seq![word] + rest), 0) == Err::<BenchModel, _>(
            if bench_flag(word) {
                missing_value(word)
            } else {
                "unknown xtask bench argument: "@ + word
            },
        ),
{
    let behind = seq![word] + rest;
    lemma_bench_items_are_read(m, items, behind);
    assert(behind[0] == word);
}

/// Whether no item from index `k` on sets a flag.
pub open spec fn unset_from(items: Seq<BenchItem>, k: int, flag: Seq<char>) -> bool {
    forall|i: int|
        k <= i < items.len() ==> !(#[trigger] items[i] matches BenchItem::Flag(f, _) && f == flag)
}

/// Whether no item from index `k` on names backends.
pub open spec fn unnamed_from(items: Seq<BenchItem>, k: int) -> bool {
    forall|i: int| k <= i < items.len() ==> !(#[trigger] items[i] is Backend)
}

/// Whether an item is held to in the arguments that were read, unless a later one takes its place.
pub open spec fn held_to(items: Seq<BenchItem>, i: int, read: BenchModel) -> bool {
    match items[i] {
        BenchItem::Flag(flag, value) => unset_from(items, i + 1, flag) ==> read.get(flag) == value,
        BenchItem::Backend(word) => unnamed_from(items, i + 1) ==> read.backend == word,
    }
}

/// Each flag has the value that it comes with last, and where it does not come, the value that it
/// had. So it is with the word that names backends. Nothing is passed on.
pub proof fn lemma_last_bench_value_holds(m: BenchModel, items: Seq<BenchItem>)
    requires
        all_valid(items),
    ensures
        bench_from(m, items_written(items), 0) == Ok::<_, Seq<char>>(items_read(m, items)),
        items_read(m, items).criterion_args == m.criterion_args,
        unnamed_from(items, 0) ==> items_read(m, items).backend == m.backend,
        forall|flag: Seq<char>|
            bench_flag(flag) && unset_from(items, 0, flag) ==> #[trigger] items_read(m, items).get(
                flag,
            ) == m.get(flag),
        forall|i: int|
            0 <= i < items.len() ==> #[trigger] held_to(items, i, items_read(m, items)),
    decreases items.len(),
{
    lemma_bench_items_are_read(m, items, Seq::empty());
    assert(items_written(items) + Seq::<Seq<char>>::empty() =~= items_written(items));
    if items.len() > 0 {
        let before = items.drop_last();
        let item = items.last();
        let n = items.len() - 1;
        assert(items[n] == item);
        assert(item.valid());
        assert(forall|i: int| 0 <= i < n ==> #[trigger] before[i] == items[i]);
        assert(all_valid(before)) by {
            assert forall|i: int| 0 <= i < before.len() implies (#[trigger] before[i]).valid() by {
                assert(items[i].valid());
            }
        }
        lemma_last_bench_value_holds(m, before);
        let read = items_read(m, before);
        let all = items_read(m, items);
        assert forall|flag: Seq<char>|
            bench_flag(flag) && unset_from(items, 0, flag) implies #[trigger] all.get(flag) == m.get(
            flag,
        ) by {
            lemma_unset_before(items, 0, flag);
            assert(read.get(flag) == m.get(flag));
        }
        assert forall|i: int| 0 <= i < items.len() implies #[trigger] held_to(items, i, all) by {
            if i < n {
                assert(held_to(before, i, read));
                assert(items[i].valid());
                match items[i] {
                    BenchItem::Flag(flag, value) => {
                        if unset_from(items, i + 1, flag) {
                            lemma_unset_before(items, i + 1, flag);
                        }
                    },
                    BenchItem::Backend(word) => {
                        if unnamed_from(items, i + 1) {
                            assert(unnamed_from(before, i + 1));
                            assert(!(items[n] is Backend));
                        }
                    },
                }
            }
        }
        if unnamed_from(items, 0) {
            assert(unnamed_from(before, 0));
            assert(!(items[n] is Backend));
        }
    }
}

proof fn lemma_unset_before(items: Seq<BenchItem>, k: int, flag: Seq<char>)
    requires
        items.len() > 0,
        0 <= k < items.len(),
        unset_from(items, k, flag),
    ensures
        unset_from(items.drop_last(), k, flag),
        !(items.last() matches BenchItem::Flag(f, _) && f == flag),
{
    let before = items.drop_last();
    assert forall|i: int| k <= i < before.len() implies !(#[trigger] before[i] matches
        BenchItem::Flag(f, _) && f == flag) by {
        assert(items[i] == before[i]);
    }
    assert(items[items.len() - 1] == items.last());
}

/// The words from an index on.
pub fn words_from(args: &Vec<String>, from: usize) -> (r: Vec<String>)
    requires
        from <= args@.len(),
    ensures
        words(r@) == words(args@).skip(from as int),
{
    let mut r: Vec<String> = Vec::new();
    let mut i: usize = from;
    while i < args.len()
        invariant
            from <= i <= args@.len(),
            words(r@) == words(args@).subrange(from as int, i as int),
        decreases args@.len() - i,
    {
        let ghost before = r@;
        r.push(args[i].clone());
        i = i + 1;
        assert(words(r@) =~= words(before).push(args@[i - 1]@));
        assert(words(r@) =~= words(args@).subrange(from as int, i as int));
    }
    assert(words(r@) =~= words(args@).skip(from as int));
    r
}

/// A run of `cargo`: its arguments, and what is set in its environment.
#[derive(Debug)]
pub struct CargoCommand {
    pub args: Vec<String>,
    pub env: Vec<(String, String)>,
}

/// What contracts say of an environment.
pub open spec fn settings_of(env: Seq<(String, String)>) -> Seq<(Seq<char>, Seq<char>)> {
    Seq::new(env.len(), |i: int| (env[i].0@, env[i].1@))
}

impl CargoCommand {
    fn arg(&mut self, word: &str)
        ensures
            words(final(self).args@) == words(old(self).args@).push(word@),
            settings_of(final(self).env@) == settings_of(old(self).env@),
    {
        let ghost before = self.args@;
        self.args.push(word.to_string());
        assert(words(self.args@) =~= words(before).push(word@));
    }

    fn set_env(&mut self, name: &str, value: &str)
        ensures
            words(final(self).args@) == words(old(self).args@),
            settings_of(final(self).env@) == settings_of(old(self).env@).push((name@, value@)),
    {
        let ghost before = self.env@;
        self.env.push((name.to_string(), value.to_string()));
        assert(settings_of(self.env@) =~= settings_of(before).push((name@, value@)));
    }

    fn append_args(&mut self, list: &Vec<String>)
        ensures
            words(final(self).args@) == words(old(self).args@) + words(list@),
            settings_of(final(self).env@) == settings_of(old(self).env@),
    {
        let ghost before = words(self.args@);
        let mut i: usize = 0;
        while i < list.len()
            invariant
                i <= list@.len(),
                words(self.args@) == before + words(list@).take(i as int),
                settings_of(self.env@) == settings_of(old(self).env@),
            decreases list@.len() - i,
        {
            self.arg(list[i].as_str());
            i = i + 1;
            assert(words(self.args@) =~= before + words(list@).take(i as int));
        }
        assert(words(list@).take(i as int) =~= words(list@));
    }
}

/// The arguments that turn a backend on: none for the CPU.
pub open spec fn feature_args(backend: Seq<char>) -> Seq<Seq<char>> {
    if backend == "metal"@ || backend == "vulkan"@ {
        seq!["--features"@, backend]
    } else {
        Seq::empty()
    }
}

/// The arguments of the benchmark of a backend.
pub open spec fn bench_args(backend: Seq<char>, bench: BenchModel) -> Seq<Seq<char>> {
    seq!["bench"@, "-p"@, "qwen3-tts"@, "--bench"@, "synthesize"@] + feature_args(backend) + seq![
        "--"@,
    ] + bench.criterion_args
}

/// The environment of the benchmark of a backend. Each backend is built apart from the others.
pub open spec fn bench_env(root: Seq<char>, backend: Seq<char>, bench: BenchModel) -> Seq<
    (Seq<char>, Seq<char>),
> {
    seq![
        ("CARGO_TARGET_DIR"@, joined(root, "target/bench-"@ + backend)),
        ("QWEN3_TTS_BENCH_BACKEND"@, backend),
        ("QWEN3_TTS_BENCH_MODEL_DIR"@, bench.model_dir),
        ("QWEN3_TTS_BENCH_TEXT"@, bench.text),
        ("QWEN3_TTS_BENCH_THREADS"@, bench.threads),
        ("QWEN3_TTS_BENCH_MAX_AUDIO_FRAMES"@, bench.frames),
        ("QWEN3_TTS_BENCH_TEMPERATURE"@, bench.temperature),
        ("QWEN3_TTS_BENCH_TOP_K"@, bench.top_k),
        ("QWEN3_TTS_BENCH_TOP_P"@, bench.top_p),
    ]
}

/// The benchmark of a backend.
pub fn run_single_bench(workspace_root: &str, backend: &str, bench: &BenchArgs) -> (r: CargoCommand)
    ensures
        words(r.args@) == bench_args(backend@, bench@),
        settings_of(r.env@) == bench_env(workspace_root@, backend@, bench@),
{
    let mut command = CargoCommand { args: Vec::new(), env: Vec::new() };
    assert(words(command.args@) =~= Seq::<Seq<char>>::empty());
    assert(settings_of(command.env@) =~= Seq::<(Seq<char>, Seq<char>)>::empty());
    command.arg("bench");
    command.arg("-p");
    command.arg("qwen3-tts");
    command.arg("--bench");
    command.arg("synthesize");
    if same_text(backend, "metal") || same_text(backend, "vulkan") {
        command.arg("--features");
        command.arg(backend);
    }
    command.arg("--");
    command.append_args(&bench.criterion_args);
    assert(words(command.args@) =~= bench_args(backend@, bench@));
    let mut target = "target/bench-".to_string();
    target.append(backend);
    command.set_env("CARGO_TARGET_DIR", join(workspace_root, target.as_str()).as_str());
    command.set_env("QWEN3_TTS_BENCH_BACKEND", backend);
    command.set_env("QWEN3_TTS_BENCH_MODEL_DIR", bench.model_dir.as_str());
    command.set_env("QWEN3_TTS_BENCH_TEXT", bench.text.as_str());
    command.set_env("QWEN3_TTS_BENCH_THREADS", bench.threads.as_str());
    command.set_env("QWEN3_TTS_BENCH_MAX_AUDIO_FRAMES", bench.frames.as_str());
    command.set_env("QWEN3_TTS_BENCH_TEMPERATURE", bench.temperature.as_str());
    command.set_env("QWEN3_TTS_BENCH_TOP_K", bench.top_k.as_str());
    command.set_env("QWEN3_TTS_BENCH_TOP_P", bench.top_p.as_str());
    assert(settings_of(command.env@) =~= bench_env(workspace_root@, backend@, bench@));
    command
}

/// The benchmarks that the arguments of the benchmark command ask for, one per backend.
pub fn run_bench(workspace_root: &str, args: &Vec<String>) -> (r: Result<
    Vec<CargoCommand>,
    String,
>)
    ensures
        match bench_from(BenchModel::initial(workspace_root@), words(args@), 0) {
            Err(fault) => r matches Err(message) && message@ == fault,
            Ok(m) => match backends_named(m.backend) {
                Err(fault) => r matches Err(message) && message@ == fault,
                Ok(list) => {
                    &&& r matches Ok(commands)
                    &&& commands@.len() == list.len()
                    &&& forall|i: int|
                        0 <= i < list.len() ==> words((#[trigger] commands@[i]).args@)
                            == bench_args(list[i], m) && settings_of(commands@[i].env@)
                            == bench_env(workspace_root@, list[i], m)
                },
            },
        },
{
    let bench = match BenchArgs::parse(workspace_root, args) {
        Ok(bench) => bench,
        Err(message) => {
            return Err(message);
        },
    };
    let list = match backends_of(bench.backend.as_str()) {
        Ok(list) => list,
        Err(message) => {
            return Err(message);
        },
    };
    let mut commands: Vec<CargoCommand> = Vec::new();
    let mut i: usize = 0;
    while i < list.len()
        invariant
            i <= list@.len(),
            commands@.len() == i,
            forall|k: int|
                0 <= k < i ==> words((#[trigger] commands@[k]).args@) == bench_args(
                    list@[k]@,
                    bench@,
                ) && settings_of(commands@[k].env@) == bench_env(
                    workspace_root@,
                    list@[k]@,
                    bench@,
                ),
        decreases list@.len() - i,
    {
        commands.push(run_single_bench(workspace_root, list[i], &bench));
        i = i + 1;
    }
    Ok(commands)
}

/// The words that are taken for backends are those that name some.
pub proof fn lemma_backend_words_are_supported(word: Seq<char>)
    ensures
        backend_word(word) <==> backends_named(word) is Ok,
{
}

/// Backends are built apart from each other.
pub proof fn lemma_builds_are_apart(root: Seq<char>, a: Seq<char>, b: Seq<char>)
    requires
        a != b,
    ensures
        joined(root, "target/bench-"@ + a) != joined(root, "target/bench-"@ + b),
{
    reveal_strlit("target/bench-");
    let prefix = "target/bench-"@;
    let (x, y) = (joined(root, prefix + a), joined(root, prefix + b));
    let n = x.len() - a.len();
    if x == y {
        assert(x.skip(n) =~= a);
        assert(y.skip(n) =~= b);
    }
}

/// The arguments of the run that times syntheses on a backend.
pub open spec fn profile_args(backend: Seq<char>, forwarded: Seq<Seq<char>>) -> Seq<Seq<char>> {
    seq!["run"@, "-p"@, "qwen3-tts-cli"@] + (if backend == "cpu"@ {
        Seq::empty()
    } else {
        seq!["--features"@, backend]
    }) + seq!["--"@, "profile"@] + forwarded
}

/// The run that times syntheses on a backend.
fn profile_command(backend: &str, forwarded: &Vec<String>) -> (r: CargoCommand)
    ensures
        words(r.args@) == profile_args(backend@, words(forwarded@)),
        settings_of(r.env@) == seq![("QWEN3_TTS_BACKEND"@, backend@)],
{
    let mut command = CargoCommand { args: Vec::new(), env: Vec::new() };
    assert(words(command.args@) =~= Seq::<Seq<char>>::empty());
    assert(settings_of(command.env@) =~= Seq::<(Seq<char>, Seq<char>)>::empty());
    command.arg("run");
    command.arg("-p");
    command.arg("qwen3-tts-cli");
    if !same_text(backend, "cpu") {
        command.arg("--features");
        command.arg(backend);
    }
    command.arg("--");
    command.arg("profile");
    command.append_args(forwarded);
    assert(words(command.args@) =~= profile_args(backend@, words(forwarded@)));
    command.set_env("QWEN3_TTS_BACKEND", backend);
    assert(settings_of(command.env@) =~= seq![("QWEN3_TTS_BACKEND"@, backend@)]);
    command
}

/// The runs that time syntheses, one per backend. The first argument may name the backend; the
/// others are passed on.
pub fn run_profile(args: &Vec<String>) -> (r: Result<Vec<CargoCommand>, String>)
    ensures
        ({
            let named = args@.len() > 0 && backend_word(args@[0]@);
            let backend = if named {
                args@[0]@
            } else {
                "cpu"@
            };
            let forwarded = if named {
                words(args@).skip(1)
            } else {
                words(args@)
            };
            &&& backends_named(backend) is Ok
            &&& r is Ok
            &&& r->Ok_0@.len() == backends_named(backend)->Ok_0.len()
            &&& forall|i: int|
                0 <= i < r->Ok_0@.len() ==> words((#[trigger] r->Ok_0@[i]).args@) == profile_args(
                    backends_named(backend)->Ok_0[i],
                    forwarded,
                ) && settings_of(r->Ok_0@[i].env@) == seq![
                    ("QWEN3_TTS_BACKEND"@, backends_named(backend)->Ok_0[i]),
                ]
        }),
{
    let named = args.len() > 0 && is_backend_word(args[0].as_str());
    let backend = if named {
        args[0].clone()
    } else {
        "cpu".to_string()
    };
    let forwarded = words_from(
        args,
        if named {
            1
        } else {
            0
        },
    );
    assert(words(args@).skip(0) =~= words(args@));
    let list = match backends_of(backend.as_str()) {
        Ok(list) => list,
        Err(message) => {
            return Err(message);
        },
    };
    let mut commands: Vec<CargoCommand> = Vec::new();
    let mut i: usize = 0;
    while i < list.len()
        invariant
            i <= list@.len(),
            commands@.len() == i,
            forall|k: int|
                0 <= k < i ==> words((#[trigger] commands@[k]).args@) == profile_args(
                    list@[k]@,
                    words(forwarded@),
                ) && settings_of(commands@[k].env@) == seq![("QWEN3_TTS_BACKEND"@, list@[k]@)],
        decreases list@.len() - i,
    {
        commands.push(profile_command(list[i], &forwarded));
        i = i + 1;
    }
    Ok(commands)
}

} // verus!
