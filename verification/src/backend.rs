//! Compute backends: which one is chosen, and how a graph is run on it.

use vstd::prelude::*;
use crate::error::Qwen3TtsError;
#[allow(unused_imports)]
use crate::error::ErrorModel;
use crate::text::{decimal_text, parse_unsigned, same_text};
#[allow(unused_imports)]
use crate::text::{decimal, text_in, unsigned_value};

verus! {

/// A compute backend.
#[derive(Debug, Clone, Copy, PartialEq, Eq, Structural)]
pub enum BackendKind {
    Cpu,
    Metal,
    Vulkan,
}

impl BackendKind {
    /// The backend's name.
    pub open spec fn spec_name(self) -> Seq<char> {
        match self {
            BackendKind::Cpu => "CPU"@,
            BackendKind::Metal => "Metal"@,
            BackendKind::Vulkan => "Vulkan"@,
        }
    }

    /// The backend's name.
    pub fn as_str(self) -> (r: &'static str)
        ensures
            r@ == self.spec_name(),
    {
        match self {
            BackendKind::Cpu => "CPU",
            BackendKind::Metal => "Metal",
            BackendKind::Vulkan => "Vulkan",
        }
    }

    /// The backend that a word asks for, if any.
    pub open spec fn spec_named(word: Seq<char>) -> Option<BackendKind> {
        if word == "cpu"@ {
            Some(BackendKind::Cpu)
        } else if word == "metal"@ {
            Some(BackendKind::Metal)
        } else if word == "vulkan"@ {
            Some(BackendKind::Vulkan)
        } else {
            None
        }
    }

    /// The backend that a word asks for, if any.
    pub fn named(word: &str) -> (r: Option<BackendKind>)
        ensures
            r == BackendKind::spec_named(word@),
    {
        if same_text(word, "cpu") {
            Some(BackendKind::Cpu)
        } else if same_text(word, "metal") {
            Some(BackendKind::Metal)
        } else if same_text(word, "vulkan") {
            Some(BackendKind::Vulkan)
        } else {
            None
        }
    }

    /// The name under which the device of an index is registered. There is one CPU.
    pub open spec fn spec_device_name(self, device: nat) -> Seq<char> {
        match self {
            BackendKind::Cpu => "CPU"@,
            BackendKind::Metal => "MTL"@ + decimal(device),
            BackendKind::Vulkan => "Vulkan"@ + decimal(device),
        }
    }

    /// The name under which the device of an index is registered.
    pub fn device_name(self, device: u64) -> (r: String)
        ensures
            r@ == self.spec_device_name(device as nat),
    {
        let mut name = match self {
            BackendKind::Cpu => {
                return "CPU".to_string();
            },
            BackendKind::Metal => "MTL".to_string(),
            BackendKind::Vulkan => "Vulkan".to_string(),
        };
        name.append(decimal_text(device).as_str());
        name
    }
}

/// The index of the device to use: the first where none is asked for, or nothing that is an index.
pub fn gpu_device(requested: &Option<String>) -> (r: u64)
    ensures
        r == (match text_in(*requested) {
            Some(text) => match unsigned_value(text, u64::MAX as nat) {
                Some(n) => n,
                None => 0,
            },
            None => 0,
        }),
{
    match requested {
        Some(text) => match parse_unsigned(text.as_str(), u64::MAX) {
            Some(n) => n,
            None => 0,
        },
        None => 0,
    }
}

/// What a build was made for.
#[derive(Debug, Clone, Copy, PartialEq, Eq, Structural)]
pub struct BuildTarget {
    /// Whether the build supports Metal.
    pub metal: bool,
    /// Whether the build supports Vulkan.
    pub vulkan: bool,
    /// Whether the platform is one of Apple's.
    pub apple: bool,
}

impl BuildTarget {
    /// Whether a build has a backend.
    pub open spec fn spec_has(self, kind: BackendKind) -> bool {
        match kind {
            BackendKind::Cpu => true,
            BackendKind::Metal => self.metal,
            BackendKind::Vulkan => self.vulkan,
        }
    }

    /// Whether a build has a backend.
    pub fn has(self, kind: BackendKind) -> (r: bool)
        ensures
            r == self.spec_has(kind),
    {
        match kind {
            BackendKind::Cpu => true,
            BackendKind::Metal => self.metal,
            BackendKind::Vulkan => self.vulkan,
        }
    }

    /// The backend that is asked for, where the build has it. Nothing is asked for by `auto`.
    pub open spec fn spec_asked(self, requested: Option<Seq<char>>) -> Option<BackendKind> {
        match requested {
            Some(word) => match BackendKind::spec_named(word) {
                Some(kind) => if self.spec_has(kind) {
                    Some(kind)
                } else {
                    None
                },
                None => None,
            },
            None => None,
        }
    }

    /// The backend that is asked for, where the build has it.
    pub fn asked(self, requested: &Option<String>) -> (r: Option<BackendKind>)
        ensures
            r == self.spec_asked(text_in(*requested)),
    {
        match requested {
            Some(word) => match BackendKind::named(word.as_str()) {
                Some(kind) => if self.has(kind) {
                    Some(kind)
                } else {
                    None
                },
                None => None,
            },
            None => None,
        }
    }

    /// The accelerator that a build prefers to the CPU.
    pub open spec fn spec_accelerator(self) -> Option<BackendKind> {
        if self.metal && self.apple {
            Some(BackendKind::Metal)
        } else if self.vulkan && !self.apple {
            Some(BackendKind::Vulkan)
        } else {
            None
        }
    }

    /// The accelerator that a build prefers to the CPU.
    pub fn accelerator(self) -> (r: Option<BackendKind>)
        ensures
            r == self.spec_accelerator(),
    {
        if self.metal && self.apple {
            Some(BackendKind::Metal)
        } else if self.vulkan && !self.apple {
            Some(BackendKind::Vulkan)
        } else {
            None
        }
    }
}

/// Where the choice of a backend stands.
#[derive(Debug, Clone, Copy, PartialEq, Eq, Structural)]
pub enum BackendChoice {
    /// The accelerator is to be initialised.
    TryAccelerator(BackendKind),
    /// The CPU is to be initialised as the fallback of an accelerator.
    InitFallback(BackendKind),
    /// The CPU is to be initialised as the primary backend.
    InitCpu,
    /// The graph allocator of the primary backend is to be made.
    InitAllocator { primary: BackendKind, fallback: bool },
    /// The backends are ready: the primary one, and whether the CPU stands by.
    Ready { primary: BackendKind, fallback: bool },
}

impl BackendChoice {
    /// Where the choice goes for the sake of one backend.
    pub open spec fn spec_toward(kind: BackendKind) -> BackendChoice {
        if kind == BackendKind::Cpu {
            BackendChoice::InitCpu
        } else {
            BackendChoice::TryAccelerator(kind)
        }
    }

    /// Where the choice starts: with the backend that is asked for, where the build has it, and
    /// otherwise with the accelerator that the build prefers.
    pub open spec fn spec_start(
        target: BuildTarget,
        requested: Option<Seq<char>>,
    ) -> BackendChoice {
        match target.spec_asked(requested) {
            Some(kind) => BackendChoice::spec_toward(kind),
            None => match target.spec_accelerator() {
                Some(kind) => BackendChoice::TryAccelerator(kind),
                None => BackendChoice::InitCpu,
            },
        }
    }

    /// Where the choice goes once the initialisation that it asks for has succeeded or failed.
    pub open spec fn spec_next(self, ok: bool) -> Result<BackendChoice, ErrorModel> {
        match self {
            BackendChoice::TryAccelerator(kind) => Ok(
                if ok {
                    BackendChoice::InitFallback(kind)
                } else {
                    BackendChoice::InitCpu
                },
            ),
            BackendChoice::InitFallback(kind) => if ok {
                Ok(BackendChoice::InitAllocator { primary: kind, fallback: true })
            } else {
                Err(ErrorModel::InvalidInput("failed to initialize ggml CPU backend"@))
            },
            BackendChoice::InitCpu => if ok {
                Ok(BackendChoice::InitAllocator { primary: BackendKind::Cpu, fallback: false })
            } else {
                Err(ErrorModel::InvalidInput("failed to initialize ggml CPU backend"@))
            },
            BackendChoice::InitAllocator { primary, fallback } => if ok {
                Ok(BackendChoice::Ready { primary, fallback })
            } else {
                Err(ErrorModel::InvalidInput("failed to initialize ggml graph allocator"@))
            },
            BackendChoice::Ready { .. } => Ok(self),
        }
    }

    /// Where the choice goes for the sake of one backend.
    pub fn toward(kind: BackendKind) -> (r: BackendChoice)
        ensures
            r == BackendChoice::spec_toward(kind),
    {
        if kind == BackendKind::Cpu {
            BackendChoice::InitCpu
        } else {
            BackendChoice::TryAccelerator(kind)
        }
    }

    /// Where the choice starts. `requested` is the word that asks for a backend: `cpu`, `metal` or
    /// `vulkan`, or `auto` for the build's own preference.
    pub fn start(target: BuildTarget, requested: &Option<String>) -> (r: BackendChoice)
        ensures
            r == BackendChoice::spec_start(target, text_in(*requested)),
    {
        match target.asked(requested) {
            Some(kind) => BackendChoice::toward(kind),
            None => match target.accelerator() {
                Some(kind) => BackendChoice::TryAccelerator(kind),
                None => BackendChoice::InitCpu,
            },
        }
    }

    /// Where the choice goes once the initialisation that it asks for has succeeded or failed.
    pub fn next(self, ok: bool) -> (r: Result<BackendChoice, Qwen3TtsError>)
        ensures
            match r {
                Ok(choice) => self.spec_next(ok) == Ok::<_, ErrorModel>(choice),
                Err(e) => self.spec_next(ok) == Err::<BackendChoice, _>(e@),
            },
    {
        match self {
            BackendChoice::TryAccelerator(kind) => Ok(
                if ok {
                    BackendChoice::InitFallback(kind)
                } else {
                    BackendChoice::InitCpu
                },
            ),
            BackendChoice::InitFallback(kind) => if ok {
                Ok(BackendChoice::InitAllocator { primary: kind, fallback: true })
            } else {
                Err(Qwen3TtsError::InvalidInput("failed to initialize ggml CPU backend".to_string()))
            },
            BackendChoice::InitCpu => if ok {
                Ok(BackendChoice::InitAllocator { primary: BackendKind::Cpu, fallback: false })
            } else {
                Err(Qwen3TtsError::InvalidInput("failed to initialize ggml CPU backend".to_string()))
            },
            BackendChoice::InitAllocator { primary, fallback } => if ok {
                Ok(BackendChoice::Ready { primary, fallback })
            } else {
                Err(
                    Qwen3TtsError::InvalidInput(
                        "failed to initialize ggml graph allocator".to_string(),
                    ),
                )
            },
            BackendChoice::Ready { .. } => Ok(self),
        }
    }
}

/// The choice after as many initialisations as `answers` tells the outcomes of.
pub open spec fn chosen(
    target: BuildTarget,
    requested: Option<Seq<char>>,
    answers: Seq<bool>,
) -> Result<BackendChoice, ErrorModel>
    decreases answers.len(),
{
    if answers.len() == 0 {
        Ok(BackendChoice::spec_start(target, requested))
    } else {
        match chosen(target, requested, answers.drop_last()) {
            Ok(choice) => choice.spec_next(answers.last()),
            Err(e) => Err(e),
        }
    }
}

/// A backend that is asked for and that the build has is the primary one once it is initialised.
/// The CPU stands by an accelerator, and takes its place where it cannot be initialised.
pub proof fn lemma_request_is_kept(target: BuildTarget, requested: Option<Seq<char>>)
    requires
        target.spec_asked(requested) is Some,
    ensures
        ({
            let kind = target.spec_asked(requested)->Some_0;
            &&& requested == Some("cpu"@) ==> kind == BackendKind::Cpu
            &&& kind == BackendKind::Cpu ==> chosen(target, requested, seq![true, true]) == Ok::<
                _,
                ErrorModel,
            >(BackendChoice::Ready { primary: BackendKind::Cpu, fallback: false })
            &&& kind != BackendKind::Cpu ==> chosen(target, requested, seq![true, true, true])
                == Ok::<_, ErrorModel>(BackendChoice::Ready { primary: kind, fallback: true })
            &&& kind != BackendKind::Cpu ==> chosen(target, requested, seq![false, true, true])
                == Ok::<_, ErrorModel>(
                BackendChoice::Ready { primary: BackendKind::Cpu, fallback: false },
            )
        }),
{
    lemma_chosen_two(target, requested, true, true);
    lemma_chosen_three(target, requested, true, true, true);
    lemma_chosen_three(target, requested, false, true, true);
}

/// A build with an accelerator prefers it and keeps the CPU standing by, unless it is asked for
/// another backend that it has.
pub proof fn lemma_accelerator_preferred(target: BuildTarget, requested: Option<Seq<char>>)
    requires
        target.spec_asked(requested) is None,
        target.spec_accelerator() is Some,
    ensures
        chosen(target, requested, seq![true, true, true]) == Ok::<_, ErrorModel>(
            BackendChoice::Ready {
                primary: target.spec_accelerator()->Some_0,
                fallback: true,
            },
        ),
        target.metal && target.apple ==> target.spec_accelerator() == Some(BackendKind::Metal),
        target.vulkan && !target.apple ==> target.spec_accelerator() == Some(BackendKind::Vulkan),
{
    lemma_chosen_three(target, requested, true, true, true);
}

/// A build whose accelerator cannot be initialised falls back to the CPU.
pub proof fn lemma_falls_back_to_cpu(target: BuildTarget, requested: Option<Seq<char>>)
    requires
        target.spec_asked(requested) is None,
        target.spec_accelerator() is Some,
    ensures
        chosen(target, requested, seq![false, true, true]) == Ok::<_, ErrorModel>(
            BackendChoice::Ready { primary: BackendKind::Cpu, fallback: false },
        ),
{
    lemma_chosen_three(target, requested, false, true, true);
}

/// A build without accelerators uses the CPU only, whatever it is asked for.
pub proof fn lemma_cpu_only(target: BuildTarget, requested: Option<Seq<char>>)
    requires
        !target.metal && !target.vulkan,
    ensures
        chosen(target, requested, seq![true, true]) == Ok::<_, ErrorModel>(
            BackendChoice::Ready { primary: BackendKind::Cpu, fallback: false },
        ),
{
    lemma_chosen_two(target, requested, true, true);
}

/// Nothing is asked for by `auto`.
pub proof fn lemma_auto_asks_for_nothing(target: BuildTarget)
    ensures
        target.spec_asked(Some("auto"@)) is None,
        target.spec_asked(None) is None,
{
    reveal_strlit("auto");
    reveal_strlit("cpu");
    reveal_strlit("metal");
    reveal_strlit("vulkan");
    assert("auto"@.len() == 4 && "cpu"@.len() == 3 && "metal"@.len() == 5 && "vulkan"@.len() == 6);
}

proof fn lemma_chosen_two(target: BuildTarget, requested: Option<Seq<char>>, a: bool, b: bool)
    ensures
        chosen(target, requested, seq![a, b]) == ({
            match BackendChoice::spec_start(target, requested).spec_next(a) {
                Ok(x) => x.spec_next(b),
                Err(e) => Err(e),
            }
        }),
{
    reveal_with_fuel(chosen, 3);
    assert(seq![a, b].drop_last() == seq![a]);
    assert(seq![a].drop_last() == Seq::<bool>::empty());
}

proof fn lemma_chosen_three(
    target: BuildTarget,
    requested: Option<Seq<char>>,
    a: bool,
    b: bool,
    c: bool,
)
    ensures
        chosen(target, requested, seq![a, b, c]) == ({
            match BackendChoice::spec_start(target, requested).spec_next(a) {
                Ok(x) => match x.spec_next(b) {
                    Ok(y) => y.spec_next(c),
                    Err(e) => Err(e),
                },
                Err(e) => Err(e),
            }
        }),
{
    lemma_chosen_two(target, requested, a, b);
    assert(seq![a, b, c].drop_last() == seq![a, b]);
}

/// The choice of a backend has ended after three initialisations, whatever came of them.
pub proof fn lemma_choice_ends(
    target: BuildTarget,
    requested: Option<Seq<char>>,
    a: bool,
    b: bool,
    c: bool,
)
    ensures
        chosen(target, requested, seq![a, b, c]) matches Ok(choice) ==> choice is Ready,
{
    lemma_chosen_three(target, requested, a, b, c);
}

/// The number of threads that the CPU backend is given: at least one. A number that does not fit
/// in an `i32` wraps around.
pub fn normalize_threads(thread_count: usize) -> (r: i32)
    ensures
        r == (if thread_count == 0 {
            1
        } else {
            thread_count as i32
        }),
{
    if thread_count == 0 {
        1
    } else {
        #[verifier::truncate] (thread_count as i32)
    }
}

/// The thread counts that the primary backend and its fallback are given. Only the CPU takes one.
pub fn thread_settings(primary: BackendKind, fallback: bool, thread_count: usize) -> (r: (
    Option<i32>,
    Option<i32>,
))
    ensures
        r.0 is Some <==> primary == BackendKind::Cpu,
        r.1 is Some <==> fallback,
        r.0 matches Some(n) ==> n == (if thread_count == 0 {
            1
        } else {
            thread_count as i32
        }),
        r.1 matches Some(n) ==> n == (if thread_count == 0 {
            1
        } else {
            thread_count as i32
        }),
{
    let n = normalize_threads(thread_count);
    (
        if primary == BackendKind::Cpu {
            Some(n)
        } else {
            None
        },
        if fallback {
            Some(n)
        } else {
            None
        },
    )
}

/// Where the run of a graph stands.
#[derive(Debug, Clone, Copy, PartialEq, Eq, Structural)]
pub enum GraphRun {
    /// The graph is to be allocated on the backend.
    Allocate,
    /// The input of the given index is to be uploaded.
    Upload(usize),
    /// The graph is to be computed.
    Compute,
    /// The output of the given index is to be downloaded.
    Download(usize),
    /// The outputs are there.
    Done,
}

impl GraphRun {
    /// The stage from input `k` on.
    pub open spec fn spec_upload(k: int, uploads: usize) -> GraphRun {
        if k < uploads {
            GraphRun::Upload(k as usize)
        } else {
            GraphRun::Compute
        }
    }

    /// The stage from output `k` on.
    pub open spec fn spec_download(k: int, downloads: usize) -> GraphRun {
        if k < downloads {
            GraphRun::Download(k as usize)
        } else {
            GraphRun::Done
        }
    }

    /// What follows once a stage has succeeded or failed. Uploads and downloads do not fail.
    pub open spec fn spec_next(
        self,
        ok: bool,
        uploads: usize,
        downloads: usize,
        error_message: Seq<char>,
    ) -> Result<GraphRun, ErrorModel> {
        match self {
            GraphRun::Allocate => if ok {
                Ok(GraphRun::spec_upload(0, uploads))
            } else {
                Err(
                    ErrorModel::InvalidInput(
                        "failed to allocate backend graph for "@ + error_message,
                    ),
                )
            },
            GraphRun::Upload(k) => Ok(GraphRun::spec_upload(k + 1, uploads)),
            GraphRun::Compute => if ok {
                Ok(GraphRun::spec_download(0, downloads))
            } else {
                Err(ErrorModel::InvalidInput(error_message))
            },
            GraphRun::Download(k) => Ok(GraphRun::spec_download(k + 1, downloads)),
            GraphRun::Done => Ok(GraphRun::Done),
        }
    }

    /// What follows once a stage has succeeded or failed.
    pub fn next(self, ok: bool, uploads: usize, downloads: usize, error_message: &str) -> (r: Result<
        GraphRun,
        Qwen3TtsError,
    >)
        ensures
            match r {
                Ok(run) => self.spec_next(ok, uploads, downloads, error_message@) == Ok::<
                    _,
                    ErrorModel,
                >(run),
                Err(e) => self.spec_next(ok, uploads, downloads, error_message@) == Err::<
                    GraphRun,
                    _,
                >(e@),
            },
    {
        match self {
            GraphRun::Allocate => if ok {
                Ok(
                    if 0 < uploads {
                        GraphRun::Upload(0)
                    } else {
                        GraphRun::Compute
                    },
                )
            } else {
                let mut text = "failed to allocate backend graph for ".to_string();
                text.append(error_message);
                Err(Qwen3TtsError::InvalidInput(text))
            },
            GraphRun::Upload(k) => Ok(
                if k < uploads && k + 1 < uploads {
                    GraphRun::Upload(k + 1)
                } else {
                    GraphRun::Compute
                },
            ),
            GraphRun::Compute => if ok {
                Ok(
                    if 0 < downloads {
                        GraphRun::Download(0)
                    } else {
                        GraphRun::Done
                    },
                )
            } else {
                Err(Qwen3TtsError::InvalidInput(error_message.to_string()))
            },
            GraphRun::Download(k) => Ok(
                if k < downloads && k + 1 < downloads {
                    GraphRun::Download(k + 1)
                } else {
                    GraphRun::Done
                },
            ),
            GraphRun::Done => Ok(GraphRun::Done),
        }
    }
}

/// Where the run of a graph stands after some stages, none of which failed.
pub open spec fn run_after(stages: nat, uploads: usize, downloads: usize) -> GraphRun
    decreases stages,
{
    if stages == 0 {
        GraphRun::Allocate
    } else {
        match run_after((stages - 1) as nat, uploads, downloads).spec_next(
            true,
            uploads,
            downloads,
            Seq::empty(),
        ) {
            Ok(run) => run,
            Err(_) => GraphRun::Done,
        }
    }
}

/// The inputs are uploaded in order after the graph has been allocated and before it is computed,
/// and the outputs are downloaded in order afterwards.
pub proof fn lemma_run_goes_in_order(stages: nat, uploads: usize, downloads: usize)
    ensures
        run_after(stages, uploads, downloads) == (if stages == 0 {
            GraphRun::Allocate
        } else if stages <= uploads {
            GraphRun::Upload((stages - 1) as usize)
        } else if stages == uploads + 1 {
            GraphRun::Compute
        } else if stages <= uploads + 1 + downloads {
            GraphRun::Download((stages - uploads - 2) as usize)
        } else {
            GraphRun::Done
        }),
    decreases stages,
{
    if stages > 0 {
        lemma_run_goes_in_order((stages - 1) as nat, uploads, downloads);
    }
}

/// The words that ask for backends, and the names that backends and their devices go by.
pub proof fn lemma_backend_names(
    word: &str,
    named: Option<BackendKind>,
    kind: BackendKind,
    name: &'static str,
    device: u64,
    device_name: String,
)
    requires
        call_ensures(BackendKind::named, (word,), named),
        call_ensures(BackendKind::as_str, (kind,), name),
        call_ensures(BackendKind::device_name, (kind, device), device_name),
    ensures
        named == Some(BackendKind::Cpu) <==> word@ == "cpu"@,
        named == Some(BackendKind::Metal) <==> word@ == "metal"@,
        named == Some(BackendKind::Vulkan) <==> word@ == "vulkan"@,
        kind == BackendKind::Cpu ==> name@ == "CPU"@ && device_name@ == "CPU"@,
        kind == BackendKind::Metal ==> name@ == "Metal"@ && device_name@ == "MTL"@ + decimal(
            device as nat,
        ),
        kind == BackendKind::Vulkan ==> name@ == "Vulkan"@ && device_name@ == "Vulkan"@ + decimal(
            device as nat,
        ),
{
    reveal_strlit("cpu");
    reveal_strlit("metal");
    reveal_strlit("vulkan");
    assert("cpu"@.len() == 3 && "metal"@.len() == 5 && "vulkan"@.len() == 6);
}

/// The device of the number that is asked for is used, and the first where none is asked for or
/// what is asked for is no number.
pub proof fn lemma_device_asked_for(requested: Option<String>, n: u64, r: u64)
    requires
        call_ensures(gpu_device, (&requested,), r),
    ensures
        requested is None ==> r == 0,
        requested matches Some(text) ==> {
            &&& text@ == decimal(n as nat) ==> r == n
            &&& text@.len() == 0 ==> r == 0
        },
{
    crate::text::lemma_unsigned_round_trip(n as nat, u64::MAX as nat);
}

/// Whether a build can serve a word: it names a backend that the build has.
pub open spec fn serves(target: BuildTarget, word: Seq<char>) -> bool {
    word == "cpu"@ || word == "metal"@ && target.metal || word == "vulkan"@ && target.vulkan
}

/// Where the choice of a backend starts: with the backend that is asked for, where the build has
/// it. Otherwise it starts with Metal on a platform of Apple's, with Vulkan on another, and with the
/// CPU where the build does not have the one or the other.
pub proof fn lemma_choice_starts(
    target: BuildTarget,
    requested: Option<String>,
    r: BackendChoice,
)
    requires
        call_ensures(BackendChoice::start, (target, &requested), r),
    ensures
        ({
            let served = requested matches Some(word) && serves(target, word@);
            let word = requested->0@;
            &&& served && word == "cpu"@ ==> r == BackendChoice::InitCpu
            &&& served && word == "metal"@ ==> r == BackendChoice::TryAccelerator(
                BackendKind::Metal,
            )
            &&& served && word == "vulkan"@ ==> r == BackendChoice::TryAccelerator(
                BackendKind::Vulkan,
            )
            &&& !served && target.apple && target.metal ==> r == BackendChoice::TryAccelerator(
                BackendKind::Metal,
            )
            &&& !served && !target.apple && target.vulkan ==> r == BackendChoice::TryAccelerator(
                BackendKind::Vulkan,
            )
            &&& !served && target.apple && !target.metal ==> r == BackendChoice::InitCpu
            &&& !served && !target.apple && !target.vulkan ==> r == BackendChoice::InitCpu
        }),
{
    reveal_strlit("cpu");
    reveal_strlit("metal");
    reveal_strlit("vulkan");
    assert("cpu"@.len() == 3 && "metal"@.len() == 5 && "vulkan"@.len() == 6);
}

/// Where the choice of a backend goes: an accelerator that starts gets the CPU beside it, and one
/// that does not makes way for the CPU alone. Without the CPU, or without memory for graphs, there is
/// no backend.
pub proof fn lemma_choice_goes_on(
    kind: BackendKind,
    fallback: bool,
    ok: bool,
    tried: Result<BackendChoice, Qwen3TtsError>,
    beside: Result<BackendChoice, Qwen3TtsError>,
    alone: Result<BackendChoice, Qwen3TtsError>,
    last: Result<BackendChoice, Qwen3TtsError>,
)
    requires
        call_ensures(BackendChoice::next, (BackendChoice::TryAccelerator(kind), ok), tried),
        call_ensures(BackendChoice::next, (BackendChoice::InitFallback(kind), ok), beside),
        call_ensures(BackendChoice::next, (BackendChoice::InitCpu, ok), alone),
        call_ensures(
            BackendChoice::next,
            (BackendChoice::InitAllocator { primary: kind, fallback }, ok),
            last,
        ),
    ensures
        tried is Ok,
        ok ==> tried->Ok_0 == BackendChoice::InitFallback(kind),
        !ok ==> tried->Ok_0 == BackendChoice::InitCpu,
        ok ==> beside is Ok && beside->Ok_0 == (BackendChoice::InitAllocator {
            primary: kind,
            fallback: true,
        }),
        ok ==> alone is Ok && alone->Ok_0 == (BackendChoice::InitAllocator {
            primary: BackendKind::Cpu,
            fallback: false,
        }),
        ok ==> last is Ok && last->Ok_0 == (BackendChoice::Ready { primary: kind, fallback }),
        !ok ==> beside is Err && beside->Err_0@ == ErrorModel::InvalidInput(
            "failed to initialize ggml CPU backend"@,
        ),
        !ok ==> alone is Err && alone->Err_0@ == ErrorModel::InvalidInput(
            "failed to initialize ggml CPU backend"@,
        ),
        !ok ==> last is Err && last->Err_0@ == ErrorModel::InvalidInput(
            "failed to initialize ggml graph allocator"@,
        ),
{
}

/// The CPU, and nothing but the CPU, is given a number of threads: the one that is asked for, and one
/// where none is.
pub proof fn lemma_threads_go_to_the_cpu(
    primary: BackendKind,
    fallback: bool,
    thread_count: usize,
    one: i32,
    r: (Option<i32>, Option<i32>),
)
    requires
        call_ensures(normalize_threads, (thread_count,), one),
        call_ensures(thread_settings, (primary, fallback, thread_count), r),
        thread_count <= i32::MAX,
    ensures
        thread_count >= 1 ==> one == thread_count,
        thread_count == 0 ==> one == 1,
        primary == BackendKind::Cpu ==> r.0 == Some(one),
        primary != BackendKind::Cpu ==> r.0 is None,
        fallback ==> r.1 == Some(one),
        !fallback ==> r.1 is None,
{
}

/// The run of a graph goes from stage to stage: it is allocated, its inputs are uploaded one by one,
/// it is computed, and its outputs are downloaded one by one. What cannot be allocated or computed is
/// an error that says so.
pub proof fn lemma_graph_run(
    at: GraphRun,
    ok: bool,
    uploads: usize,
    downloads: usize,
    message: &str,
    r: Result<GraphRun, Qwen3TtsError>,
)
    requires
        call_ensures(GraphRun::next, (at, ok, uploads, downloads, message), r),
    ensures
        at == GraphRun::Allocate && !ok ==> r is Err && r->Err_0@ == ErrorModel::InvalidInput(
            "failed to allocate backend graph for "@ + message@,
        ),
        at == GraphRun::Compute && !ok ==> r is Err && r->Err_0@ == ErrorModel::InvalidInput(
            message@,
        ),
        ok ==> r is Ok,
        at == GraphRun::Allocate && ok ==> r->Ok_0 == (if uploads > 0 {
            GraphRun::Upload(0)
        } else {
            GraphRun::Compute
        }),
        at matches GraphRun::Upload(k) ==> r is Ok && (k + 1 < uploads ==> r->Ok_0
            == GraphRun::Upload((k + 1) as usize)) && (k + 1 >= uploads ==> r->Ok_0
            == GraphRun::Compute),
        at == GraphRun::Compute && ok ==> r->Ok_0 == (if downloads > 0 {
            GraphRun::Download(0)
        } else {
            GraphRun::Done
        }),
        at matches GraphRun::Download(k) ==> r is Ok && (k + 1 < downloads ==> r->Ok_0
            == GraphRun::Download((k + 1) as usize)) && (k + 1 >= downloads ==> r->Ok_0
            == GraphRun::Done),
{
}

/// A build always has the CPU, and an accelerator where it was made for it. It serves the words
/// that name what it has, prefers Metal on a platform of Apple's and Vulkan on another, and tries an
/// accelerator where it initialises the CPU at once.
pub proof fn lemma_what_a_build_has(
    target: BuildTarget,
    kind: BackendKind,
    has: bool,
    requested: Option<String>,
    asked: Option<BackendKind>,
    preferred: Option<BackendKind>,
    choice: BackendChoice,
)
    requires
        call_ensures(BuildTarget::has, (target, kind), has),
        call_ensures(BuildTarget::asked, (target, &requested), asked),
        call_ensures(BuildTarget::accelerator, (target,), preferred),
        call_ensures(BackendChoice::toward, (kind,), choice),
    ensures
        kind == BackendKind::Cpu ==> has && choice == BackendChoice::InitCpu,
        kind == BackendKind::Metal ==> has == target.metal,
        kind == BackendKind::Vulkan ==> has == target.vulkan,
        kind != BackendKind::Cpu ==> choice == BackendChoice::TryAccelerator(kind),
        asked is Some <==> requested is Some && serves(target, requested->0@),
        asked == Some(BackendKind::Cpu) <==> requested is Some && requested->0@ == "cpu"@,
        asked == Some(BackendKind::Metal) ==> requested->0@ == "metal"@,
        asked == Some(BackendKind::Vulkan) ==> requested->0@ == "vulkan"@,
        preferred == Some(BackendKind::Metal) <==> target.metal && target.apple,
        preferred == Some(BackendKind::Vulkan) <==> target.vulkan && !target.apple,
        preferred != Some(BackendKind::Cpu),
{
    reveal_strlit("cpu");
    reveal_strlit("metal");
    reveal_strlit("vulkan");
    assert("cpu"@.len() == 3 && "metal"@.len() == 5 && "vulkan"@.len() == 6);
}

} // verus!
