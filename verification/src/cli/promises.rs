//! What the commands make of their arguments.

use vstd::prelude::*;
#[allow(unused_imports)]
use crate::backend::{BackendChoice, BuildTarget};
#[allow(unused_imports)]
use crate::backend_search::BackendSearch;
#[allow(unused_imports)]
use crate::cli::args::{value_arg, RuntimeBackendOverrides};
#[allow(unused_imports)]
use crate::cli::args::{backend_flag, spelled, words, Pair};
#[allow(unused_imports)]
use crate::cli::bench::{
    backends_of, default_model_dir, is_backend_word, run_bench, run_profile, run_single_bench,
    words_from, BenchArgs, CargoCommand,
};
#[allow(unused_imports)]
use crate::cli::bench::{
    all_valid, backend_word, bench_flag, held_to, items_read, items_written,
    lemma_last_bench_value_holds, settings_of, texts, unnamed_from, unset_from, BenchItem, BenchModel,
};
#[allow(unused_imports)]
use crate::cli::profile::{
    check_runs, load_synthesis_conditioning, profile_flag, profile_step, profile_summary,
    unknown_argument_text, wants_help, ConditioningSource, ProfileStep,
};
#[allow(unused_imports)]
use crate::cli::speaker_bin::SpeakerBinArgs;
#[allow(unused_imports)]
use crate::cli::speaker_bin::{
    flag_comes_from, lemma_last_speaker_value_holds, speaker_flag, speaker_flags, ReadingModel,
};
#[allow(unused_imports)]
use crate::paths::join;
#[allow(unused_imports)]
use crate::text::{decimal, text_in};

verus! {

/// The value behind a flag is taken, whatever it looks like, and a flag at the end has none.
pub proof fn lemma_value_behind_a_flag(
    args: Vec<String>,
    idx: &mut usize,
    flag: &str,
    r: Result<String, String>,
)
    requires
        call_ensures(value_arg, (&args, idx, flag), r),
    ensures
        r is Ok <==> *old(idx) + 1 < args@.len(),
        r matches Ok(value) ==> value@ == args@[*old(idx) + 1]@ && *final(idx) == *old(idx) + 2,
        r matches Err(message) ==> message@ == "missing value for "@ + flag@,
{
}

/// The flags that choose backends, and what each of them sets.
pub proof fn lemma_backend_flags(
    choices: &mut RuntimeBackendOverrides,
    args: Vec<String>,
    idx: &mut usize,
    r: Result<bool, String>,
)
    requires
        call_ensures(RuntimeBackendOverrides::parse_flag, (choices, &args, idx), r),
    ensures
        ({
            let word = args@[*old(idx) as int]@;
            let value = args@[*old(idx) + 1]@;
            let known = word == "--backend"@ || word == "--backend-fallback"@ || word
                == "--vocoder-ep"@ || word == "--vocoder-ep-fallback"@;
            &&& !known ==> r == Ok::<_, String>(false) && final(choices)@ == old(choices)@
                && *final(idx) == *old(idx)
            &&& known && r is Err ==> r->Err_0@ == "missing value for "@ + word && *old(idx) + 1
                == args@.len()
            &&& known && r is Ok ==> {
                &&& r->Ok_0
                &&& *final(idx) == *old(idx) + 2
                &&& text_in(final(choices).backend) == (if word == "--backend"@ {
                    Some(value)
                } else {
                    text_in(old(choices).backend)
                })
                &&& text_in(final(choices).backend_fallback) == (if word == "--backend-fallback"@ {
                    Some(value)
                } else {
                    text_in(old(choices).backend_fallback)
                })
                &&& text_in(final(choices).vocoder_ep) == (if word == "--vocoder-ep"@ {
                    Some(value)
                } else {
                    text_in(old(choices).vocoder_ep)
                })
                &&& text_in(final(choices).vocoder_ep_fallback) == (if word
                    == "--vocoder-ep-fallback"@ {
                    Some(value)
                } else {
                    text_in(old(choices).vocoder_ep_fallback)
                })
            }
        }),
{
    reveal_strlit("--backend");
    reveal_strlit("--backend-fallback");
    reveal_strlit("--vocoder-ep");
    reveal_strlit("--vocoder-ep-fallback");
    assert("--backend"@.len() == 9 && "--backend-fallback"@.len() == 18 && "--vocoder-ep"@.len()
        == 12 && "--vocoder-ep-fallback"@.len() == 21);
}

/// A choice that is made goes before that of the environment, one by one.
pub proof fn lemma_choices_go_before_the_environment(
    choices: RuntimeBackendOverrides,
    environment: RuntimeBackendOverrides,
    r: RuntimeBackendOverrides,
)
    requires
        call_ensures(RuntimeBackendOverrides::over, (&choices, &environment), r),
    ensures
        text_in(r.backend) == (if choices.backend is Some {
            text_in(choices.backend)
        } else {
            text_in(environment.backend)
        }),
        text_in(r.backend_fallback) == (if choices.backend_fallback is Some {
            text_in(choices.backend_fallback)
        } else {
            text_in(environment.backend_fallback)
        }),
        text_in(r.vocoder_ep) == (if choices.vocoder_ep is Some {
            text_in(choices.vocoder_ep)
        } else {
            text_in(environment.vocoder_ep)
        }),
        text_in(r.vocoder_ep_fallback) == (if choices.vocoder_ep_fallback is Some {
            text_in(choices.vocoder_ep_fallback)
        } else {
            text_in(environment.vocoder_ep_fallback)
        }),
{
}

/// The words that name backends, and those that they name.
pub proof fn lemma_named_backends(word: &str, r: Result<Vec<&'static str>, String>)
    requires
        call_ensures(backends_of, (word,), r),
    ensures
        word@ == "cpu"@ ==> r is Ok && texts(r->Ok_0@) == seq!["cpu"@],
        word@ == "metal"@ ==> r is Ok && texts(r->Ok_0@) == seq!["metal"@],
        word@ == "vulkan"@ ==> r is Ok && texts(r->Ok_0@) == seq!["vulkan"@],
        word@ == "all"@ ==> r is Ok && texts(r->Ok_0@) == seq!["cpu"@, "metal"@, "vulkan"@],
        word@ == "both"@ ==> r is Ok && texts(r->Ok_0@) == seq!["cpu"@, "metal"@],
        word@ != "cpu"@ && word@ != "metal"@ && word@ != "vulkan"@ && word@ != "all"@ && word@
            != "both"@ ==> r is Err && r->Err_0@ == "unsupported backend: "@ + word@,
{
    lemma_backend_words_differ();
}

proof fn lemma_backend_words_differ()
    ensures
        "cpu"@ != "metal"@ && "cpu"@ != "vulkan"@ && "cpu"@ != "all"@ && "cpu"@ != "both"@,
        "metal"@ != "vulkan"@ && "metal"@ != "all"@ && "metal"@ != "both"@,
        "vulkan"@ != "all"@ && "vulkan"@ != "both"@ && "all"@ != "both"@,
{
    reveal_strlit("cpu");
    reveal_strlit("metal");
    reveal_strlit("vulkan");
    reveal_strlit("all");
    reveal_strlit("both");
    assert("cpu"@[0] == 'c' && "metal"@[0] == 'm' && "vulkan"@[0] == 'v' && "all"@[0] == 'a'
        && "both"@[0] == 'b');
}

/// The flags of the benchmark command, and the words that name its backends.
pub proof fn lemma_bench_words()
    ensures
        bench_flag("--model-dir"@) && bench_flag("--text"@) && bench_flag("--threads"@),
        bench_flag("--frames"@) && bench_flag("--temperature"@) && bench_flag("--top-k"@),
        bench_flag("--top-p"@),
        backend_word("cpu"@) && backend_word("metal"@) && backend_word("vulkan"@),
        backend_word("all"@) && backend_word("both"@),
{
}

/// Whether a text is what some items set a flag to last, or a default where they do not set it.
pub open spec fn set_last(
    items: Seq<BenchItem>,
    flag: Seq<char>,
    default: Seq<char>,
    text: Seq<char>,
) -> bool {
    &&& unset_from(items, 0, flag) ==> text == default
    &&& forall|i: int|
        0 <= i < items.len() && (#[trigger] items[i] matches BenchItem::Flag(f, _) && f == flag)
            && unset_from(items, i + 1, flag) ==> text == items[i]->Flag_1
}

proof fn lemma_set_last(root: Seq<char>, items: Seq<BenchItem>, flag: Seq<char>)
    requires
        all_valid(items),
        bench_flag(flag),
    ensures
        set_last(
            items,
            flag,
            BenchModel::initial(root).get(flag),
            items_read(BenchModel::initial(root), items).get(flag),
        ),
{
    let m = BenchModel::initial(root);
    lemma_last_bench_value_holds(m, items);
    let read = items_read(m, items);
    assert forall|i: int|
        0 <= i < items.len() && (#[trigger] items[i] matches BenchItem::Flag(f, _) && f == flag)
            && unset_from(items, i + 1, flag) implies read.get(flag) == items[i]->Flag_1 by {
        assert(held_to(items, i, read));
    }
}

/// The benchmark command holds every flag to the value that it comes with last, and to its default
/// where it does not come.
pub proof fn lemma_bench_flags_set_what_they_name(
    root: &str,
    args: Vec<String>,
    items: Seq<BenchItem>,
    r: Result<BenchArgs, String>,
    dir: String,
)
    requires
        call_ensures(BenchArgs::parse, (root, &args), r),
        call_ensures(default_model_dir, (root,), dir),
        all_valid(items),
        words(args@) == items_written(items),
    ensures
        r is Ok,
        ({
            let a = r->Ok_0;
            &&& set_last(items, "--model-dir"@, dir@, a.model_dir@)
            &&& set_last(items, "--text"@, "hello"@, a.text@)
            &&& set_last(items, "--threads"@, "4"@, a.threads@)
            &&& set_last(items, "--frames"@, "16"@, a.frames@)
            &&& set_last(items, "--temperature"@, "0.0"@, a.temperature@)
            &&& set_last(items, "--top-k"@, "0"@, a.top_k@)
            &&& set_last(items, "--top-p"@, "1.0"@, a.top_p@)
            &&& a.criterion_args@.len() == 0
            &&& unnamed_from(items, 0) ==> a.backend@ == "cpu"@
            &&& forall|i: int|
                0 <= i < items.len() && #[trigger] items[i] is Backend && unnamed_from(items, i + 1)
                    ==> a.backend@ == items[i]->Backend_0
        }),
{
    reveal_strlit("--model-dir");
    reveal_strlit("--text");
    reveal_strlit("--threads");
    reveal_strlit("--frames");
    reveal_strlit("--temperature");
    reveal_strlit("--top-k");
    reveal_strlit("--top-p");
    assert("--model-dir"@.len() == 11 && "--text"@.len() == 6 && "--threads"@.len() == 9
        && "--frames"@.len() == 8 && "--temperature"@.len() == 13 && "--top-k"@.len() == 7
        && "--top-p"@.len() == 7);
    assert("--top-k"@[6] == 'k' && "--top-p"@[6] == 'p');
    let m = BenchModel::initial(root@);
    lemma_last_bench_value_holds(m, items);
    let read = items_read(m, items);
    lemma_set_last(root@, items, "--model-dir"@);
    lemma_set_last(root@, items, "--text"@);
    lemma_set_last(root@, items, "--threads"@);
    lemma_set_last(root@, items, "--frames"@);
    lemma_set_last(root@, items, "--temperature"@);
    lemma_set_last(root@, items, "--top-k"@);
    lemma_set_last(root@, items, "--top-p"@);
    assert(words(r->Ok_0.criterion_args@).len() == 0);
    assert forall|i: int|
        0 <= i < items.len() && #[trigger] items[i] is Backend && unnamed_from(
            items,
            i + 1,
        ) implies read.backend == items[i]->Backend_0 by {
        assert(held_to(items, i, read));
    }
}

/// Where the benchmark command looks for a model: below the workspace.
pub proof fn lemma_default_model_dir(root: &str, name: &str, dir: String, joined: String)
    requires
        call_ensures(default_model_dir, (root,), dir),
        name@ == "models/volko76-q4k-q8"@,
        call_ensures(join, (root, name), joined),
    ensures
        dir@ == joined@,
{
}

/// The benchmark of a backend runs the benchmark of the library, with the backend turned on, in a
/// build of its own. What it is to do stands in its environment.
pub proof fn lemma_bench_command(
    root: &str,
    backend: &str,
    bench: BenchArgs,
    r: CargoCommand,
    target: &str,
    dir: String,
)
    requires
        call_ensures(run_single_bench, (root, backend, &bench), r),
        target@ == "target/bench-"@ + backend@,
        call_ensures(join, (root, target), dir),
    ensures
        ({
            let head = seq!["bench"@, "-p"@, "qwen3-tts"@, "--bench"@, "synthesize"@];
            let accelerated = backend@ == "metal"@ || backend@ == "vulkan"@;
            let passed = words(bench.criterion_args@);
            &&& accelerated ==> words(r.args@) == head + seq!["--features"@, backend@, "--"@]
                + passed
            &&& !accelerated ==> words(r.args@) == head + seq!["--"@] + passed
        }),
        settings_of(r.env@) == seq![
            ("CARGO_TARGET_DIR"@, dir@),
            ("QWEN3_TTS_BENCH_BACKEND"@, backend@),
            ("QWEN3_TTS_BENCH_MODEL_DIR"@, bench.model_dir@),
            ("QWEN3_TTS_BENCH_TEXT"@, bench.text@),
            ("QWEN3_TTS_BENCH_THREADS"@, bench.threads@),
            ("QWEN3_TTS_BENCH_MAX_AUDIO_FRAMES"@, bench.frames@),
            ("QWEN3_TTS_BENCH_TEMPERATURE"@, bench.temperature@),
            ("QWEN3_TTS_BENCH_TOP_K"@, bench.top_k@),
            ("QWEN3_TTS_BENCH_TOP_P"@, bench.top_p@),
        ],
{
    let head = seq!["bench"@, "-p"@, "qwen3-tts"@, "--bench"@, "synthesize"@];
    let passed = words(bench.criterion_args@);
    assert(head + seq!["--features"@, backend@] + seq!["--"@] + passed =~= head + seq![
        "--features"@,
        backend@,
        "--"@,
    ] + passed);
    assert(head + Seq::<Seq<char>>::empty() + seq!["--"@] + passed =~= head + seq!["--"@] + passed);
}

/// The benchmark command runs the benchmark of each backend that its arguments name, in their order.
pub proof fn lemma_one_bench_per_backend(
    root: &str,
    args: Vec<String>,
    parsed: Result<BenchArgs, String>,
    word: &str,
    list: Result<Vec<&'static str>, String>,
    r: Result<Vec<CargoCommand>, String>,
    i: int,
    one: CargoCommand,
)
    requires
        call_ensures(run_bench, (root, &args), r),
        call_ensures(BenchArgs::parse, (root, &args), parsed),
        parsed matches Ok(bench) ==> word@ == bench.backend@,
        call_ensures(backends_of, (word,), list),
        parsed is Ok && list is Ok && 0 <= i < list->Ok_0@.len() ==> call_ensures(
            run_single_bench,
            (root, list->Ok_0@[i], &parsed->Ok_0),
            one,
        ),
    ensures
        parsed is Err ==> r is Err && r->Err_0@ == parsed->Err_0@,
        parsed is Ok && list is Err ==> r is Err && r->Err_0@ == list->Err_0@,
        parsed is Ok && list is Ok ==> {
            &&& r is Ok
            &&& r->Ok_0@.len() == list->Ok_0@.len()
            &&& 0 <= i < list->Ok_0@.len() ==> words(r->Ok_0@[i].args@) == words(one.args@)
                && settings_of(r->Ok_0@[i].env@) == settings_of(one.env@)
        },
{
}

/// The command that times syntheses over backends runs one after the other, each with the backend
/// turned on and asked for, and with the arguments behind the word that names the backends. The CPU
/// is meant where no word does.
pub proof fn lemma_profile_commands(
    args: Vec<String>,
    word: &str,
    list: Result<Vec<&'static str>, String>,
    r: Result<Vec<CargoCommand>, String>,
    i: int,
)
    requires
        call_ensures(run_profile, (&args,), r),
        ({
            let first = args@[0]@;
            let named = args@.len() > 0 && (first == "cpu"@ || first == "metal"@ || first
                == "vulkan"@ || first == "all"@ || first == "both"@);
            word@ == (if named {
                first
            } else {
                "cpu"@
            })
        }),
        call_ensures(backends_of, (word,), list),
    ensures
        list is Ok && r is Ok,
        r->Ok_0@.len() == list->Ok_0@.len(),
        0 <= i < list->Ok_0@.len() ==> {
            let first = args@[0]@;
            let named = args@.len() > 0 && (first == "cpu"@ || first == "metal"@ || first
                == "vulkan"@ || first == "all"@ || first == "both"@);
            let passed = if named {
                words(args@).skip(1)
            } else {
                words(args@)
            };
            let backend = list->Ok_0@[i]@;
            let head = seq!["run"@, "-p"@, "qwen3-tts-cli"@];
            &&& settings_of(r->Ok_0@[i].env@) == seq![("QWEN3_TTS_BACKEND"@, backend)]
            &&& backend == "cpu"@ ==> words(r->Ok_0@[i].args@) == head + seq!["--"@, "profile"@]
                + passed
            &&& backend != "cpu"@ ==> words(r->Ok_0@[i].args@) == head + seq![
                "--features"@,
                backend,
                "--"@,
                "profile"@,
            ] + passed
        },
{
    lemma_backend_words_differ();
    if 0 <= i < list->Ok_0@.len() {
        let first = args@[0]@;
        let named = args@.len() > 0 && backend_word(first);
        let passed = if named {
            words(args@).skip(1)
        } else {
            words(args@)
        };
        let backend = list->Ok_0@[i]@;
        assert(texts(list->Ok_0@)[i] == backend);
        let head = seq!["run"@, "-p"@, "qwen3-tts-cli"@];
        assert(head + Seq::<Seq<char>>::empty() + seq!["--"@, "profile"@] + passed =~= head + seq![
            "--"@,
            "profile"@,
        ] + passed);
        assert(head + seq!["--features"@, backend] + seq!["--"@, "profile"@] + passed =~= head
            + seq!["--features"@, backend, "--"@, "profile"@] + passed);
    }
}

/// Help is asked for by `--help` or `-h`, wherever it stands, and by nothing else.
pub proof fn lemma_help(args: Vec<String>, r: bool)
    requires
        call_ensures(wants_help, (&args,), r),
    ensures
        r <==> exists|i: int|
            0 <= i < args@.len() && ((#[trigger] args@[i])@ == "--help"@ || args@[i]@ == "-h"@),
{
    if r {
        let i = choose|i: int|
            0 <= i < words(args@).len() && (#[trigger] words(args@)[i] == "--help"@ || words(
                args@,
            )[i] == "-h"@);
        assert(args@[i]@ == words(args@)[i]);
    }
    if exists|i: int|
        0 <= i < args@.len() && ((#[trigger] args@[i])@ == "--help"@ || args@[i]@ == "-h"@) {
        let i = choose|i: int|
            0 <= i < args@.len() && ((#[trigger] args@[i])@ == "--help"@ || args@[i]@ == "-h"@);
        assert(words(args@)[i] == args@[i]@);
    }
}

/// The runs that are asked for by `--runs` are read as a number, of which there has to be one at
/// least.
pub proof fn lemma_runs(
    args: Vec<String>,
    idx: &mut usize,
    r: Result<usize, String>,
    n: usize,
    checked: Result<(), String>,
)
    requires
        call_ensures(profile_flag, (&args, idx), r),
        *old(idx) < args@.len(),
        call_ensures(check_runs, (n,), checked),
    ensures
        ({
            let word = args@[*old(idx) as int]@;
            &&& word != "--runs"@ ==> r is Err && r->Err_0@ == "unknown profile argument: "@ + word
            &&& word == "--runs"@ && *old(idx) + 1 >= args@.len() ==> r is Err && r->Err_0@
                == "missing value for --runs"@
            &&& word == "--runs"@ && *old(idx) + 1 < args@.len() && args@[*old(idx) + 1]@ == decimal(
                n as nat,
            ) ==> r == Ok::<_, String>(n) && *final(idx) == *old(idx) + 2
        }),
        checked is Ok <==> n >= 1,
        checked matches Err(message) ==> message@ == "--runs must be >= 1"@,
{
    reveal_strlit("unknown ");
    reveal_strlit("profile");
    reveal_strlit(" argument: ");
    reveal_strlit("unknown profile argument: ");
    reveal_strlit("missing value for ");
    reveal_strlit("--runs");
    reveal_strlit("missing value for --runs");
    assert("unknown "@ + "profile"@ + " argument: "@ =~= "unknown profile argument: "@);
    assert("missing value for "@ + "--runs"@ =~= "missing value for --runs"@);
    assert(words(args@)[*old(idx) as int] == args@[*old(idx) as int]@);
    if *old(idx) + 1 < args@.len() {
        assert(words(args@)[*old(idx) + 1] == args@[*old(idx) + 1]@);
    }
    crate::text::lemma_unsigned_round_trip(n as nat, usize::MAX as nat);
}

/// What the command that times syntheses does next, and what it prints in the end.
pub proof fn lemma_profile_steps(
    done: usize,
    runs: usize,
    has_out: bool,
    written: bool,
    step: ProfileStep,
    table: &str,
    summary: String,
)
    requires
        call_ensures(profile_step, (done, runs, has_out, written), step),
        call_ensures(profile_summary, (runs, table), summary),
    ensures
        done < runs ==> step == (ProfileStep::Run { keep: done == 0 }),
        done >= runs && has_out && !written ==> step == ProfileStep::Write,
        done >= runs && (!has_out || written) ==> step == ProfileStep::Summarise,
        runs == 1 ==> summary@ == table@,
        runs != 1 ==> summary@ == "averaged over "@ + decimal(runs as nat) + " runs\n"@ + table@,
{
}

/// A prompt goes before a speaker file.
pub proof fn lemma_conditioning(
    prompt: Option<String>,
    speaker: Option<String>,
    r: ConditioningSource<'_>,
)
    requires
        call_ensures(load_synthesis_conditioning, (&prompt, &speaker), r),
    ensures
        prompt matches Some(path) ==> r is VoiceClonePrompt && r->VoiceClonePrompt_0@ == path@,
        prompt is None && speaker is Some ==> r is SpeakerBin && r->SpeakerBin_0@ == speaker->0@,
        prompt is None && speaker is None ==> r is Absent,
{
}

/// Whether a text is what some flags with their values set a flag to last, where they set it.
pub open spec fn given_last(pairs: Seq<Pair>, flag: Seq<char>, text: Option<Seq<char>>) -> bool {
    forall|i: int|
        0 <= i < pairs.len() && (#[trigger] pairs[i]).0 == flag && !flag_comes_from(
            pairs,
            i + 1,
            flag,
        ) ==> text == Some(pairs[i].1)
}

/// The command that writes a speaker file holds every flag to the value that it comes with last. It
/// has to be told the prompt to read and the file to write, and nothing else.
pub proof fn lemma_speaker_flags_set_what_they_name(
    model_dir: String,
    args: Vec<String>,
    pairs: Seq<Pair>,
    r: Result<SpeakerBinArgs, String>,
)
    requires
        call_ensures(SpeakerBinArgs::parse, (model_dir, &args), r),
        words(args@) == spelled(pairs),
        forall|i: int|
            0 <= i < pairs.len() ==> {
                let flag = (#[trigger] pairs[i]).0;
                ||| flag == "--model-dir"@
                ||| flag == "--voice-clone-prompt"@
                ||| flag == "--out"@
                ||| flag == "--backend"@
                ||| flag == "--backend-fallback"@
                ||| flag == "--vocoder-ep"@
                ||| flag == "--vocoder-ep-fallback"@
            },
    ensures
        r is Ok <==> flag_comes_from(pairs, 0, "--out"@) && flag_comes_from(
            pairs,
            0,
            "--voice-clone-prompt"@,
        ),
        !flag_comes_from(pairs, 0, "--out"@) ==> r->Err_0@ == "--out is required"@,
        flag_comes_from(pairs, 0, "--out"@) && !flag_comes_from(pairs, 0, "--voice-clone-prompt"@)
            ==> r->Err_0@ == "--voice-clone-prompt is required"@,
        r matches Ok(a) ==> {
            &&& given_last(pairs, "--model-dir"@, Some(a.model_dir@))
            &&& given_last(pairs, "--voice-clone-prompt"@, Some(a.prompt_path@))
            &&& given_last(pairs, "--out"@, Some(a.out_path@))
            &&& given_last(pairs, "--backend"@, text_in(a.runtime_backends.backend))
            &&& given_last(
                pairs,
                "--backend-fallback"@,
                text_in(a.runtime_backends.backend_fallback),
            )
            &&& given_last(pairs, "--vocoder-ep"@, text_in(a.runtime_backends.vocoder_ep))
            &&& given_last(
                pairs,
                "--vocoder-ep-fallback"@,
                text_in(a.runtime_backends.vocoder_ep_fallback),
            )
            &&& !flag_comes_from(pairs, 0, "--model-dir"@) ==> a.model_dir@ == model_dir@
            &&& !flag_comes_from(pairs, 0, "--backend"@) ==> a.runtime_backends.backend is None
            &&& !flag_comes_from(pairs, 0, "--backend-fallback"@)
                ==> a.runtime_backends.backend_fallback is None
            &&& !flag_comes_from(pairs, 0, "--vocoder-ep"@)
                ==> a.runtime_backends.vocoder_ep is None
            &&& !flag_comes_from(pairs, 0, "--vocoder-ep-fallback"@)
                ==> a.runtime_backends.vocoder_ep_fallback is None
        },
{
    reveal_strlit("--model-dir");
    reveal_strlit("--voice-clone-prompt");
    reveal_strlit("--out");
    reveal_strlit("--backend");
    reveal_strlit("--backend-fallback");
    reveal_strlit("--vocoder-ep");
    reveal_strlit("--vocoder-ep-fallback");
    assert("--model-dir"@.len() == 11 && "--voice-clone-prompt"@.len() == 20 && "--out"@.len() == 5);
    assert("--backend"@.len() == 9 && "--backend-fallback"@.len() == 18 && "--vocoder-ep"@.len()
        == 12 && "--vocoder-ep-fallback"@.len() == 21);
    let m = ReadingModel::initial(model_dir@);
    assert(speaker_flags(pairs, 0));
    lemma_last_speaker_value_holds(m, pairs, 0);
    let made = crate::cli::speaker_bin::read_from(m, spelled(pairs), 0)->Ok_0;
    lemma_given_last(m, made, pairs, "--out"@);
    lemma_given_last(m, made, pairs, "--voice-clone-prompt"@);
    lemma_given_last(m, made, pairs, "--model-dir"@);
    lemma_given_last(m, made, pairs, "--backend"@);
    lemma_given_last(m, made, pairs, "--backend-fallback"@);
    lemma_given_last(m, made, pairs, "--vocoder-ep"@);
    lemma_given_last(m, made, pairs, "--vocoder-ep-fallback"@);
}

proof fn lemma_last_of_flag(pairs: Seq<Pair>, k: int, flag: Seq<char>) -> (i: int)
    requires
        0 <= k,
        flag_comes_from(pairs, k, flag),
    ensures
        k <= i < pairs.len(),
        pairs[i].0 == flag,
        !flag_comes_from(pairs, i + 1, flag),
    decreases pairs.len() - k,
{
    let i = choose|i: int| k <= i < pairs.len() && (#[trigger] pairs[i]).0 == flag;
    if flag_comes_from(pairs, i + 1, flag) {
        lemma_last_of_flag(pairs, i + 1, flag)
    } else {
        i
    }
}

proof fn lemma_given_last(m: ReadingModel, made: ReadingModel, pairs: Seq<Pair>, flag: Seq<char>)
    requires
        speaker_flags(pairs, 0),
        speaker_flag(flag),
        made.get(flag) == m.get(flag) || flag_comes_from(pairs, 0, flag),
        forall|i: int|
            0 <= i < pairs.len() && !flag_comes_from(pairs, i + 1, pairs[i].0) ==> made.get(
                (#[trigger] pairs[i]).0,
            ) == Some(pairs[i].1),
    ensures
        given_last(pairs, flag, made.get(flag)),
        !flag_comes_from(pairs, 0, flag) ==> made.get(flag) == m.get(flag),
        flag_comes_from(pairs, 0, flag) ==> made.get(flag) is Some,
{
    if flag_comes_from(pairs, 0, flag) {
        let i = lemma_last_of_flag(pairs, 0, flag);
        assert(made.get(pairs[i].0) == Some(pairs[i].1));
    }
}

/// The search for a backend goes by the choices of the backend and of what to fall back to, and
/// stands where it says.
pub proof fn lemma_choices_are_searched(
    choices: RuntimeBackendOverrides,
    target: BuildTarget,
    r: BackendSearch,
    same: BackendSearch,
    at: BackendChoice,
)
    requires
        call_ensures(RuntimeBackendOverrides::search, (&choices, target), r),
        call_ensures(
            BackendSearch::start,
            (target, &choices.backend, &choices.backend_fallback),
            same,
        ),
        call_ensures(BackendSearch::choice, (&r,), at),
    ensures
        r.model() == same.model(),
        at == r.model().choice,
{
}

/// The words from an index on are handed on as they are, and an unknown one is told by its command.
pub proof fn lemma_words_handed_on(
    args: Vec<String>,
    from: usize,
    rest: Vec<String>,
    command: &str,
    word: &str,
    message: String,
    named: bool,
)
    requires
        call_ensures(words_from, (&args, from), rest),
        from <= args@.len(),
        call_ensures(unknown_argument_text, (command, word), message),
        call_ensures(is_backend_word, (word,), named),
    ensures
        rest@.len() == args@.len() - from,
        forall|i: int| 0 <= i < rest@.len() ==> (#[trigger] rest@[i])@ == args@[from + i]@,
        message@ == "unknown "@ + command@ + " argument: "@ + word@,
        named <==> word@ == "cpu"@ || word@ == "metal"@ || word@ == "vulkan"@ || word@ == "all"@
            || word@ == "both"@,
{
    assert(words(rest@).len() == words(args@).skip(from as int).len());
    assert forall|i: int| 0 <= i < rest@.len() implies (#[trigger] rest@[i])@ == args@[from
        + i]@ by {
        assert(words(rest@)[i] == words(args@).skip(from as int)[i]);
    }
}

} // verus!
