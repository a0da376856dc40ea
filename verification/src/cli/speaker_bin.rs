//! The arguments of the command that writes a prompt's speaker to a file.

use vstd::prelude::*;
use crate::cli::args::{value_arg, RuntimeBackendOverrides};
#[allow(unused_imports)]
use crate::cli::args::{backend_flag, missing_value, spelled, words, OverridesModel, Pair};
use crate::text::same_text;
#[allow(unused_imports)]
use crate::text::text_in;

verus! {

/// What the arguments read so far say.
struct Reading {
    model_dir: String,
    prompt_path: Option<String>,
    out_path: Option<String>,
    runtime_backends: RuntimeBackendOverrides,
}

/// What contracts say of the arguments read so far.
pub struct ReadingModel {
    pub model_dir: Seq<char>,
    pub prompt_path: Option<Seq<char>>,
    pub out_path: Option<Seq<char>>,
    pub runtime_backends: OverridesModel,
}

impl View for Reading {
    type V = ReadingModel;

    closed spec fn view(&self) -> ReadingModel {
        ReadingModel {
            model_dir: self.model_dir@,
            prompt_path: text_in(self.prompt_path),
            out_path: text_in(self.out_path),
            runtime_backends: self.runtime_backends@,
        }
    }
}

/// Whether a word is a flag of the command. All of them take values.
pub open spec fn speaker_flag(word: Seq<char>) -> bool {
    backend_flag(word) || word == "--model-dir"@ || word == "--voice-clone-prompt"@ || word
        == "--out"@
}

impl ReadingModel {
    /// What is said before any argument has been read.
    pub open spec fn initial(model_dir: Seq<char>) -> ReadingModel {
        ReadingModel {
            model_dir,
            prompt_path: None,
            out_path: None,
            runtime_backends: OverridesModel::unset(),
        }
    }

    /// What is said once a flag has been read.
    pub open spec fn with(self, flag: Seq<char>, value: Seq<char>) -> ReadingModel {
        if backend_flag(flag) {
            ReadingModel { runtime_backends: self.runtime_backends.with(flag, value), ..self }
        } else if flag == "--model-dir"@ {
            ReadingModel { model_dir: value, ..self }
        } else if flag == "--voice-clone-prompt"@ {
            ReadingModel { prompt_path: Some(value), ..self }
        } else {
            ReadingModel { out_path: Some(value), ..self }
        }
    }

    /// The value that a flag has, if any.
    pub open spec fn get(self, flag: Seq<char>) -> Option<Seq<char>> {
        if backend_flag(flag) {
            self.runtime_backends.get(flag)
        } else if flag == "--model-dir"@ {
            Some(self.model_dir)
        } else if flag == "--voice-clone-prompt"@ {
            self.prompt_path
        } else {
            self.out_path
        }
    }
}

/// What the arguments from `idx` on add to those read so far, or what is said of them.
pub open spec fn read_from(m: ReadingModel, args: Seq<Seq<char>>, idx: int) -> Result<
    ReadingModel,
    Seq<char>,
>
    decreases args.len() - idx,
{
    if idx >= args.len() {
        Ok(m)
    } else if !speaker_flag(args[idx]) {
        Err("unknown speaker-bin argument: "@ + args[idx])
    } else if idx + 1 >= args.len() {
        Err(missing_value(args[idx]))
    } else {
        read_from(m.with(args[idx], args[idx + 1]), args, idx + 2)
    }
}

/// What the arguments of the command say, or what is said of them: a prompt and a file to write to
/// have to be named.
pub open spec fn speaker_args(model_dir: Seq<char>, args: Seq<Seq<char>>) -> Result<
    ReadingModel,
    Seq<char>,
> {
    match read_from(ReadingModel::initial(model_dir), args, 0) {
        Ok(m) => if m.out_path is None {
            Err("--out is required"@)
        } else if m.prompt_path is None {
            Err("--voice-clone-prompt is required"@)
        } else {
            Ok(m)
        },
        Err(fault) => Err(fault),
    }
}

/// Whether a flag comes from index `k` on.
pub open spec fn flag_comes_from(pairs: Seq<Pair>, k: int, flag: Seq<char>) -> bool {
    exists|i: int| k <= i < pairs.len() && (#[trigger] pairs[i]).0 == flag
}

/// Whether all words that stand in for flags are flags of the command.
pub open spec fn speaker_flags(pairs: Seq<Pair>, k: int) -> bool {
    forall|i: int| k <= i < pairs.len() ==> speaker_flag((#[trigger] pairs[i]).0)
}

/// Flags with values are all taken up: each flag has the value that it comes with last, and where it
/// does not come, the value that it had.
pub proof fn lemma_last_speaker_value_holds(m: ReadingModel, pairs: Seq<Pair>, k: int)
    requires
        0 <= k <= pairs.len(),
        speaker_flags(pairs, k),
    ensures
        read_from(m, spelled(pairs), 2 * k) matches Ok(made) && {
            &&& forall|flag: Seq<char>|
                speaker_flag(flag) && !flag_comes_from(pairs, k, flag) ==> #[trigger] made.get(flag)
                    == m.get(flag)
            &&& forall|i: int|
                k <= i < pairs.len() && !flag_comes_from(pairs, i + 1, pairs[i].0) ==> made.get(
                    (#[trigger] pairs[i]).0,
                ) == Some(pairs[i].1)
        },
    decreases pairs.len() - k,
{
    let args = spelled(pairs);
    if k < pairs.len() {
        let (word, value) = pairs[k];
        assert(speaker_flag(pairs[k].0));
        assert(args[2 * k] == word);
        assert(args[2 * k + 1] == value);
        let next = m.with(word, value);
        lemma_last_speaker_value_holds(next, pairs, k + 1);
        assert(read_from(m, args, 2 * k) == read_from(next, args, 2 * (k + 1)));
        let made = read_from(next, args, 2 * (k + 1))->Ok_0;
        assert forall|flag: Seq<char>|
            speaker_flag(flag) && !flag_comes_from(pairs, k, flag) implies #[trigger] made.get(flag)
            == m.get(flag) by {
            assert(pairs[k].0 != flag);
            assert(!flag_comes_from(pairs, k + 1, flag));
        }
        assert forall|i: int|
            k <= i < pairs.len() && !flag_comes_from(pairs, i + 1, pairs[i].0) implies made.get(
            (#[trigger] pairs[i]).0,
        ) == Some(pairs[i].1) by {
            if i == k {
                assert(made.get(word) == next.get(word));
            }
        }
    }
}

/// A word that is no flag of the command is refused behind flags with values, and so is a flag
/// without one.
pub proof fn lemma_speaker_word_is_refused(
    m: ReadingModel,
    pairs: Seq<Pair>,
    k: int,
    word: Seq<char>,
    rest: Seq<Seq<char>>,
)
    requires
        0 <= k <= pairs.len(),
        speaker_flags(pairs, k),
        speaker_flag(word) ==> rest.len() == 0,
    ensures
        read_from(m, spelled(pairs) + seq![word] + rest, 2 * k) == Err::<ReadingModel, _>(
            if speaker_flag(word) {
                missing_value(word)
            } else {
                "unknown speaker-bin argument: "@ + word
            },
        ),
    decreases pairs.len() - k,
{
    let args = spelled(pairs) + seq![word] + rest;
    if k < pairs.len() {
        assert(speaker_flag(pairs[k].0));
        assert(args[2 * k] == pairs[k].0);
        assert(args[2 * k + 1] == pairs[k].1);
        let next = m.with(pairs[k].0, pairs[k].1);
        lemma_speaker_word_is_refused(next, pairs, k + 1, word, rest);
        assert(read_from(m, args, 2 * k) == read_from(next, args, 2 * (k + 1)));
    } else {
        assert(args[2 * k] == word);
    }
}

/// The command is refused without a file to write to, and without a prompt.
pub proof fn lemma_speaker_files_are_required(model_dir: Seq<char>, pairs: Seq<Pair>)
    requires
        speaker_flags(pairs, 0),
    ensures
        !flag_comes_from(pairs, 0, "--out"@) ==> speaker_args(model_dir, spelled(pairs)) == Err::<
            ReadingModel,
            _,
        >("--out is required"@),
        flag_comes_from(pairs, 0, "--out"@) && !flag_comes_from(pairs, 0, "--voice-clone-prompt"@)
            ==> speaker_args(model_dir, spelled(pairs)) == Err::<ReadingModel, _>(
            "--voice-clone-prompt is required"@,
        ),
        flag_comes_from(pairs, 0, "--out"@) && flag_comes_from(pairs, 0, "--voice-clone-prompt"@)
            ==> speaker_args(model_dir, spelled(pairs)) is Ok,
{
    lemma_last_speaker_value_holds(ReadingModel::initial(model_dir), pairs, 0);
    lemma_path_flags_are_apart();
    let start = ReadingModel::initial(model_dir);
    let made = read_from(start, spelled(pairs), 0)->Ok_0;
    assert(made.get("--out"@) == made.out_path);
    assert(made.get("--voice-clone-prompt"@) == made.prompt_path);
    assert(start.get("--out"@) is None && start.get("--voice-clone-prompt"@) is None);
    if flag_comes_from(pairs, 0, "--out"@) {
        lemma_flag_comes_last(pairs, 0, "--out"@);
    }
    if flag_comes_from(pairs, 0, "--voice-clone-prompt"@) {
        lemma_flag_comes_last(pairs, 0, "--voice-clone-prompt"@);
    }
}

/// A flag that comes has an index at which it comes last.
proof fn lemma_flag_comes_last(pairs: Seq<Pair>, k: int, flag: Seq<char>) -> (last: int)
    requires
        flag_comes_from(pairs, k, flag),
    ensures
        k <= last < pairs.len(),
        pairs[last].0 == flag,
        !flag_comes_from(pairs, last + 1, flag),
    decreases pairs.len() - k,
{
    let i = choose|i: int| k <= i < pairs.len() && (#[trigger] pairs[i]).0 == flag;
    if flag_comes_from(pairs, i + 1, flag) {
        lemma_flag_comes_last(pairs, i + 1, flag)
    } else {
        i
    }
}

/// The flags that name files are told apart from the others.
proof fn lemma_path_flags_are_apart()
    ensures
        !backend_flag("--out"@),
        !backend_flag("--voice-clone-prompt"@),
        "--out"@ != "--model-dir"@,
        "--out"@ != "--voice-clone-prompt"@,
        "--voice-clone-prompt"@ != "--model-dir"@,
{
    reveal_strlit("--out");
    reveal_strlit("--model-dir");
    reveal_strlit("--voice-clone-prompt");
    reveal_strlit("--backend");
    reveal_strlit("--backend-fallback");
    reveal_strlit("--vocoder-ep");
    reveal_strlit("--vocoder-ep-fallback");
    assert("--out"@.len() == 5 && "--model-dir"@.len() == 11 && "--voice-clone-prompt"@.len() == 20);
    assert("--backend"@.len() == 9 && "--backend-fallback"@.len() == 18);
    assert("--vocoder-ep"@.len() == 12 && "--vocoder-ep-fallback"@.len() == 21);
}

/// The arguments of the command.
#[derive(Debug)]
pub struct SpeakerBinArgs {
    pub model_dir: String,
    pub prompt_path: String,
    pub out_path: String,
    pub runtime_backends: RuntimeBackendOverrides,
}

impl SpeakerBinArgs {
    /// Whether these are the arguments that a reading comes to.
    pub open spec fn says(&self, m: ReadingModel) -> bool {
        &&& self.model_dir@ == m.model_dir
        &&& m.prompt_path == Some(self.prompt_path@)
        &&& m.out_path == Some(self.out_path@)
        &&& self.runtime_backends@ == m.runtime_backends
    }

    /// Reads the arguments. `model_dir` is where the model is if none of them says otherwise.
    pub fn parse(model_dir: String, args: &Vec<String>) -> (r: Result<SpeakerBinArgs, String>)
        ensures
            match r {
                Ok(parsed) => speaker_args(model_dir@, words(args@)) matches Ok(m) && parsed.says(m),
                Err(message) => speaker_args(model_dir@, words(args@)) == Err::<ReadingModel, _>(
                    message@,
                ),
            },
    {
        let mut reading = Reading {
            model_dir,
            prompt_path: None,
            out_path: None,
            runtime_backends: RuntimeBackendOverrides::default(),
        };
        let ghost all = read_from(reading@, words(args@), 0);
        let mut idx: usize = 0;
        while idx < args.len()
            invariant
                idx <= args@.len(),
                all == read_from(reading@, words(args@), idx as int),
                all == read_from(ReadingModel::initial(model_dir@), words(args@), 0),
            decreases args@.len() - idx,
        {
            assert(words(args@)[idx as int] == args@[idx as int]@);
            assert(idx + 1 < args@.len() ==> words(args@)[idx + 1] == args@[idx + 1]@);
            match reading.runtime_backends.parse_flag(args, &mut idx) {
                Err(message) => {
                    return Err(message);
                },
                Ok(true) => {
                    continue;
                },
                Ok(false) => {},
            }
            let word = args[idx].clone();
            if same_text(word.as_str(), "--model-dir") {
                match value_arg(args, &mut idx, word.as_str()) {
                    Ok(value) => {
                        reading.model_dir = value;
                    },
                    Err(message) => {
                        return Err(message);
                    },
                }
            } else if same_text(word.as_str(), "--voice-clone-prompt") {
                match value_arg(args, &mut idx, word.as_str()) {
                    Ok(value) => {
                        reading.prompt_path = Some(value);
                    },
                    Err(message) => {
                        return Err(message);
                    },
                }
            } else if same_text(word.as_str(), "--out") {
                match value_arg(args, &mut idx, word.as_str()) {
                    Ok(value) => {
                        reading.out_path = Some(value);
                    },
                    Err(message) => {
                        return Err(message);
                    },
                }
            } else {
                let mut message = "unknown speaker-bin argument: ".to_string();
                message.append(word.as_str());
                return Err(message);
            }
        }
        let out_path = match reading.out_path {
            Some(path) => path,
            None => {
                return Err("--out is required".to_string());
            },
        };
        let prompt_path = match reading.prompt_path {
            Some(path) => path,
            None => {
                return Err("--voice-clone-prompt is required".to_string());
            },
        };
        Ok(
            SpeakerBinArgs {
                model_dir: reading.model_dir,
                prompt_path,
                out_path,
                runtime_backends: reading.runtime_backends,
            },
        )
    }
}

} // verus!
