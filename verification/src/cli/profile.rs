//! The arguments and the summary of the command that times syntheses, and where the conditioning
//! of a synthesis is read from.

use vstd::prelude::*;
use crate::cli::args::value_arg;
#[allow(unused_imports)]
use crate::cli::args::{missing_value, words};
use crate::text::{decimal_text, parse_unsigned, same_text};
#[allow(unused_imports)]
use crate::text::{decimal, unsigned_value};

verus! {

/// Whether some words ask for help.
pub open spec fn asks_help(args: Seq<Seq<char>>) -> bool {
    exists|i: int| 0 <= i < args.len() && (#[trigger] args[i] == "--help"@ || args[i] == "-h"@)
}

/// Whether some arguments ask for help.
pub fn wants_help(args: &Vec<String>) -> (r: bool)
    ensures
        r == asks_help(words(args@)),
{
    let mut i: usize = 0;
    while i < args.len()
        invariant
            i <= args@.len(),
            forall|k: int|
                0 <= k < i ==> #[trigger] words(args@)[k] != "--help"@ && words(args@)[k] != "-h"@,
        decreases args@.len() - i,
    {
        assert(words(args@)[i as int] == args@[i as int]@);
        if same_text(args[i].as_str(), "--help") || same_text(args[i].as_str(), "-h") {
            return true;
        }
        i = i + 1;
    }
    false
}

/// What is said of an argument that a command does not take.
pub open spec fn unknown_argument(command: Seq<char>, word: Seq<char>) -> Seq<char> {
    "unknown "@ + command + " argument: "@ + word
}

/// What is said of an argument that a command does not take.
pub fn unknown_argument_text(command: &str, word: &str) -> (r: String)
    ensures
        r@ == unknown_argument(command@, word@),
{
    let mut message = "unknown ".to_string();
    message.append(command);
    message.append(" argument: ");
    message.append(word);
    message
}

/// The number of runs that the flag at an index asks for, or what is said of it.
pub open spec fn runs_at(args: Seq<Seq<char>>, idx: int) -> Result<nat, Seq<char>> {
    let word = args[idx];
    if word != "--runs"@ {
        Err(unknown_argument("profile"@, word))
    } else if idx + 1 >= args.len() {
        Err(missing_value(word))
    } else {
        match unsigned_value(args[idx + 1], usize::MAX as nat) {
            Some(n) => Ok(n),
            None => Err("invalid value for --runs: "@ + args[idx + 1]),
        }
    }
}

/// Reads the flag that is the timing command's own: how many runs to average over.
pub fn profile_flag(args: &Vec<String>, idx: &mut usize) -> (r: Result<usize, String>)
    requires
        *old(idx) < args.len(),
    ensures
        match r {
            Ok(runs) => runs_at(words(args@), *old(idx) as int) == Ok::<_, Seq<char>>(runs as nat)
                && *final(idx) == *old(idx) + 2,
            Err(message) => runs_at(words(args@), *old(idx) as int) == Err::<nat, _>(message@),
        },
{
    assert(words(args@)[*idx as int] == args@[*idx as int]@);
    assert(*idx + 1 < args@.len() ==> words(args@)[*idx + 1] == args@[*idx + 1]@);
    let word = args[*idx].clone();
    if !same_text(word.as_str(), "--runs") {
        return Err(unknown_argument_text("profile", word.as_str()));
    }
    let value = match value_arg(args, idx, word.as_str()) {
        Ok(value) => value,
        Err(message) => {
            return Err(message);
        },
    };
    match parse_unsigned(value.as_str(), usize::MAX as u64) {
        Some(n) => Ok(n as usize),
        None => {
            let mut message = "invalid value for --runs: ".to_string();
            message.append(value.as_str());
            Err(message)
        },
    }
}

/// Refuses to average over no runs.
pub fn check_runs(runs: usize) -> (r: Result<(), String>)
    ensures
        match r {
            Ok(_) => runs >= 1,
            Err(message) => runs == 0 && message@ == "--runs must be >= 1"@,
        },
{
    if runs == 0 {
        return Err("--runs must be >= 1".to_string());
    }
    Ok(())
}

/// What the command that times syntheses does next.
#[derive(Debug, Clone, Copy, PartialEq, Eq, Structural)]
pub enum ProfileStep {
    /// Another synthesis is run. Its audio is kept where it is the first.
    Run { keep: bool },
    /// The audio that was kept is written.
    Write,
    /// The summary is printed, and nothing is left to do.
    Summarise,
}

/// What is done once `done` of `runs` syntheses have been run: all of them come first, then the
/// audio of the first one is written, if it is to go to a file and has not been `written`, and the
/// summary comes last.
pub open spec fn step_of_profile(
    done: nat,
    runs: nat,
    has_out: bool,
    written: bool,
) -> ProfileStep {
    if done < runs {
        ProfileStep::Run { keep: done == 0 }
    } else if has_out && !written {
        ProfileStep::Write
    } else {
        ProfileStep::Summarise
    }
}

/// How many syntheses have been run after some steps, and whether audio has been written.
pub open spec fn profile_after(steps: nat, runs: nat, has_out: bool) -> (nat, bool)
    decreases steps,
{
    if steps == 0 {
        (0, false)
    } else {
        let (done, written) = profile_after((steps - 1) as nat, runs, has_out);
        match step_of_profile(done, runs, has_out, written) {
            ProfileStep::Run { .. } => (done + 1, written),
            ProfileStep::Write => (done, true),
            ProfileStep::Summarise => (done, written),
        }
    }
}

/// As many syntheses are run as there are runs, the audio of the first is the one that is kept, and
/// it is written once where it is to go to a file.
pub proof fn lemma_profile_goes_in_order(steps: nat, runs: nat, has_out: bool)
    ensures
        ({
            let (done, written) = profile_after(steps, runs, has_out);
            let step = step_of_profile(done, runs, has_out, written);
            &&& steps < runs ==> step == ProfileStep::Run { keep: steps == 0 }
            &&& steps == runs && has_out ==> step is Write
            &&& steps > runs || steps == runs && !has_out ==> step is Summarise
            &&& done == if steps < runs {
                steps
            } else {
                runs
            }
            &&& written == (has_out && steps > runs)
        }),
    decreases steps,
{
    if steps > 0 {
        lemma_profile_goes_in_order((steps - 1) as nat, runs, has_out);
    }
}

/// What is done once `done` of `runs` syntheses have been run.
pub fn profile_step(done: usize, runs: usize, has_out: bool, written: bool) -> (r: ProfileStep)
    ensures
        r == step_of_profile(done as nat, runs as nat, has_out, written),
{
    if done < runs {
        ProfileStep::Run { keep: done == 0 }
    } else if has_out && !written {
        ProfileStep::Write
    } else {
        ProfileStep::Summarise
    }
}

/// What is printed of timings: their table, and how many runs they were averaged over where it is
/// not one.
pub fn profile_summary(runs: usize, table: &str) -> (r: String)
    ensures
        r@ == (if runs == 1 {
            table@
        } else {
            "averaged over "@ + decimal(runs as nat) + " runs\n"@ + table@
        }),
{
    if runs == 1 {
        return table.to_string();
    }
    let mut summary = "averaged over ".to_string();
    summary.append(decimal_text(runs as u64).as_str());
    summary.append(" runs\n");
    summary.append(table);
    summary
}

/// Where the conditioning of a synthesis is read from.
#[derive(Debug)]
pub enum ConditioningSource<'a> {
    /// There is none.
    Absent,
    SpeakerBin(&'a String),
    VoiceClonePrompt(&'a String),
}

/// Where the conditioning of a synthesis is read from: a prompt goes before a speaker file.
pub fn load_synthesis_conditioning<'a>(
    voice_clone_prompt: &'a Option<String>,
    speaker_bin: &'a Option<String>,
) -> (r: ConditioningSource<'a>)
    ensures
        match (*voice_clone_prompt, *speaker_bin) {
            (Some(path), _) => r matches ConditioningSource::VoiceClonePrompt(p) && *p == path,
            (None, Some(path)) => r matches ConditioningSource::SpeakerBin(p) && *p == path,
            (None, None) => r is Absent,
        },
{
    match voice_clone_prompt {
        Some(path) => ConditioningSource::VoiceClonePrompt(path),
        None => match speaker_bin {
            Some(path) => ConditioningSource::SpeakerBin(path),
            None => ConditioningSource::Absent,
        },
    }
}

} // verus!
