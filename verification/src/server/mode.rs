//! The conditioning mode, which a server is started with and keeps.

use vstd::prelude::*;
use crate::text::{copy_text, same_text, to_ascii_lowercase, trim};
#[allow(unused_imports)]
use crate::text::{lowered, text_in, trimmed};

verus! {

/// What the audio of a server is conditioned on.
#[derive(Debug)]
pub enum FixedMode {
    /// Nothing but the text.
    Plain,
    /// A speaker of the model.
    Custom { speaker: String, instruct: Option<String> },
    /// A described voice.
    Design { instruct: Option<String> },
    /// A cloned voice, from a prompt or a recording.
    Clone {
        prompt_path: Option<String>,
        wav_path: Option<String>,
        ref_text: Option<String>,
    },
}

/// What contracts say of a [`FixedMode`].
pub enum ModeModel {
    Plain,
    Custom { speaker: Seq<char>, instruct: Option<Seq<char>> },
    Design { instruct: Option<Seq<char>> },
    Clone {
        prompt_path: Option<Seq<char>>,
        wav_path: Option<Seq<char>>,
        ref_text: Option<Seq<char>>,
    },
}

impl View for FixedMode {
    type V = ModeModel;

    open spec fn view(&self) -> ModeModel {
        match self {
            FixedMode::Plain => ModeModel::Plain,
            FixedMode::Custom { speaker, instruct } => ModeModel::Custom {
                speaker: speaker@,
                instruct: text_in(*instruct),
            },
            FixedMode::Design { instruct } => ModeModel::Design { instruct: text_in(*instruct) },
            FixedMode::Clone { prompt_path, wav_path, ref_text } => ModeModel::Clone {
                prompt_path: text_in(*prompt_path),
                wav_path: text_in(*wav_path),
                ref_text: text_in(*ref_text),
            },
        }
    }
}

/// The start-up arguments that choose a mode.
#[derive(Debug)]
pub struct ModeArgs {
    pub mode: Option<String>,
    pub speaker: Option<String>,
    pub instruct: Option<String>,
    pub voice_clone_prompt: Option<String>,
    pub voice_clone_wav: Option<String>,
    pub voice_clone_ref_text: Option<String>,
}

/// What contracts say of [`ModeArgs`].
pub struct ModeArgsModel {
    pub mode: Option<Seq<char>>,
    pub speaker: Option<Seq<char>>,
    pub instruct: Option<Seq<char>>,
    pub voice_clone_prompt: Option<Seq<char>>,
    pub voice_clone_wav: Option<Seq<char>>,
    pub voice_clone_ref_text: Option<Seq<char>>,
}

impl View for ModeArgs {
    type V = ModeArgsModel;

    open spec fn view(&self) -> ModeArgsModel {
        ModeArgsModel {
            mode: text_in(self.mode),
            speaker: text_in(self.speaker),
            instruct: text_in(self.instruct),
            voice_clone_prompt: text_in(self.voice_clone_prompt),
            voice_clone_wav: text_in(self.voice_clone_wav),
            voice_clone_ref_text: text_in(self.voice_clone_ref_text),
        }
    }
}

impl Default for ModeArgs {
    fn default() -> (r: ModeArgs)
        ensures
            r@ == (ModeArgsModel {
                mode: None,
                speaker: None,
                instruct: None,
                voice_clone_prompt: None,
                voice_clone_wav: None,
                voice_clone_ref_text: None,
            }),
    {
        ModeArgs {
            mode: None,
            speaker: None,
            instruct: None,
            voice_clone_prompt: None,
            voice_clone_wav: None,
            voice_clone_ref_text: None,
        }
    }
}

/// The mode that start-up arguments choose under a name, or what is said of them. Case and
/// surrounding whitespace of the name do not matter.
pub open spec fn mode_named(value: Seq<char>, args: ModeArgsModel) -> Result<ModeModel, Seq<char>> {
    let name = lowered(trimmed(value));
    if name == "none"@ {
        Ok(ModeModel::Plain)
    } else if name == "custom"@ {
        match args.speaker {
            Some(speaker) => Ok(ModeModel::Custom { speaker, instruct: args.instruct }),
            None => Err("--speaker is required when --mode custom"@),
        }
    } else if name == "design"@ {
        Ok(ModeModel::Design { instruct: args.instruct })
    } else if name == "clone"@ {
        Ok(
            ModeModel::Clone {
                prompt_path: args.voice_clone_prompt,
                wav_path: args.voice_clone_wav,
                ref_text: args.voice_clone_ref_text,
            },
        )
    } else {
        Err("unknown --mode "@ + name + "; expected none, custom, design, clone"@)
    }
}

impl ModeModel {
    /// The mode's name.
    pub open spec fn spec_name(self) -> Seq<char> {
        match self {
            ModeModel::Plain => "none"@,
            ModeModel::Custom { .. } => "custom"@,
            ModeModel::Design { .. } => "design"@,
            ModeModel::Clone { .. } => "clone"@,
        }
    }
}

impl FixedMode {
    /// The mode that start-up arguments choose under a name.
    pub fn parse(value: &str, args: &ModeArgs) -> (r: Result<FixedMode, String>)
        ensures
            match r {
                Ok(mode) => mode_named(value@, args@) == Ok::<_, Seq<char>>(mode@),
                Err(message) => mode_named(value@, args@) == Err::<ModeModel, _>(message@),
            },
    {
        let name = to_ascii_lowercase(trim(value).as_str());
        if same_text(name.as_str(), "none") {
            Ok(FixedMode::Plain)
        } else if same_text(name.as_str(), "custom") {
            match &args.speaker {
                Some(speaker) => Ok(
                    FixedMode::Custom {
                        speaker: speaker.clone(),
                        instruct: copy_text(&args.instruct),
                    },
                ),
                None => Err("--speaker is required when --mode custom".to_string()),
            }
        } else if same_text(name.as_str(), "design") {
            Ok(FixedMode::Design { instruct: copy_text(&args.instruct) })
        } else if same_text(name.as_str(), "clone") {
            Ok(
                FixedMode::Clone {
                    prompt_path: copy_text(&args.voice_clone_prompt),
                    wav_path: copy_text(&args.voice_clone_wav),
                    ref_text: copy_text(&args.voice_clone_ref_text),
                },
            )
        } else {
            let mut message = "unknown --mode ".to_string();
            message.append(name.as_str());
            message.append("; expected none, custom, design, clone");
            Err(message)
        }
    }

    /// The mode's name.
    pub fn name(&self) -> (r: &'static str)
        ensures
            r@ == self@.spec_name(),
    {
        match self {
            FixedMode::Plain => "none",
            FixedMode::Custom { .. } => "custom",
            FixedMode::Design { .. } => "design",
            FixedMode::Clone { .. } => "clone",
        }
    }
}

/// A mode is named as it was chosen, but for case and surrounding whitespace.
pub proof fn lemma_name_of_parsed(value: Seq<char>, args: ModeArgsModel)
    requires
        mode_named(value, args) is Ok,
    ensures
        mode_named(value, args)->Ok_0.spec_name() == lowered(trimmed(value)),
{
}

} // verus!
