//! The voice that a job is spoken with.

use vstd::prelude::*;
use crate::server::config::{ServerConfig, TalkerKvMode};
use crate::server::mode::FixedMode;
#[allow(unused_imports)]
use crate::server::mode::ModeModel;
use crate::server::speech::{
    build_request, validate_mode_request, JobPayload, JobSynthesis,
};
#[allow(unused_imports)]
use crate::server::speech::{
    comes_to, mode_is_fixed, read_kv_mode, request_fault, switches_mode,
};
use crate::text::{copy_text, is_blank, same_text};
#[allow(unused_imports)]
use crate::text::{blank, text_in};

verus! {

/// Where a cloned voice comes from.
#[derive(Debug)]
pub enum CloneSource {
    /// The recording that came with the request.
    Upload { ref_text: Option<String> },
    /// A prompt file.
    Prompt { path: String },
    /// A recording.
    Wav { path: String, ref_text: Option<String> },
}

/// The voice that a job is spoken with.
#[derive(Debug)]
pub enum Voice {
    Plain,
    Custom { speaker: String, instruct: Option<String> },
    Design(String),
    Clone(CloneSource),
}

/// What contracts say of a [`CloneSource`].
pub enum CloneSourceModel {
    Upload { ref_text: Option<Seq<char>> },
    Prompt { path: Seq<char> },
    Wav { path: Seq<char>, ref_text: Option<Seq<char>> },
}

/// What contracts say of a [`Voice`].
pub enum VoiceModel {
    Plain,
    Custom { speaker: Seq<char>, instruct: Option<Seq<char>> },
    Design(Seq<char>),
    Clone(CloneSourceModel),
}

impl View for CloneSource {
    type V = CloneSourceModel;

    open spec fn view(&self) -> CloneSourceModel {
        match self {
            CloneSource::Upload { ref_text } => CloneSourceModel::Upload {
                ref_text: text_in(*ref_text),
            },
            CloneSource::Prompt { path } => CloneSourceModel::Prompt { path: path@ },
            CloneSource::Wav { path, ref_text } => CloneSourceModel::Wav {
                path: path@,
                ref_text: text_in(*ref_text),
            },
        }
    }
}

impl View for Voice {
    type V = VoiceModel;

    open spec fn view(&self) -> VoiceModel {
        match self {
            Voice::Plain => VoiceModel::Plain,
            Voice::Custom { speaker, instruct } => VoiceModel::Custom {
                speaker: speaker@,
                instruct: text_in(*instruct),
            },
            Voice::Design(instruct) => VoiceModel::Design(instruct@),
            Voice::Clone(source) => VoiceModel::Clone(source@),
        }
    }
}

/// Where the cloned voice of a job comes from: the recording that came with the request, what the
/// request names, and what the server was started with, the prompt before the recording each.
pub open spec fn clone_source(mode: ModeModel, payload: JobPayload) -> Result<
    CloneSourceModel,
    Seq<char>,
> {
    let asked = match payload.request.qts_conditioning {
        Some(c) => match (text_in(c.prompt_path), text_in(c.wav_path)) {
            (Some(path), _) => Some(CloneSourceModel::Prompt { path }),
            (None, Some(path)) => Some(
                CloneSourceModel::Wav { path, ref_text: text_in(c.ref_text) },
            ),
            (None, None) => None,
        },
        None => None,
    };
    let fixed = match mode {
        ModeModel::Clone { prompt_path: Some(path), .. } => Some(CloneSourceModel::Prompt { path }),
        ModeModel::Clone { prompt_path: None, wav_path: Some(path), ref_text } => Some(
            CloneSourceModel::Wav { path, ref_text },
        ),
        _ => None,
    };
    if payload.upload_wav is Some {
        Ok(CloneSourceModel::Upload { ref_text: payload.request.spec_ref_text() })
    } else if asked is Some {
        Ok(asked->Some_0)
    } else if fixed is Some {
        Ok(fixed->Some_0)
    } else {
        Err(
            "clone mode requires qts_conditioning.prompt_path, qts_conditioning.wav_path, multipart ref_wav, or startup clone source"@,
        )
    }
}

/// Where the cloned voice of a job comes from.
pub fn resolve_clone_prompt(mode: &FixedMode, payload: &JobPayload) -> (r: Result<
    CloneSource,
    String,
>)
    ensures
        match r {
            Ok(source) => clone_source(mode@, *payload) == Ok::<_, Seq<char>>(source@),
            Err(message) => clone_source(mode@, *payload) == Err::<CloneSourceModel, _>(message@),
        },
{
    if payload.upload_wav.is_some() {
        return Ok(CloneSource::Upload { ref_text: payload.request.ref_text() });
    }
    match &payload.request.qts_conditioning {
        Some(conditioning) => {
            match &conditioning.prompt_path {
                Some(path) => {
                    return Ok(CloneSource::Prompt { path: path.clone() });
                },
                None => {},
            }
            match &conditioning.wav_path {
                Some(path) => {
                    return Ok(
                        CloneSource::Wav {
                            path: path.clone(),
                            ref_text: copy_text(&conditioning.ref_text),
                        },
                    );
                },
                None => {},
            }
        },
        None => {},
    }
    match mode {
        FixedMode::Clone { prompt_path, wav_path, ref_text } => {
            match prompt_path {
                Some(path) => {
                    return Ok(CloneSource::Prompt { path: path.clone() });
                },
                None => {},
            }
            match wav_path {
                Some(path) => {
                    return Ok(
                        CloneSource::Wav { path: path.clone(), ref_text: copy_text(ref_text) },
                    );
                },
                None => {},
            }
        },
        _ => {},
    }
    Err(
        "clone mode requires qts_conditioning.prompt_path, qts_conditioning.wav_path, multipart ref_wav, or startup clone source".to_string(),
    )
}

/// The reference text that a voice is cloned with, where it is more than whitespace.
pub open spec fn effective_ref_text(ref_text: Option<Seq<char>>) -> Option<Seq<char>> {
    match ref_text {
        Some(text) => if blank(text) {
            None
        } else {
            Some(text)
        },
        None => None,
    }
}

/// The reference text to clone a voice with in continuation of its recording. Where there is
/// none, the voice is cloned from the recording alone.
pub fn clone_prompt_from_bytes(ref_text: &Option<String>) -> (r: Option<String>)
    ensures
        text_in(r) == effective_ref_text(text_in(*ref_text)),
{
    match ref_text {
        Some(text) => if is_blank(text.as_str()) {
            None
        } else {
            Some(text.clone())
        },
        None => None,
    }
}

/// What is said of a request for another speaker.
pub open spec fn speaker_is_fixed(speaker: Seq<char>, asked: Seq<char>) -> Seq<char> {
    "server is fixed to custom speaker '"@ + speaker + "', request speaker '"@ + asked
        + "' is not allowed"@
}

/// The voice that a job is spoken with, or what is said of its request.
pub open spec fn voice_for(mode: ModeModel, payload: JobPayload) -> Result<VoiceModel, Seq<char>> {
    let request = payload.request;
    if switches_mode(mode.spec_name(), request) {
        Err(mode_is_fixed(mode.spec_name(), request.spec_kind()->Some_0))
    } else {
        match mode {
            ModeModel::Plain => Ok(VoiceModel::Plain),
            ModeModel::Custom { speaker, instruct } => match request.spec_speaker() {
                Some(asked) if asked != speaker => Err(speaker_is_fixed(speaker, asked)),
                _ => Ok(VoiceModel::Custom { speaker, instruct: request.spec_instruct(instruct) }),
            },
            ModeModel::Design { instruct } => match request.spec_instruct(instruct) {
                Some(instruct) => Ok(VoiceModel::Design(instruct)),
                None => Err(
                    "design mode requires `instructions`, `qts_conditioning.instruct`, or startup --instruct"@,
                ),
            },
            ModeModel::Clone { .. } => match clone_source(mode, payload) {
                Ok(source) => Ok(VoiceModel::Clone(source)),
                Err(message) => Err(message),
            },
        }
    }
}

/// The voice that a job is spoken with.
pub fn voice_of(mode: &FixedMode, payload: &JobPayload) -> (r: Result<Voice, String>)
    ensures
        match r {
            Ok(voice) => voice_for(mode@, *payload) == Ok::<_, Seq<char>>(voice@),
            Err(message) => voice_for(mode@, *payload) == Err::<VoiceModel, _>(message@),
        },
{
    match validate_mode_request(mode.name(), &payload.request) {
        Ok(_) => {},
        Err(message) => {
            return Err(message);
        },
    }
    match mode {
        FixedMode::Plain => Ok(Voice::Plain),
        FixedMode::Custom { speaker, instruct } => {
            match payload.request.speaker() {
                Some(asked) => {
                    if !same_text(asked.as_str(), speaker.as_str()) {
                        let mut message = "server is fixed to custom speaker '".to_string();
                        message.append(speaker.as_str());
                        message.append("', request speaker '");
                        message.append(asked.as_str());
                        message.append("' is not allowed");
                        return Err(message);
                    }
                },
                None => {},
            }
            Ok(
                Voice::Custom {
                    speaker: speaker.clone(),
                    instruct: payload.request.instruct(instruct),
                },
            )
        },
        FixedMode::Design { instruct } => match payload.request.instruct(instruct) {
            Some(instruct) => Ok(Voice::Design(instruct)),
            None => Err(
                "design mode requires `instructions`, `qts_conditioning.instruct`, or startup --instruct".to_string(),
            ),
        },
        FixedMode::Clone { .. } => match resolve_clone_prompt(mode, payload) {
            Ok(source) => Ok(Voice::Clone(source)),
            Err(message) => Err(message),
        },
    }
}

/// A request never switches the mode: where a job has a voice, it is one of the server's mode.
pub proof fn lemma_mode_stays_fixed(mode: ModeModel, payload: JobPayload)
    requires
        voice_for(mode, payload) is Ok,
    ensures
        match (mode, voice_for(mode, payload)->Ok_0) {
            (ModeModel::Plain, VoiceModel::Plain) => true,
            (
                ModeModel::Custom { speaker, .. },
                VoiceModel::Custom { speaker: spoken, .. },
            ) => spoken == speaker,
            (ModeModel::Design { .. }, VoiceModel::Design(_)) => true,
            (ModeModel::Clone { .. }, VoiceModel::Clone(_)) => true,
            _ => false,
        },
        payload.request.spec_kind() matches Some(kind) ==> kind == mode.spec_name(),
{
}

/// A server started with a prompt or a recording to clone has a voice for every job that does not
/// name another mode.
pub proof fn lemma_clone_server_has_voice(
    prompt_path: Option<Seq<char>>,
    wav_path: Option<Seq<char>>,
    ref_text: Option<Seq<char>>,
    payload: JobPayload,
)
    requires
        prompt_path is Some || wav_path is Some,
        !switches_mode("clone"@, payload.request),
    ensures
        voice_for(ModeModel::Clone { prompt_path, wav_path, ref_text }, payload) is Ok,
{
}

/// What a job comes to: its synthesis, and the voice that it is spoken with. A fault of the
/// request comes before one of its conditioning.
pub fn synthesize_job(
    config: &ServerConfig,
    payload: &JobPayload,
    kv_mode: Option<Result<TalkerKvMode, String>>,
) -> (r: Result<(JobSynthesis, Voice), String>)
    requires
        kv_mode is Some <==> payload.request.talker_kv_mode is Some,
    ensures
        match request_fault(payload.request, read_kv_mode(kv_mode)) {
            Some(fault) => r matches Err(message) && message@ == fault,
            None => match voice_for(config.mode@, *payload) {
                Ok(voice) => {
                    &&& r is Ok
                    &&& r->Ok_0.1@ == voice
                    &&& comes_to(
                        r->Ok_0.0,
                        config.request_defaults,
                        payload.request,
                        read_kv_mode(kv_mode),
                    )
                },
                Err(fault) => r matches Err(message) && message@ == fault,
            },
        },
{
    let synthesis = match build_request(&config.request_defaults, &payload.request, kv_mode) {
        Ok(synthesis) => synthesis,
        Err(message) => {
            return Err(message);
        },
    };
    match voice_of(&config.mode, payload) {
        Ok(voice) => Ok((synthesis, voice)),
        Err(message) => Err(message),
    }
}

} // verus!
