//! Speech requests: what they may ask for, and the synthesis that they come to.

use vstd::prelude::*;
use crate::real32::Real32;
#[allow(unused_imports)]
use crate::real32::off_unit;
use crate::server::api_error::ApiError;
#[allow(unused_imports)]
use crate::server::api_error::ApiErrorModel;
use crate::server::config::{RequestDefaults, TalkerKvMode};
use crate::synthesis::request::SynthesizeRequest;
use crate::text::{copy_text, same_text};
#[allow(unused_imports)]
use crate::text::text_in;

verus! {

/// The conditioning that a request asks for.
#[derive(Debug)]
pub struct QtsConditioning {
    /// The mode that the request takes the server to be in.
    pub kind: Option<String>,
    pub speaker: Option<String>,
    pub instruct: Option<String>,
    pub prompt_path: Option<String>,
    pub wav_path: Option<String>,
    pub ref_text: Option<String>,
}

/// A request for speech.
#[derive(Debug)]
pub struct SpeechRequest {
    pub text: Option<String>,
    pub input: Option<String>,
    pub model: Option<String>,
    pub voice: Option<String>,
    pub instructions: Option<String>,
    pub response_format: Option<String>,
    pub speed: Option<Real32>,
    pub language_id: Option<i32>,
    pub frames: Option<usize>,
    pub temperature: Option<Real32>,
    pub top_k: Option<i32>,
    pub top_p: Option<Real32>,
    pub repetition_penalty: Option<Real32>,
    pub vocoder_threads: Option<usize>,
    pub chunk_size: Option<usize>,
    pub talker_kv_mode: Option<String>,
    pub qts_conditioning: Option<QtsConditioning>,
}

/// A request, and the recording that came with it.
#[derive(Debug)]
pub struct JobPayload {
    pub request: SpeechRequest,
    pub upload_wav: Option<Vec<u8>>,
}

impl SpeechRequest {
    /// The mode that the request takes the server to be in.
    pub open spec fn spec_kind(&self) -> Option<Seq<char>> {
        match self.qts_conditioning {
            Some(c) => text_in(c.kind),
            None => None,
        }
    }

    /// The speaker that the request asks for.
    pub open spec fn spec_speaker(&self) -> Option<Seq<char>> {
        match self.qts_conditioning {
            Some(c) => text_in(c.speaker),
            None => None,
        }
    }

    /// The reference text of the request.
    pub open spec fn spec_ref_text(&self) -> Option<Seq<char>> {
        match self.qts_conditioning {
            Some(c) => text_in(c.ref_text),
            None => None,
        }
    }

    /// The instruction for a request: its conditioning's before its own, and that one before the
    /// server's.
    pub open spec fn spec_instruct(&self, fallback: Option<Seq<char>>) -> Option<Seq<char>> {
        let own = match self.qts_conditioning {
            Some(c) => text_in(c.instruct),
            None => None,
        };
        if own is Some {
            own
        } else if self.instructions is Some {
            text_in(self.instructions)
        } else {
            fallback
        }
    }

    pub(crate) fn kind(&self) -> (r: Option<String>)
        ensures
            text_in(r) == self.spec_kind(),
    {
        match &self.qts_conditioning {
            Some(c) => copy_text(&c.kind),
            None => None,
        }
    }

    pub(crate) fn speaker(&self) -> (r: Option<String>)
        ensures
            text_in(r) == self.spec_speaker(),
    {
        match &self.qts_conditioning {
            Some(c) => copy_text(&c.speaker),
            None => None,
        }
    }

    pub(crate) fn ref_text(&self) -> (r: Option<String>)
        ensures
            text_in(r) == self.spec_ref_text(),
    {
        match &self.qts_conditioning {
            Some(c) => copy_text(&c.ref_text),
            None => None,
        }
    }

    pub(crate) fn instruct(&self, fallback: &Option<String>) -> (r: Option<String>)
        ensures
            text_in(r) == self.spec_instruct(text_in(*fallback)),
    {
        let own = match &self.qts_conditioning {
            Some(c) => copy_text(&c.instruct),
            None => None,
        };
        if own.is_some() {
            own
        } else if self.instructions.is_some() {
            copy_text(&self.instructions)
        } else {
            copy_text(fallback)
        }
    }

    /// Whether the request asks for a format that the server answers with.
    pub open spec fn answerable(&self) -> bool {
        self.response_format matches Some(format) ==> format@ == "wav"@ || format@ == "pcm"@
    }
}

/// Refuses a request for a format other than those that the server answers with.
pub fn validate_response_format(request: &SpeechRequest) -> (r: Result<(), ApiError>)
    ensures
        match r {
            Ok(_) => request.answerable(),
            Err(e) => !request.answerable() && e@ == ApiErrorModel::bad_request(
                "only response_format `wav` and `pcm` are accepted; this server currently returns WAV for both"@,
            ),
        },
{
    match &request.response_format {
        Some(format) => {
            if !same_text(format.as_str(), "wav") && !same_text(format.as_str(), "pcm") {
                return Err(
                    ApiError::bad_request(
                        "only response_format `wav` and `pcm` are accepted; this server currently returns WAV for both".to_string(),
                    ),
                );
            }
        },
        None => {},
    }
    Ok(())
}

/// Whether a request takes the server to be in another mode than the one it is in.
pub open spec fn switches_mode(fixed_mode: Seq<char>, request: SpeechRequest) -> bool {
    request.spec_kind() matches Some(kind) && kind != fixed_mode
}

/// What is said of a request that takes the server to be in another mode.
pub open spec fn mode_is_fixed(fixed_mode: Seq<char>, kind: Seq<char>) -> Seq<char> {
    "server mode is fixed to `"@ + fixed_mode + "`, request conditioning type `"@ + kind
        + "` is not allowed"@
}

/// Refuses a request that takes the server to be in another mode.
pub fn validate_mode_request(fixed_mode: &str, request: &SpeechRequest) -> (r: Result<(), String>)
    ensures
        match r {
            Ok(_) => !switches_mode(fixed_mode@, *request),
            Err(message) => switches_mode(fixed_mode@, *request) && message@ == mode_is_fixed(
                fixed_mode@,
                request.spec_kind()->Some_0,
            ),
        },
{
    match request.kind() {
        Some(kind) => {
            if !same_text(kind.as_str(), fixed_mode) {
                let mut message = "server mode is fixed to `".to_string();
                message.append(fixed_mode);
                message.append("`, request conditioning type `");
                message.append(kind.as_str());
                message.append("` is not allowed");
                return Err(message);
            }
        },
        None => {},
    }
    Ok(())
}

/// The synthesis that a request comes to.
#[derive(Debug)]
pub struct JobSynthesis {
    pub request: SynthesizeRequest,
    pub vocoder_thread_count: usize,
    pub talker_kv_mode: TalkerKvMode,
}

/// The value of an option, or another one.
pub open spec fn or_default<T>(given: Option<T>, default: T) -> T {
    match given {
        Some(value) => value,
        None => default,
    }
}

/// The text that a request asks to be spoken.
pub open spec fn spoken_text(request: SpeechRequest) -> Option<Seq<char>> {
    if request.text is Some {
        text_in(request.text)
    } else {
        text_in(request.input)
    }
}

/// What is wrong with a request, if anything. `kv_mode` is what the request's text for the
/// transformer's mode was read as, or why it could not be read.
pub open spec fn request_fault(
    request: SpeechRequest,
    kv_mode: Option<Result<TalkerKvMode, Seq<char>>>,
) -> Option<Seq<char>> {
    if spoken_text(request) is None {
        Some("`input` or `text` is required"@)
    } else if request.speed matches Some(speed) && off_unit(speed.bits) {
        Some("OpenAI `speed` is accepted only as 1.0 in this version"@)
    } else {
        match kv_mode {
            Some(Err(message)) => Some(message),
            _ => None,
        }
    }
}

/// What was read, with the text of why it could not be read.
pub open spec fn read_kv_mode(kv_mode: Option<Result<TalkerKvMode, String>>) -> Option<
    Result<TalkerKvMode, Seq<char>>,
> {
    match kv_mode {
        Some(Ok(mode)) => Some(Ok(mode)),
        Some(Err(message)) => Some(Err(message@)),
        None => None,
    }
}

/// Whether a synthesis is the one that a faultless request comes to: what the request does not
/// say is as the defaults have it.
pub open spec fn comes_to(
    job: JobSynthesis,
    defaults: RequestDefaults,
    request: SpeechRequest,
    kv_mode: Option<Result<TalkerKvMode, Seq<char>>>,
) -> bool {
    &&& spoken_text(request) == Some(job.request.text@)
    &&& job.request.reference_wav_bytes is None
    &&& job.request.temperature == or_default(request.temperature, defaults.temperature)
    &&& job.request.top_p == or_default(request.top_p, defaults.top_p)
    &&& job.request.top_k == or_default(request.top_k, defaults.top_k)
    &&& job.request.max_audio_frames == or_default(request.frames, defaults.max_audio_frames)
    &&& job.request.thread_count == defaults.thread_count
    &&& job.request.repetition_penalty == or_default(
        request.repetition_penalty,
        defaults.repetition_penalty,
    )
    &&& job.request.language_id == or_default(request.language_id, defaults.language_id)
    &&& job.request.vocoder_chunk_size == or_default(
        request.chunk_size,
        defaults.vocoder_chunk_size,
    )
    &&& job.vocoder_thread_count == or_default(
        request.vocoder_threads,
        defaults.vocoder_thread_count,
    )
    &&& job.talker_kv_mode == match kv_mode {
        Some(Ok(mode)) => mode,
        _ => defaults.talker_kv_mode,
    }
}

/// The synthesis that a request comes to. `kv_mode` is what the request's text for the
/// transformer's mode was read as, or why it could not be read; there is none where the request
/// has no such text.
pub fn build_request(
    defaults: &RequestDefaults,
    request: &SpeechRequest,
    kv_mode: Option<Result<TalkerKvMode, String>>,
) -> (r: Result<JobSynthesis, String>)
    requires
        kv_mode is Some <==> request.talker_kv_mode is Some,
    ensures
        match r {
            Ok(job) => {
                &&& request_fault(*request, read_kv_mode(kv_mode)) is None
                &&& comes_to(job, *defaults, *request, read_kv_mode(kv_mode))
            },
            Err(message) => request_fault(*request, read_kv_mode(kv_mode)) == Some(message@),
        },
{
    let text = if request.text.is_some() {
        copy_text(&request.text)
    } else {
        copy_text(&request.input)
    };
    let text = match text {
        Some(text) => text,
        None => {
            return Err("`input` or `text` is required".to_string());
        },
    };
    match request.speed {
        Some(speed) => {
            if speed.differs_from_one() {
                return Err("OpenAI `speed` is accepted only as 1.0 in this version".to_string());
            }
        },
        None => {},
    }
    let talker_kv_mode = match kv_mode {
        Some(Ok(mode)) => mode,
        Some(Err(message)) => {
            return Err(message);
        },
        None => defaults.talker_kv_mode,
    };
    Ok(
        JobSynthesis {
            request: SynthesizeRequest {
                text,
                reference_wav_bytes: None,
                temperature: request.temperature.unwrap_or(defaults.temperature),
                top_p: request.top_p.unwrap_or(defaults.top_p),
                top_k: request.top_k.unwrap_or(defaults.top_k),
                max_audio_frames: request.frames.unwrap_or(defaults.max_audio_frames),
                thread_count: defaults.thread_count,
                repetition_penalty: request.repetition_penalty.unwrap_or(
                    defaults.repetition_penalty,
                ),
                language_id: request.language_id.unwrap_or(defaults.language_id),
                vocoder_chunk_size: request.chunk_size.unwrap_or(defaults.vocoder_chunk_size),
            },
            vocoder_thread_count: request.vocoder_threads.unwrap_or(
                defaults.vocoder_thread_count,
            ),
            talker_kv_mode,
        },
    )
}

} // verus!
