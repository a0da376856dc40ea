//! What a server answers with.

use vstd::prelude::*;
#[allow(unused_imports)]
use crate::real32::Real32;
#[allow(unused_imports)]
use crate::server::api_error::{ApiError, ApiStatus};
#[allow(unused_imports)]
use crate::server::config::{RequestDefaults, ServerConfig, TalkerKvMode};
#[allow(unused_imports)]
use crate::server::http::{
    audio_response, create_job, handed_over, health, openai_speech, AudioHeaders, CreateJobResponse,
    FieldKind, HealthResponse, MultipartJob,
};
#[allow(unused_imports)]
use crate::server::job_promises::mode_word;
#[allow(unused_imports)]
use crate::server::jobs::{AudioPayload, JobStage, JobStatus};
#[allow(unused_imports)]
use crate::server::mode::{FixedMode, ModeArgs};
#[allow(unused_imports)]
use crate::server::promises::names_another;
#[allow(unused_imports)]
use crate::server::speech::{
    build_request, validate_mode_request, validate_response_format, JobPayload, JobSynthesis,
    SpeechRequest,
};
#[allow(unused_imports)]
use crate::server::store::JobStore;
#[allow(unused_imports)]
use crate::server::voice::clone_prompt_from_bytes;
#[allow(unused_imports)]
use crate::text::{decimal, lowered, text_in, trimmed, whitespace};

verus! {

/// A refusal carries its message, and is answered with the status code of its kind.
pub proof fn lemma_status_codes(message: String, e: ApiError, code: u16)
    requires
        call_ensures(ApiStatus::code, (e.status,), code),
    ensures
        call_ensures(ApiError::bad_request, (message,), e) ==> code == 400 && e.message@
            == message@,
        call_ensures(ApiError::not_found, (message,), e) ==> code == 404 && e.message@ == message@,
        call_ensures(ApiError::conflict, (message,), e) ==> code == 409 && e.message@ == message@,
        call_ensures(ApiError::internal, (message,), e) ==> code == 500 && e.message@ == message@,
{
}

/// The names by which a job's status and stage are told.
pub proof fn lemma_job_names(status: JobStatus, stage: JobStage, a: &'static str, b: &'static str)
    requires
        call_ensures(JobStatus::as_str, (status,), a),
        call_ensures(JobStage::as_str, (stage,), b),
    ensures
        status == JobStatus::Queued ==> a@ == "queued"@,
        status == JobStatus::Running ==> a@ == "running"@,
        status == JobStatus::Done ==> a@ == "done"@,
        status == JobStatus::Failed ==> a@ == "failed"@,
        stage == JobStage::Queued ==> b@ == "queued"@,
        stage == JobStage::Preparing ==> b@ == "preparing"@,
        stage == JobStage::Prefill ==> b@ == "prefill"@,
        stage == JobStage::Rollout ==> b@ == "rollout"@,
        stage == JobStage::Vocoder ==> b@ == "vocoder"@,
        stage == JobStage::Done ==> b@ == "done"@,
        stage == JobStage::Failed ==> b@ == "failed"@,
{
}

/// A healthy server says that it is, which mode it is in and where its model is, and counts the jobs
/// that are queued or running.
pub proof fn lemma_health(config: ServerConfig, jobs: JobStore, r: HealthResponse)
    requires
        call_ensures(health, (&config, &jobs), r),
    ensures
        r.status@ == "ok"@,
        r.mode@ == mode_word(config.mode),
        r.model_dir@ == config.model_dir@,
        r.queued_or_running_jobs == jobs@.dom().filter(
            |id: Seq<char>|
                jobs@[id].status == JobStatus::Queued || jobs@[id].status == JobStatus::Running,
        ).len(),
{
    assert(crate::server::store::pending_ids(jobs@) =~= jobs@.dom().filter(
        |id: Seq<char>|
            jobs@[id].status == JobStatus::Queued || jobs@[id].status == JobStatus::Running,
    ));
}

/// A queued job is answered with its id and with where to ask for it and for its audio.
pub proof fn lemma_created(job_id: String, r: CreateJobResponse)
    requires
        call_ensures(create_job, (job_id,), r),
    ensures
        r.job_id@ == job_id@,
        r.status@ == "queued"@,
        r.progress_url@ == "/v1/qts/audio/jobs/"@ + job_id@,
        r.audio_url@ == "/v1/qts/audio/jobs/"@ + job_id@ + "/audio"@,
{
}

/// A job that the worker takes is answered with its id. Without a worker the server is at fault.
pub proof fn lemma_handed_over(job_id: String, taken: bool, r: Result<String, ApiError>)
    requires
        call_ensures(handed_over, (job_id, taken), r),
    ensures
        taken ==> r is Ok && r->Ok_0@ == job_id@,
        !taken ==> r is Err && r->Err_0.status == ApiStatus::Internal && r->Err_0.message@
            == "server worker is not running"@,
{
}

/// Audio is answered as a WAVE file, with its sample rate and its number of frames.
pub proof fn lemma_audio_headers(audio: AudioPayload, r: AudioHeaders)
    requires
        call_ensures(audio_response, (&audio,), r),
    ensures
        r.content_type@ == "audio/wav"@,
        r.sample_rate@ == decimal(audio.sample_rate_hz as nat),
        r.generated_frames@ == decimal(audio.generated_frames as nat),
{
}

/// Whoever waits gets the audio, or the reason why there is none.
pub proof fn lemma_waited_for(
    job_id: &str,
    outcome: Option<Result<AudioPayload, String>>,
    r: Result<AudioPayload, ApiError>,
)
    requires
        call_ensures(openai_speech, (job_id, outcome), r),
    ensures
        outcome matches Some(Ok(audio)) ==> r == Ok::<_, ApiError>(audio),
        outcome matches Some(Err(message)) ==> r is Err && r->Err_0.status == ApiStatus::BadRequest
            && r->Err_0.message@ == message@,
        outcome is None ==> r is Err && r->Err_0.status == ApiStatus::Internal && r->Err_0.message@
            == "job "@ + job_id@ + " response channel closed"@,
{
}

/// The fields of a multipart request that are read.
pub proof fn lemma_field_names(name: &str, r: FieldKind)
    requires
        call_ensures(FieldKind::of, (name,), r),
    ensures
        name@ == "request"@ <==> r == FieldKind::Request,
        name@ == "ref_wav"@ <==> r == FieldKind::RefWav,
{
    reveal_strlit("request");
    reveal_strlit("ref_wav");
    assert("request"@[2] == 'q' && "ref_wav"@[2] == 'f');
}

/// The formats that are answered with: `wav` and `pcm`, and no other. A request may leave it out.
pub proof fn lemma_response_formats(request: SpeechRequest, r: Result<(), ApiError>)
    requires
        call_ensures(validate_response_format, (&request,), r),
    ensures
        r is Ok <==> match request.response_format {
            Some(format) => format@ == "wav"@ || format@ == "pcm"@,
            None => true,
        },
        r matches Err(e) ==> e.status == ApiStatus::BadRequest && e.message@
            == "only response_format `wav` and `pcm` are accepted; this server currently returns WAV for both"@,
{
}

/// The fields of a multipart request make a job of the request read last and the recording read
/// last, in whichever order they come.
pub proof fn lemma_multipart(
    empty: MultipartJob,
    s: &mut MultipartJob,
    request: SpeechRequest,
    t: &mut MultipartJob,
    bytes: Vec<u8>,
    taken: Result<(), ApiError>,
    last: MultipartJob,
    r: Result<JobPayload, ApiError>,
)
    requires
        call_ensures(MultipartJob::new, (), empty),
        call_ensures(MultipartJob::take_request, (s, Ok::<_, String>(request)), taken),
        call_ensures(MultipartJob::take_ref_wav, (t, bytes), ()),
        call_ensures(MultipartJob::create_multipart_job, (last,), r),
    ensures
        empty.request() is None && empty.ref_wav() is None,
        taken is Ok,
        final(s).request() == Some(request) && final(s).ref_wav() == old(s).ref_wav(),
        final(t).ref_wav() == Some(bytes) && final(t).request() == old(t).request(),
        last.request() is None ==> r is Err && r->Err_0.status == ApiStatus::BadRequest
            && r->Err_0.message@ == "multipart field `request` is required"@,
        last.request() matches Some(asked) ==> {
            let known = match asked.response_format {
                Some(format) => format@ == "wav"@ || format@ == "pcm"@,
                None => true,
            };
            &&& r is Ok <==> known
            &&& r matches Ok(payload) ==> payload.request == asked && payload.upload_wav
                == last.ref_wav()
        },
{
}

/// A request is held to the mode that the server was started in.
pub proof fn lemma_mode_is_held(mode: &str, request: SpeechRequest, r: Result<(), String>)
    requires
        call_ensures(validate_mode_request, (mode, &request), r),
    ensures
        r is Err <==> names_another(request, mode@),
        r matches Err(message) ==> message@ == "server mode is fixed to `"@ + mode@
            + "`, request conditioning type `"@ + request.qts_conditioning->0.kind->0@
            + "` is not allowed"@,
{
}

/// A request is refused exactly where it has no text, asks for another speed than that of the
/// model, or names a mode of the transformer that is none; in this order.
pub proof fn lemma_refused_requests(
    defaults: RequestDefaults,
    request: SpeechRequest,
    kv_mode: Option<Result<TalkerKvMode, String>>,
    r: Result<JobSynthesis, String>,
)
    requires
        call_ensures(build_request, (&defaults, &request, kv_mode), r),
    ensures
        ({
            let silent = request.text is None && request.input is None;
            let bits = request.speed->0.bits;
            let nan = 0x7f80_0000 < bits <= 0x7fff_ffff || 0xff80_0000 < bits;
            let near_one = 0x3f7f_fffe <= bits <= 0x3f80_0001;
            let hurried = request.speed is Some && !near_one && !nan;
            let unread = kv_mode matches Some(Err(_));
            &&& r is Err <==> silent || hurried || unread
            &&& silent ==> r->Err_0@ == "`input` or `text` is required"@
            &&& !silent && hurried ==> r->Err_0@
                == "OpenAI `speed` is accepted only as 1.0 in this version"@
            &&& !silent && !hurried && unread ==> r->Err_0@ == kv_mode->0->Err_0@
            &&& r matches Ok(job) ==> {
                &&& request.text matches Some(text) ==> job.request.text@ == text@
                &&& request.text is None ==> job.request.text@ == request.input->0@
                &&& job.request.reference_wav_bytes is None
                &&& job.request.thread_count == defaults.thread_count
            }
        }),
{
}

/// A number is told from one exactly where it differs by more than one part in about eight million:
/// its own neighbours are not.
pub proof fn lemma_differs_from_one(x: Real32, r: bool)
    requires
        call_ensures(Real32::differs_from_one, (x,), r),
    ensures
        x.bits == 0x3f80_0000 ==> !r,
        0x3f80_0001 < x.bits <= 0x7f80_0000 ==> r,
        x.bits < 0x3f7f_fffe ==> r,
        0x8000_0000 <= x.bits <= 0xff80_0000 ==> r,
        0x3f7f_fffe <= x.bits <= 0x3f80_0001 ==> !r,
        0x7f80_0000 < x.bits < 0x8000_0000 || 0xff80_0000 < x.bits ==> !r,
{
}

/// The modes that start-up arguments choose, by their names.
pub proof fn lemma_modes_by_name(value: &str, args: ModeArgs, r: Result<FixedMode, String>)
    requires
        call_ensures(FixedMode::parse, (value, &args), r),
    ensures
        ({
            let name = lowered(trimmed(value@));
            &&& name == "none"@ ==> r is Ok && r->Ok_0 is Plain
            &&& name == "custom"@ && args.speaker is None ==> r is Err && r->Err_0@
                == "--speaker is required when --mode custom"@
            &&& name == "custom"@ && args.speaker is Some ==> {
                &&& r matches Ok(FixedMode::Custom { speaker, instruct })
                &&& speaker@ == args.speaker->0@
                &&& text_in(instruct) == text_in(args.instruct)
            }
            &&& name == "design"@ ==> {
                &&& r matches Ok(FixedMode::Design { instruct })
                &&& text_in(instruct) == text_in(args.instruct)
            }
            &&& name == "clone"@ ==> {
                &&& r matches Ok(FixedMode::Clone { prompt_path, wav_path, ref_text })
                &&& text_in(prompt_path) == text_in(args.voice_clone_prompt)
                &&& text_in(wav_path) == text_in(args.voice_clone_wav)
                &&& text_in(ref_text) == text_in(args.voice_clone_ref_text)
            }
            &&& name != "none"@ && name != "custom"@ && name != "design"@ && name != "clone"@
                ==> r is Err && r->Err_0@ == "unknown --mode "@ + name
                + "; expected none, custom, design, clone"@
        }),
{
    reveal_strlit("none");
    reveal_strlit("custom");
    reveal_strlit("design");
    reveal_strlit("clone");
    assert("none"@.len() == 4 && "custom"@.len() == 6 && "design"@.len() == 6 && "clone"@.len()
        == 5);
    assert("custom"@[0] == 'c' && "design"@[0] == 'd');
}

/// The name of a mode.
pub proof fn lemma_mode_names(mode: FixedMode, r: &'static str)
    requires
        call_ensures(FixedMode::name, (&mode,), r),
    ensures
        mode is Plain ==> r@ == "none"@,
        mode is Custom ==> r@ == "custom"@,
        mode is Design ==> r@ == "design"@,
        mode is Clone ==> r@ == "clone"@,
{
}

/// What is said in a recording counts only where it is more than whitespace, and is then taken as it
/// stands.
pub proof fn lemma_ref_text_counts(ref_text: Option<String>, r: Option<String>)
    requires
        call_ensures(clone_prompt_from_bytes, (&ref_text,), r),
    ensures
        r is Some <==> ref_text is Some && exists|i: int|
            0 <= i < ref_text->0@.len() && !whitespace(#[trigger] ref_text->0@[i]),
        r is Some ==> r->0@ == ref_text->0@,
{
}

} // verus!
