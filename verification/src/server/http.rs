//! What the server's routes answer.

use vstd::prelude::*;
use crate::server::api_error::ApiError;
#[allow(unused_imports)]
use crate::server::api_error::ApiErrorModel;
use crate::server::config::ServerConfig;
use crate::server::jobs::AudioPayload;
use crate::server::speech::{validate_response_format, JobPayload, SpeechRequest};
use crate::server::store::JobStore;
#[allow(unused_imports)]
use crate::server::store::pending_ids;
use crate::text::{decimal_text, same_text};
#[allow(unused_imports)]
use crate::text::decimal;

verus! {

/// The answer to a request for the server's health.
#[derive(Debug)]
pub struct HealthResponse {
    pub status: &'static str,
    pub mode: &'static str,
    pub model_dir: String,
    pub queued_or_running_jobs: usize,
}

/// The server's health.
pub fn health(config: &ServerConfig, jobs: &JobStore) -> (r: HealthResponse)
    requires
        jobs.wf(),
    ensures
        r.status@ == "ok"@,
        r.mode@ == config.mode@.spec_name(),
        r.model_dir@ == config.model_dir@,
        r.queued_or_running_jobs == pending_ids(jobs@).len(),
{
    HealthResponse {
        status: "ok",
        mode: config.mode.name(),
        model_dir: config.model_dir.clone(),
        queued_or_running_jobs: jobs.queued_or_running_jobs(),
    }
}

/// The answer to a request that was queued.
#[derive(Debug)]
pub struct CreateJobResponse {
    pub job_id: String,
    pub status: &'static str,
    pub progress_url: String,
    pub audio_url: String,
}

/// Where a job is asked for.
pub open spec fn job_url(job_id: Seq<char>) -> Seq<char> {
    "/v1/qts/audio/jobs/"@ + job_id
}

/// The answer to a request that was queued under an id.
pub fn create_job(job_id: String) -> (r: CreateJobResponse)
    ensures
        r.job_id@ == job_id@,
        r.status@ == "queued"@,
        r.progress_url@ == job_url(job_id@),
        r.audio_url@ == job_url(job_id@) + "/audio"@,
{
    let mut progress_url = "/v1/qts/audio/jobs/".to_string();
    progress_url.append(job_id.as_str());
    let mut audio_url = progress_url.clone();
    audio_url.append("/audio");
    CreateJobResponse { job_id, status: "queued", progress_url, audio_url }
}

/// What is answered once a queued job has been handed to the worker, told whether the worker was
/// there to take it.
pub fn handed_over(job_id: String, taken: bool) -> (r: Result<String, ApiError>)
    ensures
        match r {
            Ok(id) => taken && id == job_id,
            Err(e) => !taken && e@ == ApiErrorModel::internal("server worker is not running"@),
        },
{
    if taken {
        Ok(job_id)
    } else {
        Err(ApiError::internal("server worker is not running".to_string()))
    }
}

/// The headers of an answer that carries audio.
#[derive(Debug)]
pub struct AudioHeaders {
    pub content_type: &'static str,
    /// The value of `x-qts-sample-rate`.
    pub sample_rate: String,
    /// The value of `x-qts-generated-frames`.
    pub generated_frames: String,
}

/// The headers of an answer that carries audio.
pub fn audio_response(audio: &AudioPayload) -> (r: AudioHeaders)
    ensures
        r.content_type@ == "audio/wav"@,
        r.sample_rate@ == decimal(audio.sample_rate_hz as nat),
        r.generated_frames@ == decimal(audio.generated_frames as nat),
{
    AudioHeaders {
        content_type: "audio/wav",
        sample_rate: decimal_text(audio.sample_rate_hz as u64),
        generated_frames: decimal_text(audio.generated_frames as u64),
    }
}

/// What is answered to a request that waits for its audio. There is no outcome where the worker
/// went away.
pub fn openai_speech(job_id: &str, outcome: Option<Result<AudioPayload, String>>) -> (r: Result<
    AudioPayload,
    ApiError,
>)
    ensures
        match (outcome, r) {
            (Some(Ok(audio)), Ok(answer)) => answer == audio,
            (Some(Err(message)), Err(e)) => e@ == ApiErrorModel::bad_request(message@),
            (None, Err(e)) => e@ == ApiErrorModel::internal(
                "job "@ + job_id@ + " response channel closed"@,
            ),
            _ => false,
        },
{
    match outcome {
        Some(Ok(audio)) => Ok(audio),
        Some(Err(message)) => Err(ApiError::bad_request(message)),
        None => {
            let mut message = "job ".to_string();
            message.append(job_id);
            message.append(" response channel closed");
            Err(ApiError::internal(message))
        },
    }
}

/// What a field of a multipart request holds.
#[derive(Debug, Clone, Copy, PartialEq, Eq, Structural)]
pub enum FieldKind {
    /// The request itself.
    Request,
    /// A recording to clone.
    RefWav,
    /// Nothing that is read.
    Other,
}

impl FieldKind {
    /// What the field of a name holds.
    pub open spec fn spec_of(name: Seq<char>) -> FieldKind {
        if name == "request"@ {
            FieldKind::Request
        } else if name == "ref_wav"@ {
            FieldKind::RefWav
        } else {
            FieldKind::Other
        }
    }

    /// What the field of a name holds.
    pub fn of(name: &str) -> (r: FieldKind)
        ensures
            r == FieldKind::spec_of(name@),
    {
        if same_text(name, "request") {
            FieldKind::Request
        } else if same_text(name, "ref_wav") {
            FieldKind::RefWav
        } else {
            FieldKind::Other
        }
    }
}

/// The fields of a multipart request read so far. Where a field comes again, its last value holds.
#[derive(Debug)]
pub struct MultipartJob {
    request: Option<SpeechRequest>,
    ref_wav: Option<Vec<u8>>,
}

impl MultipartJob {
    /// The request read last.
    pub closed spec fn request(&self) -> Option<SpeechRequest> {
        self.request
    }

    /// The recording read last.
    pub closed spec fn ref_wav(&self) -> Option<Vec<u8>> {
        self.ref_wav
    }

    /// No fields.
    pub fn new() -> (r: MultipartJob)
        ensures
            r.request() is None,
            r.ref_wav() is None,
    {
        MultipartJob { request: None, ref_wav: None }
    }

    /// Takes up a request as it was read, or refuses it where it could not be read.
    pub fn take_request(&mut self, read: Result<SpeechRequest, String>) -> (r: Result<(), ApiError>)
        ensures
            final(self).ref_wav() == old(self).ref_wav(),
            match (read, r) {
                (Ok(request), Ok(_)) => final(self).request() == Some(request),
                (Err(message), Err(e)) => e@ == ApiErrorModel::bad_request(message@)
                    && final(self).request() == old(self).request(),
                _ => false,
            },
    {
        match read {
            Ok(request) => {
                self.request = Some(request);
                Ok(())
            },
            Err(message) => Err(ApiError::bad_request(message)),
        }
    }

    /// Takes up a recording.
    pub fn take_ref_wav(&mut self, bytes: Vec<u8>)
        ensures
            final(self).ref_wav() == Some(bytes),
            final(self).request() == old(self).request(),
    {
        self.ref_wav = Some(bytes);
    }

    /// The job that the fields make: there has to be a request, for a format that the server
    /// answers with.
    pub fn create_multipart_job(self) -> (r: Result<JobPayload, ApiError>)
        ensures
            match (self.request(), r) {
                (Some(request), Ok(payload)) => {
                    &&& request.answerable()
                    &&& payload.request == request
                    &&& payload.upload_wav == self.ref_wav()
                },
                (Some(request), Err(e)) => {
                    &&& !request.answerable()
                    &&& e@ == ApiErrorModel::bad_request(
                        "only response_format `wav` and `pcm` are accepted; this server currently returns WAV for both"@,
                    )
                },
                (None, Err(e)) => e@ == ApiErrorModel::bad_request(
                    "multipart field `request` is required"@,
                ),
                (None, Ok(_)) => false,
            },
    {
        let request = match self.request {
            Some(request) => request,
            None => {
                return Err(
                    ApiError::bad_request("multipart field `request` is required".to_string()),
                );
            },
        };
        match validate_response_format(&request) {
            Ok(_) => Ok(JobPayload { request, upload_wav: self.ref_wav }),
            Err(e) => Err(e),
        }
    }
}

} // verus!
