//! What a server's jobs go through.

use vstd::prelude::*;
#[allow(unused_imports)]
use crate::server::api_error::{ApiError, ApiStatus};
#[allow(unused_imports)]
use crate::server::config::RequestDefaults;
#[allow(unused_imports)]
use crate::server::jobs::{
    AudioPayload, JobInfo, JobModel, JobStage, JobStatus, Progress, SynthesisProgress,
    SynthesisProgressStage,
};
#[allow(unused_imports)]
use crate::server::mode::FixedMode;
#[allow(unused_imports)]
use crate::server::promises::names_another;
#[allow(unused_imports)]
use crate::server::speech::SpeechRequest;
#[allow(unused_imports)]
use crate::server::store::JobStore;
#[allow(unused_imports)]
use crate::text::decimal;

verus! {

/// Whether two stores hold the same jobs but for one.
pub open spec fn same_but(
    before: Map<Seq<char>, JobModel>,
    after: Map<Seq<char>, JobModel>,
    id: Seq<char>,
) -> bool {
    forall|other: Seq<char>|
        #![trigger after.contains_key(other)]
        #![trigger before.contains_key(other)]
        other != id ==> {
            &&& after.contains_key(other) == before.contains_key(other)
            &&& before.contains_key(other) ==> after[other] == before[other]
        }
}

/// Whether a job is as it was but for how far it has come.
pub open spec fn same_job(before: JobModel, after: JobModel) -> bool {
    &&& after.job_id == before.job_id
    &&& after.created_at_ms == before.created_at_ms
}

/// The name of a mode.
pub open spec fn mode_word(mode: FixedMode) -> Seq<char> {
    match mode {
        FixedMode::Plain => "none"@,
        FixedMode::Custom { .. } => "custom"@,
        FixedMode::Design { .. } => "design"@,
        FixedMode::Clone { .. } => "clone"@,
    }
}

/// A new store is empty, and numbers its jobs from one.
pub proof fn lemma_new_store(r: JobStore)
    requires
        call_ensures(JobStore::new, (), r),
    ensures
        forall|id: Seq<char>| !(#[trigger] r@.contains_key(id)),
        r.next_job_id() == 1,
{
}

/// A request is queued under the next number, to make as many frames as it asks for or else as many
/// as the server does. It takes no notice of the other jobs. One that takes the server to be in
/// another mode is refused, and leaves everything as it was.
pub proof fn lemma_submitted(
    s: &mut JobStore,
    mode: FixedMode,
    defaults: RequestDefaults,
    request: SpeechRequest,
    now: u128,
    r: Result<String, ApiError>,
)
    requires
        call_ensures(JobStore::submit_job, (s, &mode, &defaults, &request, now), r),
    ensures
        r is Err <==> names_another(request, mode_word(mode)),
        r matches Err(e) ==> {
            &&& *final(s) == *old(s)
            &&& e.status == ApiStatus::BadRequest
            &&& e.message@ == "server mode is fixed to `"@ + mode_word(mode)
                + "`, request conditioning type `"@ + request.qts_conditioning->0.kind->0@
                + "` is not allowed"@
        },
        r matches Ok(id) ==> {
            let job = final(s)@[id@];
            &&& id@ == decimal(old(s).next_job_id() as nat)
            &&& old(s).next_job_id() < u64::MAX ==> final(s).next_job_id() == old(s).next_job_id()
                + 1
            &&& same_but(old(s)@, final(s)@, id@)
            &&& final(s)@.contains_key(id@)
            &&& job.job_id == id@
            &&& job.status == JobStatus::Queued
            &&& job.stage == JobStage::Queued
            &&& job.progress == Progress::Percent(0)
            &&& job.generated_frames == 0
            &&& request.frames is Some ==> job.max_frames == request.frames->0
            &&& request.frames is None ==> job.max_frames == defaults.max_audio_frames
            &&& job.created_at_ms == now
            &&& job.started_at_ms is None && job.finished_at_ms is None
            &&& job.sample_rate_hz is None && job.error is None && job.audio is None
        },
{
}

/// A job that is taken up is running and has started at that time. It keeps the rest, and the other
/// jobs keep everything.
pub proof fn lemma_taken_up(s: &mut JobStore, id: &str, now: u128)
    requires
        call_ensures(JobStore::mark_running, (s, id, now), ()),
    ensures
        !old(s)@.contains_key(id@) ==> final(s)@ == old(s)@,
        final(s).next_job_id() == old(s).next_job_id(),
        same_but(old(s)@, final(s)@, id@),
        old(s)@.contains_key(id@) ==> {
            let was = old(s)@[id@];
            let job = final(s)@[id@];
            &&& final(s)@.contains_key(id@)
            &&& same_job(was, job)
            &&& job.status == JobStatus::Running
            &&& job.stage == JobStage::Preparing
            &&& job.progress == Progress::Percent(1)
            &&& job.started_at_ms == Some(now)
            &&& job.generated_frames == was.generated_frames
            &&& job.max_frames == was.max_frames
            &&& job.finished_at_ms == was.finished_at_ms
            &&& job.sample_rate_hz == was.sample_rate_hz
            &&& job.error == was.error
            &&& job.audio == was.audio
        },
{
}

/// A job whose synthesis reports is running, at the stage that is reported and with the frames that
/// are reported: two hundredths while it is being prepared, five once the prompt is in, ninety-five
/// once the vocoder is at work, and in between the share of the frames.
pub proof fn lemma_reported(s: &mut JobStore, id: &str, report: SynthesisProgress)
    requires
        call_ensures(JobStore::update_progress, (s, id, report), ()),
    ensures
        !old(s)@.contains_key(id@) ==> final(s)@ == old(s)@,
        final(s).next_job_id() == old(s).next_job_id(),
        same_but(old(s)@, final(s)@, id@),
        old(s)@.contains_key(id@) ==> {
            let was = old(s)@[id@];
            let job = final(s)@[id@];
            let (stage, progress) = match report.stage {
                SynthesisProgressStage::Preparing => (JobStage::Preparing, Progress::Percent(2)),
                SynthesisProgressStage::Prefill => (JobStage::Prefill, Progress::Percent(5)),
                SynthesisProgressStage::Rollout => (
                    JobStage::Rollout,
                    Progress::Rollout {
                        generated_frames: report.generated_frames,
                        max_frames: report.max_frames,
                    },
                ),
                SynthesisProgressStage::Vocoder => (JobStage::Vocoder, Progress::Percent(95)),
                SynthesisProgressStage::Done => (JobStage::Done, Progress::Percent(100)),
            };
            &&& final(s)@.contains_key(id@)
            &&& same_job(was, job)
            &&& job.status == JobStatus::Running
            &&& job.stage == stage
            &&& job.progress == progress
            &&& job.generated_frames == report.generated_frames
            &&& job.max_frames == report.max_frames
            &&& job.started_at_ms == was.started_at_ms
            &&& job.finished_at_ms == was.finished_at_ms
            &&& job.sample_rate_hz == was.sample_rate_hz
            &&& job.error == was.error
            &&& job.audio == was.audio
        },
{
}

/// How much of a rollout has been done: five hundredths, and of eighty-five more the share of the
/// frames, which is never more than all of them.
pub proof fn lemma_share_of_frames(generated_frames: usize, max_frames: usize)
    ensures
        ({
            let p = Progress::Rollout { generated_frames, max_frames };
            &&& max_frames > 0 ==> p.whole() == max_frames
            &&& max_frames == 0 ==> p.whole() == 1
            &&& generated_frames <= max_frames && max_frames > 0 ==> p.parts() == 5 * max_frames
                + 85 * generated_frames
            &&& generated_frames >= max_frames && max_frames > 0 ==> p.parts() == 90 * max_frames
            &&& Progress::Percent(0).parts() == 0 && Progress::Percent(100).parts() == 100
            &&& Progress::Percent(95).parts() == 95 && Progress::Percent(95).whole() == 1
        }),
{
}

/// Settling a job with audio makes it done; whoever then asks for the audio gets exactly that audio.
/// Settling it with an error makes it failed; whoever asks is told that error.
pub proof fn lemma_settled(
    s: &mut JobStore,
    id: &str,
    outcome: Result<AudioPayload, String>,
    now: u128,
    t: JobStore,
    answer: Result<AudioPayload, ApiError>,
)
    requires
        call_ensures(JobStore::settle, (s, id, &outcome, now), ()),
        call_ensures(JobStore::get_job_audio, (&t, id), answer),
    ensures
        !old(s)@.contains_key(id@) ==> final(s)@ == old(s)@,
        final(s).next_job_id() == old(s).next_job_id(),
        same_but(old(s)@, final(s)@, id@),
        old(s)@.contains_key(id@) ==> {
            let was = old(s)@[id@];
            let job = final(s)@[id@];
            &&& final(s)@.contains_key(id@)
            &&& same_job(was, job)
            &&& job.started_at_ms == was.started_at_ms
            &&& job.max_frames == was.max_frames
            &&& job.finished_at_ms == Some(now)
            &&& outcome matches Ok(audio) ==> {
                &&& job.status == JobStatus::Done
                &&& job.stage == JobStage::Done
                &&& job.progress == Progress::Percent(100)
                &&& job.generated_frames == audio.generated_frames
                &&& job.sample_rate_hz == Some(audio.sample_rate_hz)
                &&& job.audio == Some(audio.bytes@)
                &&& job.error == was.error
            }
            &&& outcome matches Err(message) ==> {
                &&& job.status == JobStatus::Failed
                &&& job.stage == JobStage::Failed
                &&& job.error == Some(message@)
                &&& job.progress == was.progress
                &&& job.generated_frames == was.generated_frames
                &&& job.audio == was.audio
            }
        },
        old(s)@.contains_key(id@) && t@ == final(s)@ ==> match outcome {
            Ok(audio) => {
                &&& answer matches Ok(given)
                &&& given.bytes@ == audio.bytes@
                &&& given.sample_rate_hz == audio.sample_rate_hz
                &&& given.generated_frames == audio.generated_frames
            },
            Err(message) => {
                &&& answer matches Err(e)
                &&& e.status == ApiStatus::BadRequest
                &&& e.message@ == message@
            },
        },
{
}

/// Marking a job as done or as failed is what settling it with its audio or its error comes to.
pub proof fn lemma_marked_is_settled(
    s: &mut JobStore,
    t: &mut JobStore,
    u: &mut JobStore,
    v: &mut JobStore,
    id: &str,
    audio: AudioPayload,
    message: String,
    now: u128,
)
    requires
        call_ensures(JobStore::mark_done, (s, id, &audio, now), ()),
        call_ensures(JobStore::settle, (t, id, &Ok::<_, String>(audio), now), ()),
        call_ensures(JobStore::mark_failed, (u, id, message, now), ()),
        call_ensures(JobStore::settle, (v, id, &Err::<AudioPayload, _>(message), now), ()),
        old(s)@ == old(t)@,
        old(u)@ == old(v)@,
    ensures
        final(s)@ == final(t)@,
        final(u)@ == final(v)@,
        final(s).next_job_id() == old(s).next_job_id(),
        final(u).next_job_id() == old(u).next_job_id(),
{
}

/// A job is looked up under its id, and one that is not there is not found.
pub proof fn lemma_looked_up(s: JobStore, id: &str, r: Result<&JobInfo, ApiError>)
    requires
        call_ensures(JobStore::get_job, (&s, id), r),
    ensures
        r is Ok <==> s@.contains_key(id@),
        r matches Ok(job) ==> job@ == s@[id@],
        r matches Err(e) ==> e.status == ApiStatus::NotFound && e.message@ == "job not found: "@
            + id@,
{
}

/// The audio of a job is there once it has been handed in and the job has not failed. Until then
/// asking for it comes too early.
pub proof fn lemma_audio_asked_for(s: JobStore, id: &str, r: Result<AudioPayload, ApiError>)
    requires
        call_ensures(JobStore::get_job_audio, (&s, id), r),
    ensures
        ({
            let job = s@[id@];
            let there = s@.contains_key(id@);
            &&& r is Ok <==> there && job.status != JobStatus::Failed && job.audio is Some
            &&& !there ==> r->Err_0.status == ApiStatus::NotFound && r->Err_0.message@
                == "job not found: "@ + id@
            &&& there && job.status == JobStatus::Failed ==> {
                &&& r->Err_0.status == ApiStatus::BadRequest
                &&& job.error is Some ==> r->Err_0.message@ == job.error->0
                &&& job.error is None ==> r->Err_0.message@ == "job failed"@
            }
            &&& there && job.status != JobStatus::Failed && job.audio is None ==> {
                &&& r->Err_0.status == ApiStatus::Conflict
                &&& r->Err_0.message@ == "job is not complete"@
            }
            &&& r matches Ok(audio) ==> {
                &&& audio.bytes@ == job.audio->0
                &&& audio.generated_frames == job.generated_frames
                &&& job.sample_rate_hz is Some ==> audio.sample_rate_hz == job.sample_rate_hz->0
                &&& job.sample_rate_hz is None ==> audio.sample_rate_hz == 24_000
            }
        }),
{
}

/// The jobs that are counted as still to be done are those that are queued or running.
pub proof fn lemma_counted(s: JobStore, r: usize)
    requires
        call_ensures(JobStore::queued_or_running_jobs, (&s,), r),
    ensures
        r == s@.dom().filter(
            |id: Seq<char>|
                s@[id].status == JobStatus::Queued || s@[id].status == JobStatus::Running,
        ).len(),
{
    assert(crate::server::store::pending_ids(s@) =~= s@.dom().filter(
        |id: Seq<char>|
            s@[id].status == JobStatus::Queued || s@[id].status == JobStatus::Running,
    ));
}

} // verus!
