//! The store of a server's jobs.

use vstd::prelude::*;
use crate::server::api_error::ApiError;
#[allow(unused_imports)]
use crate::server::api_error::ApiErrorModel;
use crate::server::config::RequestDefaults;
use crate::server::jobs::{
    AudioPayload, JobInfo, JobStage, JobStatus, Progress, SynthesisProgress,
    SynthesisProgressStage,
};
#[allow(unused_imports)]
use crate::server::jobs::{AudioModel, JobModel};
use crate::server::mode::FixedMode;
use crate::server::speech::{validate_mode_request, SpeechRequest};
#[allow(unused_imports)]
use crate::server::speech::{mode_is_fixed, or_default, switches_mode};
use crate::synthesis::request::SAMPLE_RATE_HZ;
use crate::text::{decimal_text, same_text};
#[allow(unused_imports)]
use crate::text::decimal;

verus! {

/// The jobs by their ids.
pub open spec fn by_id(jobs: Seq<JobInfo>) -> Map<Seq<char>, JobModel>
    decreases jobs.len(),
{
    if jobs.len() == 0 {
        Map::empty()
    } else {
        by_id(jobs.drop_last()).insert(jobs.last().job_id@, jobs.last()@)
    }
}

/// Whether no two jobs have the same id.
pub open spec fn distinct_ids(jobs: Seq<JobInfo>) -> bool {
    forall|i: int, j: int|
        0 <= i < j < jobs.len() ==> (#[trigger] jobs[i]).job_id@ != (#[trigger] jobs[j]).job_id@
}

proof fn lemma_by_id(jobs: Seq<JobInfo>)
    requires
        distinct_ids(jobs),
    ensures
        by_id(jobs).dom().finite(),
        forall|id: Seq<char>| #[trigger]
            by_id(jobs).contains_key(id) ==> exists|i: int|
                0 <= i < jobs.len() && (#[trigger] jobs[i]).job_id@ == id,
        forall|i: int|
            0 <= i < jobs.len() ==> by_id(jobs).contains_key((#[trigger] jobs[i]).job_id@)
                && by_id(jobs)[jobs[i].job_id@] == jobs[i]@,
    decreases jobs.len(),
{
    if jobs.len() > 0 {
        let rest = jobs.drop_last();
        assert(distinct_ids(rest)) by {
            assert forall|i: int, j: int| 0 <= i < j < rest.len() implies (
            #[trigger] rest[i]).job_id@ != (#[trigger] rest[j]).job_id@ by {
                assert(rest[i] == jobs[i] && rest[j] == jobs[j]);
            }
        }
        lemma_by_id(rest);
        assert forall|id: Seq<char>| #[trigger] by_id(jobs).contains_key(id) implies exists|i: int|
            0 <= i < jobs.len() && (#[trigger] jobs[i]).job_id@ == id by {
            if id == jobs.last().job_id@ {
                assert(jobs[jobs.len() - 1].job_id@ == id);
            } else {
                assert(by_id(rest).contains_key(id));
                let i = choose|i: int| 0 <= i < rest.len() && (#[trigger] rest[i]).job_id@ == id;
                assert(jobs[i].job_id@ == id);
            }
        }
        assert forall|i: int| 0 <= i < jobs.len() implies by_id(jobs).contains_key(
            (#[trigger] jobs[i]).job_id@,
        ) && by_id(jobs)[jobs[i].job_id@] == jobs[i]@ by {
            if i < jobs.len() - 1 {
                assert(rest[i] == jobs[i]);
                assert(jobs[i].job_id@ != jobs[jobs.len() - 1].job_id@);
            }
        }
    }
}

/// Two lists that hold the same job under each id are the same jobs by id.
proof fn lemma_same_by_id(a: Seq<JobInfo>, b: Map<Seq<char>, JobModel>)
    requires
        distinct_ids(a),
        forall|i: int|
            0 <= i < a.len() ==> b.contains_key((#[trigger] a[i]).job_id@) && b[a[i].job_id@]
                == a[i]@,
        forall|id: Seq<char>| #[trigger]
            b.contains_key(id) ==> exists|i: int|
                0 <= i < a.len() && (#[trigger] a[i]).job_id@ == id,
    ensures
        by_id(a) == b,
{
    lemma_by_id(a);
    assert forall|id: Seq<char>| by_id(a).contains_key(id) == b.contains_key(id) by {
        if by_id(a).contains_key(id) {
            let i = choose|i: int| 0 <= i < a.len() && (#[trigger] a[i]).job_id@ == id;
            assert(b.contains_key(a[i].job_id@));
        }
        if b.contains_key(id) {
            let i = choose|i: int| 0 <= i < a.len() && (#[trigger] a[i]).job_id@ == id;
            assert(by_id(a).contains_key(a[i].job_id@));
        }
    }
    assert forall|id: Seq<char>| by_id(a).contains_key(id) implies by_id(a)[id] == b[id] by {
        let i = choose|i: int| 0 <= i < a.len() && (#[trigger] a[i]).job_id@ == id;
        assert(by_id(a)[a[i].job_id@] == a[i]@);
    }
    assert(by_id(a) =~= b);
}

/// The jobs of a server, and the number of the next one.
#[derive(Debug)]
pub struct JobStore {
    jobs: Vec<JobInfo>,
    next_job_id: u64,
}

impl View for JobStore {
    type V = Map<Seq<char>, JobModel>;

    closed spec fn view(&self) -> Map<Seq<char>, JobModel> {
        by_id(self.jobs@)
    }
}

/// What is said of a job that is not there.
pub open spec fn no_job(job_id: Seq<char>) -> ApiErrorModel {
    ApiErrorModel::not_found("job not found: "@ + job_id)
}

impl JobStore {
    /// Whether no two jobs have the same id.
    pub closed spec fn wf(&self) -> bool {
        distinct_ids(self.jobs@)
    }

    /// The number of the next job.
    pub closed spec fn next_job_id(&self) -> u64 {
        self.next_job_id
    }

    /// No jobs. The first will have the number 1.
    pub fn new() -> (r: JobStore)
        ensures
            r.wf(),
            r@ == Map::<Seq<char>, JobModel>::empty(),
            r.next_job_id() == 1,
    {
        JobStore { jobs: Vec::new(), next_job_id: 1 }
    }

    fn find(&self, job_id: &str) -> (r: Option<usize>)
        requires
            self.wf(),
        ensures
            match r {
                Some(i) => i < self.jobs@.len() && self.jobs@[i as int].job_id@ == job_id@
                    && self@.contains_key(job_id@) && self@[job_id@] == self.jobs@[i as int]@,
                None => !self@.contains_key(job_id@) && forall|j: int|
                    0 <= j < self.jobs@.len() ==> (#[trigger] self.jobs@[j]).job_id@ != job_id@,
            },
    {
        proof {
            lemma_by_id(self.jobs@);
        }
        let mut i: usize = 0;
        while i < self.jobs.len()
            invariant
                i <= self.jobs@.len(),
                forall|k: int|
                    0 <= k < self.jobs@.len() ==> self@.contains_key(
                        (#[trigger] self.jobs@[k]).job_id@,
                    ) && self@[self.jobs@[k].job_id@] == self.jobs@[k]@,
                forall|j: int|
                    0 <= j < i ==> (#[trigger] self.jobs@[j]).job_id@ != job_id@,
            decreases self.jobs@.len() - i,
        {
            if same_text(self.jobs[i].job_id.as_str(), job_id) {
                return Some(i);
            }
            i = i + 1;
        }
        None
    }

    proof fn lemma_updated(before: Seq<JobInfo>, after: Seq<JobInfo>, i: int)
        requires
            distinct_ids(before),
            0 <= i < before.len(),
            after.len() == before.len(),
            forall|j: int| 0 <= j < before.len() && j != i ==> #[trigger] after[j] == before[j],
            after[i].job_id@ == before[i].job_id@,
        ensures
            distinct_ids(after),
            by_id(after) == by_id(before).insert(before[i].job_id@, after[i]@),
    {
        lemma_by_id(before);
        assert forall|j: int, k: int| 0 <= j < k < after.len() implies (
        #[trigger] after[j]).job_id@ != (#[trigger] after[k]).job_id@ by {
            assert(after[j].job_id@ == before[j].job_id@);
            assert(after[k].job_id@ == before[k].job_id@);
            assert(before[j].job_id@ != before[k].job_id@);
        }
        let b = by_id(before).insert(before[i].job_id@, after[i]@);
        assert forall|j: int| 0 <= j < after.len() implies b.contains_key(
            (#[trigger] after[j]).job_id@,
        ) && b[after[j].job_id@] == after[j]@ by {
            assert(by_id(before).contains_key(before[j].job_id@));
            if j != i {
                assert(after[j] == before[j]);
                if j < i {
                    assert(before[j].job_id@ != before[i].job_id@);
                } else {
                    assert(before[i].job_id@ != before[j].job_id@);
                }
            }
        }
        assert forall|id: Seq<char>| #[trigger] b.contains_key(id) implies exists|j: int|
            0 <= j < after.len() && (#[trigger] after[j]).job_id@ == id by {
            if id == before[i].job_id@ {
                assert(after[i].job_id@ == id);
            } else {
                assert(by_id(before).contains_key(id));
                let j = choose|j: int|
                    0 <= j < before.len() && (#[trigger] before[j]).job_id@ == id;
                assert(after[j].job_id@ == id);
            }
        }
        lemma_same_by_id(after, b);
    }

    /// Marks a job as being worked on. A job that is not there is left alone.
    pub fn mark_running(&mut self, job_id: &str, now: u128)
        requires
            old(self).wf(),
        ensures
            final(self).wf(),
            final(self).next_job_id() == old(self).next_job_id(),
            final(self)@ == (if old(self)@.contains_key(job_id@) {
                old(self)@.insert(job_id@, old(self)@[job_id@].running(now))
            } else {
                old(self)@
            }),
    {
        let ghost before = self.jobs@;
        match self.find(job_id) {
            Some(i) => {
                let job = &mut self.jobs[i];
                job.status = JobStatus::Running;
                job.stage = JobStage::Preparing;
                job.progress = Progress::Percent(1);
                job.started_at_ms = Some(now);
                proof {
                    Self::lemma_updated(before, self.jobs@, i as int);
                    assert(self.jobs@[i as int]@ == before[i as int]@.running(now));
                }
            },
            None => {},
        }
    }

    /// Takes up what the synthesis of a job reports.
    pub fn update_progress(&mut self, job_id: &str, progress: SynthesisProgress)
        requires
            old(self).wf(),
        ensures
            final(self).wf(),
            final(self).next_job_id() == old(self).next_job_id(),
            final(self)@ == (if old(self)@.contains_key(job_id@) {
                old(self)@.insert(job_id@, old(self)@[job_id@].progressed(progress))
            } else {
                old(self)@
            }),
    {
        let ghost before = self.jobs@;
        let stage = match progress.stage {
            SynthesisProgressStage::Preparing => JobStage::Preparing,
            SynthesisProgressStage::Prefill => JobStage::Prefill,
            SynthesisProgressStage::Rollout => JobStage::Rollout,
            SynthesisProgressStage::Vocoder => JobStage::Vocoder,
            SynthesisProgressStage::Done => JobStage::Done,
        };
        let done_so_far = match progress.stage {
            SynthesisProgressStage::Preparing => Progress::Percent(2),
            SynthesisProgressStage::Prefill => Progress::Percent(5),
            SynthesisProgressStage::Rollout => Progress::Rollout {
                generated_frames: progress.generated_frames,
                max_frames: progress.max_frames,
            },
            SynthesisProgressStage::Vocoder => Progress::Percent(95),
            SynthesisProgressStage::Done => Progress::Percent(100),
        };
        match self.find(job_id) {
            Some(i) => {
                let job = &mut self.jobs[i];
                job.status = JobStatus::Running;
                job.stage = stage;
                job.generated_frames = progress.generated_frames;
                job.max_frames = progress.max_frames;
                job.progress = done_so_far;
                proof {
                    Self::lemma_updated(before, self.jobs@, i as int);
                    assert(self.jobs@[i as int]@ == before[i as int]@.progressed(progress));
                }
            },
            None => {},
        }
    }

    /// Marks a job as done, with its audio.
    pub fn mark_done(&mut self, job_id: &str, audio: &AudioPayload, now: u128)
        requires
            old(self).wf(),
        ensures
            final(self).wf(),
            final(self).next_job_id() == old(self).next_job_id(),
            final(self)@ == (if old(self)@.contains_key(job_id@) {
                old(self)@.insert(job_id@, old(self)@[job_id@].done(audio@, now))
            } else {
                old(self)@
            }),
    {
        let ghost before = self.jobs@;
        match self.find(job_id) {
            Some(i) => {
                let bytes = audio.bytes.clone();
                assert(bytes@ =~= audio.bytes@);
                let job = &mut self.jobs[i];
                job.status = JobStatus::Done;
                job.stage = JobStage::Done;
                job.progress = Progress::Percent(100);
                job.generated_frames = audio.generated_frames;
                job.sample_rate_hz = Some(audio.sample_rate_hz);
                job.finished_at_ms = Some(now);
                job.audio = Some(bytes);
                proof {
                    Self::lemma_updated(before, self.jobs@, i as int);
                    assert(self.jobs@[i as int]@ == before[i as int]@.done(audio@, now));
                }
            },
            None => {},
        }
    }

    /// Marks a job as failed, and says why.
    pub fn mark_failed(&mut self, job_id: &str, error: String, now: u128)
        requires
            old(self).wf(),
        ensures
            final(self).wf(),
            final(self).next_job_id() == old(self).next_job_id(),
            final(self)@ == (if old(self)@.contains_key(job_id@) {
                old(self)@.insert(job_id@, old(self)@[job_id@].failed(error@, now))
            } else {
                old(self)@
            }),
    {
        let ghost before = self.jobs@;
        match self.find(job_id) {
            Some(i) => {
                let job = &mut self.jobs[i];
                job.status = JobStatus::Failed;
                job.stage = JobStage::Failed;
                job.error = Some(error);
                job.finished_at_ms = Some(now);
                proof {
                    Self::lemma_updated(before, self.jobs@, i as int);
                    assert(self.jobs@[i as int]@ == before[i as int]@.failed(error@, now));
                }
            },
            None => {},
        }
    }

    /// Settles a job with what its synthesis came to.
    pub fn settle(&mut self, job_id: &str, outcome: &Result<AudioPayload, String>, now: u128)
        requires
            old(self).wf(),
        ensures
            final(self).wf(),
            final(self).next_job_id() == old(self).next_job_id(),
            final(self)@ == (if old(self)@.contains_key(job_id@) {
                old(self)@.insert(
                    job_id@,
                    match outcome {
                        Ok(audio) => old(self)@[job_id@].done(audio@, now),
                        Err(message) => old(self)@[job_id@].failed(message@, now),
                    },
                )
            } else {
                old(self)@
            }),
    {
        match outcome {
            Ok(audio) => self.mark_done(job_id, audio, now),
            Err(message) => self.mark_failed(job_id, message.clone(), now),
        }
    }

    fn insert(&mut self, job: JobInfo)
        requires
            old(self).wf(),
        ensures
            final(self).wf(),
            final(self).next_job_id() == old(self).next_job_id(),
            final(self)@ == old(self)@.insert(job@.job_id, job@),
    {
        let ghost before = self.jobs@;
        match self.find(job.job_id.as_str()) {
            Some(i) => {
                self.jobs.set(i, job);
                proof {
                    Self::lemma_updated(before, self.jobs@, i as int);
                }
            },
            None => {
                self.jobs.push(job);
                proof {
                    assert(self.jobs@.drop_last() =~= before);
                }
            },
        }
    }

    /// Queues a request under the next number, unless it takes the server to be in another mode.
    /// The numbers start over at 0 once they run out.
    pub fn submit_job(
        &mut self,
        mode: &FixedMode,
        defaults: &RequestDefaults,
        request: &SpeechRequest,
        now: u128,
    ) -> (r: Result<String, ApiError>)
        requires
            old(self).wf(),
        ensures
            final(self).wf(),
            match r {
                Ok(job_id) => {
                    &&& !switches_mode(mode@.spec_name(), *request)
                    &&& job_id@ == decimal(old(self).next_job_id() as nat)
                    &&& final(self).next_job_id() == (if old(self).next_job_id() == u64::MAX {
                        0
                    } else {
                        (old(self).next_job_id() + 1) as u64
                    })
                    &&& final(self)@ == old(self)@.insert(
                        job_id@,
                        JobModel::queued(
                            job_id@,
                            or_default(request.frames, defaults.max_audio_frames),
                            now,
                        ),
                    )
                },
                Err(e) => {
                    &&& switches_mode(mode@.spec_name(), *request)
                    &&& e@ == ApiErrorModel::bad_request(
                        mode_is_fixed(mode@.spec_name(), request.spec_kind()->Some_0),
                    )
                    &&& *final(self) == *old(self)
                },
            },
    {
        match validate_mode_request(mode.name(), request) {
            Ok(_) => {},
            Err(message) => {
                return Err(ApiError::bad_request(message));
            },
        }
        let job_id = decimal_text(self.next_job_id);
        self.next_job_id = if self.next_job_id == u64::MAX {
            0
        } else {
            self.next_job_id + 1
        };
        let max_frames = request.frames.unwrap_or(defaults.max_audio_frames);
        self.insert(
            JobInfo {
                job_id: job_id.clone(),
                status: JobStatus::Queued,
                stage: JobStage::Queued,
                progress: Progress::Percent(0),
                generated_frames: 0,
                max_frames,
                sample_rate_hz: None,
                error: None,
                created_at_ms: now,
                started_at_ms: None,
                finished_at_ms: None,
                audio: None,
            },
        );
        Ok(job_id)
    }

    /// The job of an id.
    pub fn get_job(&self, job_id: &str) -> (r: Result<&JobInfo, ApiError>)
        requires
            self.wf(),
        ensures
            match r {
                Ok(job) => self@.contains_key(job_id@) && job@ == self@[job_id@],
                Err(e) => !self@.contains_key(job_id@) && e@ == no_job(job_id@),
            },
    {
        match self.find(job_id) {
            Some(i) => Ok(&self.jobs[i]),
            None => {
                let mut message = "job not found: ".to_string();
                message.append(job_id);
                Err(ApiError::not_found(message))
            },
        }
    }

    /// The audio of a job that is done.
    pub fn get_job_audio(&self, job_id: &str) -> (r: Result<AudioPayload, ApiError>)
        requires
            self.wf(),
        ensures
            match r {
                Ok(audio) => audio_of(self@, job_id@) == Ok::<_, ApiErrorModel>(audio@),
                Err(e) => audio_of(self@, job_id@) == Err::<AudioModel, _>(e@),
            },
    {
        let job = match self.get_job(job_id) {
            Ok(job) => job,
            Err(e) => {
                return Err(e);
            },
        };
        if job.status == JobStatus::Failed {
            let message = match &job.error {
                Some(error) => error.clone(),
                None => "job failed".to_string(),
            };
            return Err(ApiError::bad_request(message));
        }
        match &job.audio {
            Some(bytes) => {
                let copied = bytes.clone();
                assert(copied@ =~= bytes@);
                Ok(
                    AudioPayload {
                        bytes: copied,
                        sample_rate_hz: job.sample_rate_hz.unwrap_or(SAMPLE_RATE_HZ),
                        generated_frames: job.generated_frames,
                    },
                )
            },
            None => Err(ApiError::conflict("job is not complete".to_string())),
        }
    }

    /// How many jobs are still to be done.
    pub fn queued_or_running_jobs(&self) -> (r: usize)
        requires
            self.wf(),
        ensures
            r == pending_ids(self@).len(),
    {
        let mut count: usize = 0;
        let mut i: usize = 0;
        proof {
            assert(self.jobs@.take(0) =~= Seq::<JobInfo>::empty());
            assert(pending_ids(by_id(self.jobs@.take(0))) =~= Set::<Seq<char>>::empty());
        }
        while i < self.jobs.len()
            invariant
                i <= self.jobs@.len(),
                count <= i,
                distinct_ids(self.jobs@),
                count == pending_ids(by_id(self.jobs@.take(i as int))).len(),
                pending_ids(by_id(self.jobs@.take(i as int))).finite(),
            decreases self.jobs@.len() - i,
        {
            let job = &self.jobs[i];
            proof {
                lemma_count_next(self.jobs@, i as int);
            }
            if job.status == JobStatus::Queued || job.status == JobStatus::Running {
                count = count + 1;
            }
            i = i + 1;
        }
        proof {
            assert(self.jobs@.take(i as int) =~= self.jobs@);
        }
        count
    }
}

/// The ids of the jobs that are still to be done.
pub open spec fn pending_ids(jobs: Map<Seq<char>, JobModel>) -> Set<Seq<char>> {
    jobs.dom().filter(|id: Seq<char>| jobs[id].pending())
}

proof fn lemma_count_next(jobs: Seq<JobInfo>, i: int)
    requires
        distinct_ids(jobs),
        0 <= i < jobs.len(),
        pending_ids(by_id(jobs.take(i))).finite(),
    ensures
        pending_ids(by_id(jobs.take(i + 1))).finite(),
        pending_ids(by_id(jobs.take(i + 1))).len() == pending_ids(by_id(jobs.take(i))).len() + (
        if jobs[i]@.pending() {
            1int
        } else {
            0int
        }),
{
    let rest = jobs.take(i);
    let more = jobs.take(i + 1);
    let id = jobs[i].job_id@;
    assert(more.drop_last() =~= rest);
    assert(more.last() == jobs[i]);
    assert(distinct_ids(rest)) by {
        assert forall|j: int, k: int| 0 <= j < k < rest.len() implies (
        #[trigger] rest[j]).job_id@ != (#[trigger] rest[k]).job_id@ by {
            assert(rest[j] == jobs[j] && rest[k] == jobs[k]);
        }
    }
    lemma_by_id(rest);
    assert(!by_id(rest).contains_key(id)) by {
        if by_id(rest).contains_key(id) {
            let j = choose|j: int| 0 <= j < rest.len() && (#[trigger] rest[j]).job_id@ == id;
            assert(rest[j] == jobs[j]);
        }
    }
    let a = pending_ids(by_id(rest));
    let b = pending_ids(by_id(more));
    if jobs[i]@.pending() {
        assert(b =~= a.insert(id));
    } else {
        assert(b =~= a);
    }
}

/// What is answered to a request for the audio of a job.
pub open spec fn audio_of(jobs: Map<Seq<char>, JobModel>, job_id: Seq<char>) -> Result<
    AudioModel,
    ApiErrorModel,
> {
    if !jobs.contains_key(job_id) {
        Err(no_job(job_id))
    } else {
        let job = jobs[job_id];
        if job.status == JobStatus::Failed {
            Err(
                ApiErrorModel::bad_request(
                    match job.error {
                        Some(error) => error,
                        None => "job failed"@,
                    },
                ),
            )
        } else {
            match job.audio {
                Some(bytes) => Ok(
                    AudioModel {
                        bytes,
                        sample_rate_hz: or_default(job.sample_rate_hz, SAMPLE_RATE_HZ),
                        generated_frames: job.generated_frames,
                    },
                ),
                None => Err(ApiErrorModel::conflict("job is not complete"@)),
            }
        }
    }
}

/// A job that has been marked as done is answered with the audio that it was marked with.
pub proof fn lemma_done_job_gives_its_audio(
    jobs: Map<Seq<char>, JobModel>,
    job_id: Seq<char>,
    audio: AudioModel,
    now: u128,
)
    requires
        jobs.contains_key(job_id),
    ensures
        audio_of(jobs.insert(job_id, jobs[job_id].done(audio, now)), job_id) == Ok::<
            _,
            ApiErrorModel,
        >(audio),
{
}

/// A job that has been marked as failed is answered with the reason.
pub proof fn lemma_failed_job_gives_its_error(
    jobs: Map<Seq<char>, JobModel>,
    job_id: Seq<char>,
    error: Seq<char>,
    now: u128,
)
    requires
        jobs.contains_key(job_id),
    ensures
        audio_of(jobs.insert(job_id, jobs[job_id].failed(error, now)), job_id) == Err::<
            AudioModel,
            _,
        >(ApiErrorModel::bad_request(error)),
{
}

/// A job that has been queued, and maybe taken up since, is answered with a conflict.
pub proof fn lemma_unfinished_job_is_a_conflict(
    jobs: Map<Seq<char>, JobModel>,
    job_id: Seq<char>,
    max_frames: usize,
    created: u128,
    started: u128,
    report: SynthesisProgress,
)
    ensures
        ({
            let queued = JobModel::queued(job_id, max_frames, created);
            let conflict = Err::<AudioModel, _>(
                ApiErrorModel::conflict("job is not complete"@),
            );
            &&& audio_of(jobs.insert(job_id, queued), job_id) == conflict
            &&& audio_of(jobs.insert(job_id, queued.running(started)), job_id) == conflict
            &&& audio_of(
                jobs.insert(job_id, queued.running(started).progressed(report)),
                job_id,
            ) == conflict
        }),
{
}

/// What happens to one job does not change what is answered for another.
pub proof fn lemma_other_jobs_unchanged(
    jobs: Map<Seq<char>, JobModel>,
    job_id: Seq<char>,
    job: JobModel,
    other: Seq<char>,
)
    requires
        other != job_id,
    ensures
        audio_of(jobs.insert(job_id, job), other) == audio_of(jobs, other),
        jobs.insert(job_id, job).contains_key(other) == jobs.contains_key(other),
        jobs.contains_key(other) ==> jobs.insert(job_id, job)[other] == jobs[other],
{
}

/// As long as the numbers have not run out, a new job takes no other job's place: every job is
/// under a number before the next one.
pub proof fn lemma_new_job_is_fresh(jobs: Map<Seq<char>, JobModel>, next: u64, job: JobModel)
    requires
        numbered_below(jobs, next as nat),
    ensures
        !jobs.contains_key(decimal(next as nat)),
        numbered_below(jobs.insert(decimal(next as nat), job), (next + 1) as nat),
{
    if jobs.contains_key(decimal(next as nat)) {
        let n = choose|n: nat| n < next && decimal(next as nat) == #[trigger] decimal(n);
        crate::text::lemma_decimal_injective(next as nat, n);
    }
    let more = jobs.insert(decimal(next as nat), job);
    assert forall|id: Seq<char>| #[trigger] more.contains_key(id) implies exists|n: nat|
        n < next + 1 && id == #[trigger] decimal(n) by {
        if id == decimal(next as nat) {
        } else {
            assert(jobs.contains_key(id));
            let n = choose|n: nat| n < next && id == #[trigger] decimal(n);
            assert(n < next + 1 && id == decimal(n));
        }
    }
}

/// Whether every job is under a number below `next`.
pub open spec fn numbered_below(jobs: Map<Seq<char>, JobModel>, next: nat) -> bool {
    forall|id: Seq<char>| #[trigger]
        jobs.contains_key(id) ==> exists|n: nat| n < next && id == #[trigger] decimal(n)
}

} // verus!
