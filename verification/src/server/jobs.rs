//! The jobs of a server, from being queued to being done or failed.

use vstd::prelude::*;
#[allow(unused_imports)]
use crate::text::text_in;

verus! {

/// How far a job has come.
#[derive(Debug, Clone, Copy, PartialEq, Eq, Structural)]
pub enum JobStatus {
    Queued,
    Running,
    Done,
    Failed,
}

impl JobStatus {
    /// The status's name.
    pub open spec fn spec_name(self) -> Seq<char> {
        match self {
            JobStatus::Queued => "queued"@,
            JobStatus::Running => "running"@,
            JobStatus::Done => "done"@,
            JobStatus::Failed => "failed"@,
        }
    }

    /// The status's name.
    pub fn as_str(self) -> (r: &'static str)
        ensures
            r@ == self.spec_name(),
    {
        match self {
            JobStatus::Queued => "queued",
            JobStatus::Running => "running",
            JobStatus::Done => "done",
            JobStatus::Failed => "failed",
        }
    }
}

/// What is being done for a job.
#[derive(Debug, Clone, Copy, PartialEq, Eq, Structural)]
pub enum JobStage {
    Queued,
    Preparing,
    Prefill,
    Rollout,
    Vocoder,
    Done,
    Failed,
}

impl JobStage {
    /// The stage's name.
    pub open spec fn spec_name(self) -> Seq<char> {
        match self {
            JobStage::Queued => "queued"@,
            JobStage::Preparing => "preparing"@,
            JobStage::Prefill => "prefill"@,
            JobStage::Rollout => "rollout"@,
            JobStage::Vocoder => "vocoder"@,
            JobStage::Done => "done"@,
            JobStage::Failed => "failed"@,
        }
    }

    /// The stage's name.
    pub fn as_str(self) -> (r: &'static str)
        ensures
            r@ == self.spec_name(),
    {
        match self {
            JobStage::Queued => "queued",
            JobStage::Preparing => "preparing",
            JobStage::Prefill => "prefill",
            JobStage::Rollout => "rollout",
            JobStage::Vocoder => "vocoder",
            JobStage::Done => "done",
            JobStage::Failed => "failed",
        }
    }
}

/// What a synthesis reports that it is at.
#[derive(Debug, Clone, Copy, PartialEq, Eq, Structural)]
pub enum SynthesisProgressStage {
    Preparing,
    Prefill,
    Rollout,
    Vocoder,
    Done,
}

/// What a synthesis reports of itself.
#[derive(Debug, Clone, Copy, PartialEq, Eq, Structural)]
pub struct SynthesisProgress {
    pub stage: SynthesisProgressStage,
    pub generated_frames: usize,
    pub max_frames: usize,
}

/// How much of a job has been done.
#[derive(Debug, Clone, Copy, PartialEq, Eq, Structural)]
pub enum Progress {
    /// So many hundredths.
    Percent(u8),
    /// Five hundredths, and of eighty-five more the share of the frames that have been generated.
    Rollout { generated_frames: usize, max_frames: usize },
}

impl Progress {
    /// The number of frames that the share is taken of: at least one.
    pub open spec fn whole(self) -> nat {
        match self {
            Progress::Percent(_) => 1,
            Progress::Rollout { max_frames, .. } => if max_frames < 1 {
                1
            } else {
                max_frames as nat
            },
        }
    }

    /// How much has been done, in parts of a hundred times [`Progress::whole`].
    pub open spec fn parts(self) -> nat {
        match self {
            Progress::Percent(n) => n as nat,
            Progress::Rollout { generated_frames, .. } => 5 * self.whole() + 85 * (
            if generated_frames < self.whole() {
                generated_frames as nat
            } else {
                self.whole()
            }),
        }
    }

    /// Whether no more has been done at `self` than at `later`.
    pub open spec fn at_most(self, later: Progress) -> bool {
        self.parts() * later.whole() <= later.parts() * self.whole()
    }
}

/// A job.
#[derive(Debug)]
pub struct JobInfo {
    pub job_id: String,
    pub status: JobStatus,
    pub stage: JobStage,
    pub progress: Progress,
    pub generated_frames: usize,
    pub max_frames: usize,
    pub sample_rate_hz: Option<u32>,
    pub error: Option<String>,
    pub created_at_ms: u128,
    pub started_at_ms: Option<u128>,
    pub finished_at_ms: Option<u128>,
    pub audio: Option<Vec<u8>>,
}

/// What contracts say of a [`JobInfo`].
pub struct JobModel {
    pub job_id: Seq<char>,
    pub status: JobStatus,
    pub stage: JobStage,
    pub progress: Progress,
    pub generated_frames: usize,
    pub max_frames: usize,
    pub sample_rate_hz: Option<u32>,
    pub error: Option<Seq<char>>,
    pub created_at_ms: u128,
    pub started_at_ms: Option<u128>,
    pub finished_at_ms: Option<u128>,
    pub audio: Option<Seq<u8>>,
}

/// The bytes in an option, where there are any.
pub open spec fn bytes_in(bytes: Option<Vec<u8>>) -> Option<Seq<u8>> {
    match bytes {
        Some(b) => Some(b@),
        None => None,
    }
}

impl View for JobInfo {
    type V = JobModel;

    open spec fn view(&self) -> JobModel {
        JobModel {
            job_id: self.job_id@,
            status: self.status,
            stage: self.stage,
            progress: self.progress,
            generated_frames: self.generated_frames,
            max_frames: self.max_frames,
            sample_rate_hz: self.sample_rate_hz,
            error: text_in(self.error),
            created_at_ms: self.created_at_ms,
            started_at_ms: self.started_at_ms,
            finished_at_ms: self.finished_at_ms,
            audio: bytes_in(self.audio),
        }
    }
}

/// The audio of a job.
#[derive(Debug)]
pub struct AudioPayload {
    pub bytes: Vec<u8>,
    pub sample_rate_hz: u32,
    pub generated_frames: usize,
}

/// What contracts say of an [`AudioPayload`].
pub struct AudioModel {
    pub bytes: Seq<u8>,
    pub sample_rate_hz: u32,
    pub generated_frames: usize,
}

impl View for AudioPayload {
    type V = AudioModel;

    open spec fn view(&self) -> AudioModel {
        AudioModel {
            bytes: self.bytes@,
            sample_rate_hz: self.sample_rate_hz,
            generated_frames: self.generated_frames,
        }
    }
}

impl JobModel {
    /// A job that has just been queued.
    pub open spec fn queued(job_id: Seq<char>, max_frames: usize, now: u128) -> JobModel {
        JobModel {
            job_id,
            status: JobStatus::Queued,
            stage: JobStage::Queued,
            progress: Progress::Percent(0),
            generated_frames: 0,
            max_frames,
            sample_rate_hz: None,
            error: None,
            created_at_ms: now,
            started_at_ms: None,
            finished_at_ms: None,
            audio: None,
        }
    }

    /// The job once it is being worked on.
    pub open spec fn running(self, now: u128) -> JobModel {
        JobModel {
            status: JobStatus::Running,
            stage: JobStage::Preparing,
            progress: Progress::Percent(1),
            started_at_ms: Some(now),
            ..self
        }
    }

    /// The job once its synthesis has reported.
    pub open spec fn progressed(self, progress: SynthesisProgress) -> JobModel {
        JobModel {
            status: JobStatus::Running,
            stage: stage_of(progress.stage),
            progress: progress_of(progress),
            generated_frames: progress.generated_frames,
            max_frames: progress.max_frames,
            ..self
        }
    }

    /// The job once it is done.
    pub open spec fn done(self, audio: AudioModel, now: u128) -> JobModel {
        JobModel {
            status: JobStatus::Done,
            stage: JobStage::Done,
            progress: Progress::Percent(100),
            generated_frames: audio.generated_frames,
            sample_rate_hz: Some(audio.sample_rate_hz),
            finished_at_ms: Some(now),
            audio: Some(audio.bytes),
            ..self
        }
    }

    /// The job once it has failed.
    pub open spec fn failed(self, error: Seq<char>, now: u128) -> JobModel {
        JobModel {
            status: JobStatus::Failed,
            stage: JobStage::Failed,
            error: Some(error),
            finished_at_ms: Some(now),
            ..self
        }
    }

    /// Whether the job is still to be done.
    pub open spec fn pending(self) -> bool {
        self.status == JobStatus::Queued || self.status == JobStatus::Running
    }
}

/// The stage of a job whose synthesis reports to be at a stage.
pub open spec fn stage_of(stage: SynthesisProgressStage) -> JobStage {
    match stage {
        SynthesisProgressStage::Preparing => JobStage::Preparing,
        SynthesisProgressStage::Prefill => JobStage::Prefill,
        SynthesisProgressStage::Rollout => JobStage::Rollout,
        SynthesisProgressStage::Vocoder => JobStage::Vocoder,
        SynthesisProgressStage::Done => JobStage::Done,
    }
}

/// How much of a job has been done when its synthesis reports.
pub open spec fn progress_of(progress: SynthesisProgress) -> Progress {
    match progress.stage {
        SynthesisProgressStage::Preparing => Progress::Percent(2),
        SynthesisProgressStage::Prefill => Progress::Percent(5),
        SynthesisProgressStage::Rollout => Progress::Rollout {
            generated_frames: progress.generated_frames,
            max_frames: progress.max_frames,
        },
        SynthesisProgressStage::Vocoder => Progress::Percent(95),
        SynthesisProgressStage::Done => Progress::Percent(100),
    }
}

/// The place of a stage among those of a synthesis.
pub open spec fn rank(stage: SynthesisProgressStage) -> int {
    match stage {
        SynthesisProgressStage::Preparing => 0,
        SynthesisProgressStage::Prefill => 1,
        SynthesisProgressStage::Rollout => 2,
        SynthesisProgressStage::Vocoder => 3,
        SynthesisProgressStage::Done => 4,
    }
}

/// Progress is never less than nothing or more than all, it is all only when the synthesis is done,
/// and it does not go back while a synthesis goes from stage to stage and generates frames.
pub proof fn lemma_progress_is_monotone(earlier: SynthesisProgress, later: SynthesisProgress)
    requires
        rank(earlier.stage) < rank(later.stage) || earlier.stage == later.stage
            && earlier.max_frames == later.max_frames && earlier.generated_frames
            <= later.generated_frames,
    ensures
        0 <= progress_of(earlier).parts() <= 100 * progress_of(earlier).whole(),
        progress_of(earlier).parts() == 100 * progress_of(earlier).whole() <==> earlier.stage
            == SynthesisProgressStage::Done,
        progress_of(earlier).at_most(progress_of(later)),
{
    let a = progress_of(earlier);
    let b = progress_of(later);
    let (m, d) = (a.whole(), b.whole());
    assert(a.parts() <= 100 * m);
    if earlier.stage == SynthesisProgressStage::Rollout && later.stage
        == SynthesisProgressStage::Rollout {
        assert(a.parts() * d <= b.parts() * m) by (nonlinear_arith)
            requires
                a.parts() <= b.parts(),
                m == d,
        ;
    } else if earlier.stage == SynthesisProgressStage::Rollout {
        assert(a.parts() * d <= b.parts() * m) by (nonlinear_arith)
            requires
                a.parts() <= 90 * m,
                b.parts() >= 95,
                d == 1,
        ;
    } else {
        assert(a.parts() * d <= b.parts() * m) by (nonlinear_arith)
            requires
                m == 1,
                d >= 1,
                (d == 1 && a.parts() <= b.parts()) || (a.parts() <= 5 && b.parts() >= 5 * d),
        ;
    }
}

} // verus!
