//! How long the stages of a synthesis took. Durations are in nanoseconds.

use vstd::prelude::*;

verus! {

/// The longest duration: all seconds that a `u64` counts, and the nanoseconds of one more but the
/// last.
pub const LONGEST: u128 = 18_446_744_073_709_551_615_999_999_999;

/// What was measured during a synthesis.
#[derive(Debug, Clone, Copy, PartialEq, Eq, Structural)]
pub struct Measured {
    pub speaker_encode: u128,
    pub tokenize: u128,
    pub prefill_build: u128,
    pub codec_rollout: u128,
    /// From the start of the rollout to its first frame.
    pub first_frame: u128,
    pub vocoder_decode: u128,
    /// Putting the tokens of the frames together, and planning how they are decoded.
    pub flatten: u128,
    /// Cutting off the audio of the prompt.
    pub trim: u128,
}

/// How long the stages of a synthesis took, and how much audio it made.
#[derive(Debug, Clone, Copy, PartialEq, Eq, Structural)]
pub struct SynthesisStageTimings {
    pub speaker_encode: u128,
    pub tokenize: u128,
    pub prefill_build: u128,
    pub codec_rollout: u128,
    pub vocoder_decode: u128,
    pub post: u128,
    /// How much time the transformer and the vocoder worked side by side.
    pub pipeline_overlap: u128,
    /// From the start of the synthesis to its first frame.
    pub first_frame_latency: u128,
    pub generated_samples: usize,
    pub sample_rate_hz: u32,
}

impl Measured {
    /// From the start of the synthesis to its first frame.
    pub open spec fn latency(self) -> int {
        self.speaker_encode + self.tokenize + self.prefill_build + self.first_frame
    }

    /// Whether the durations that are added up are durations.
    pub open spec fn countable(self, pipelined: bool) -> bool {
        &&& self.latency() <= LONGEST
        &&& if pipelined {
            self.codec_rollout + self.vocoder_decode <= LONGEST
        } else {
            self.trim + self.flatten <= LONGEST
        }
    }

    /// Whether the durations that are added up are durations.
    pub fn is_countable(self, pipelined: bool) -> (r: bool)
        ensures
            r == self.countable(pipelined),
    {
        let each = self.speaker_encode <= LONGEST && self.tokenize <= LONGEST && self.prefill_build
            <= LONGEST && self.first_frame <= LONGEST;
        if !each || self.speaker_encode + self.tokenize + self.prefill_build + self.first_frame
            > LONGEST {
            return false;
        }
        if pipelined {
            self.codec_rollout <= LONGEST && self.vocoder_decode <= LONGEST && self.codec_rollout
                + self.vocoder_decode <= LONGEST
        } else {
            self.trim <= LONGEST && self.flatten <= LONGEST && self.trim + self.flatten <= LONGEST
        }
    }

    /// The timings of a synthesis. Only the two sides of a pipelined one work side by side, and only
    /// the other puts the tokens of its frames together afterwards.
    pub open spec fn timings(
        self,
        pipelined: bool,
        wall_clock: u128,
        generated_samples: nat,
        sample_rate_hz: u32,
    ) -> SynthesisStageTimings {
        SynthesisStageTimings {
            speaker_encode: self.speaker_encode,
            tokenize: self.tokenize,
            prefill_build: self.prefill_build,
            codec_rollout: self.codec_rollout,
            vocoder_decode: self.vocoder_decode,
            post: if pipelined {
                self.trim
            } else {
                (self.trim + self.flatten) as u128
            },
            pipeline_overlap: if pipelined && self.codec_rollout + self.vocoder_decode
                > wall_clock {
                (self.codec_rollout + self.vocoder_decode - wall_clock) as u128
            } else {
                0
            },
            first_frame_latency: self.latency() as u128,
            generated_samples: generated_samples as usize,
            sample_rate_hz,
        }
    }

    /// The timings of a synthesis that vocodes all frames in the end.
    pub fn sequential(self, generated_samples: usize, sample_rate_hz: u32) -> (r:
        SynthesisStageTimings)
        requires
            self.countable(false),
        ensures
            r == self.timings(false, 0, generated_samples as nat, sample_rate_hz),
    {
        SynthesisStageTimings {
            speaker_encode: self.speaker_encode,
            tokenize: self.tokenize,
            prefill_build: self.prefill_build,
            codec_rollout: self.codec_rollout,
            vocoder_decode: self.vocoder_decode,
            post: self.trim + self.flatten,
            pipeline_overlap: 0,
            first_frame_latency: self.speaker_encode + self.tokenize + self.prefill_build
                + self.first_frame,
            generated_samples,
            sample_rate_hz,
        }
    }

    /// The timings of a pipelined synthesis, whose two sides together took `wall_clock`.
    pub fn pipelined(self, wall_clock: u128, generated_samples: usize, sample_rate_hz: u32) -> (r:
        SynthesisStageTimings)
        requires
            self.countable(true),
        ensures
            r == self.timings(true, wall_clock, generated_samples as nat, sample_rate_hz),
    {
        let sum = self.codec_rollout + self.vocoder_decode;
        SynthesisStageTimings {
            speaker_encode: self.speaker_encode,
            tokenize: self.tokenize,
            prefill_build: self.prefill_build,
            codec_rollout: self.codec_rollout,
            vocoder_decode: self.vocoder_decode,
            post: self.trim,
            pipeline_overlap: if sum > wall_clock {
                sum - wall_clock
            } else {
                0
            },
            first_frame_latency: self.speaker_encode + self.tokenize + self.prefill_build
                + self.first_frame,
            generated_samples,
            sample_rate_hz,
        }
    }
}

} // verus!
