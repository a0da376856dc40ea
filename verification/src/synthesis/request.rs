//! What is asked of a synthesis, and what it gives back.

use vstd::prelude::*;
use crate::real32::Real32;

verus! {

/// The output sample rate of the published checkpoints.
pub const SAMPLE_RATE_HZ: u32 = 24_000;

/// The parameters of a synthesis.
#[derive(Debug, Clone)]
pub struct SynthesizeRequest {
    pub text: String,
    /// A recording of the speaker.
    pub reference_wav_bytes: Option<Vec<u8>>,
    pub temperature: Real32,
    pub top_p: Real32,
    pub top_k: i32,
    pub max_audio_frames: usize,
    pub thread_count: usize,
    pub repetition_penalty: Real32,
    /// The codec's language id (e.g. 2050 for English, 2055 for Chinese, 2058 for Japanese).
    pub language_id: i32,
    /// How many frames the vocoder is handed at once while the transformer goes on generating. 0
    /// stands for vocoding all frames in the end.
    pub vocoder_chunk_size: usize,
}

impl Default for SynthesizeRequest {
    /// No text, the temperature 0.9, the top-p 1.0 and the repetition penalty 1.05.
    fn default() -> (r: SynthesizeRequest)
        ensures
            r.text@ == Seq::<char>::empty(),
            r.reference_wav_bytes is None,
            r.temperature.bits == 0x3f66_6666,
            r.top_p.bits == 0x3f80_0000,
            r.top_k == 50,
            r.max_audio_frames == 4096,
            r.thread_count == 4,
            r.repetition_penalty.bits == 0x3f86_6666,
            r.language_id == 2050,
            r.vocoder_chunk_size == 0,
    {
        SynthesizeRequest {
            text: String::new(),
            reference_wav_bytes: None,
            temperature: Real32 { bits: 0x3f66_6666 },
            top_p: Real32 { bits: 0x3f80_0000 },
            top_k: 50,
            max_audio_frames: 4096,
            thread_count: 4,
            repetition_penalty: Real32 { bits: 0x3f86_6666 },
            language_id: 2050,
            vocoder_chunk_size: 0,
        }
    }
}

/// The audio of a synthesis.
#[derive(Debug, Clone)]
pub struct SynthesizeResult {
    pub pcm_f32: Vec<Real32>,
    pub sample_rate_hz: u32,
    /// How many frames the transformer generated.
    pub generated_frames: usize,
}

} // verus!
