//! The vocoder's dimensions.

use vstd::prelude::*;
use crate::real32::Real32;

verus! {

/// The model file's key for the output sample rate.
pub const SAMPLE_RATE_KEY: &'static str = "qwen3-tts.tokenizer.sample_rate";

/// The model file's key for the number of codebooks.
pub const NUM_CODEBOOKS_KEY: &'static str = "qwen3-tts.tokenizer.num_codebooks";

/// The model file's key for the number of entries of a codebook.
pub const CODEBOOK_SIZE_KEY: &'static str = "qwen3-tts.tokenizer.codebook_size";

/// The vocoder's dimensions.
#[derive(Debug, Clone, Copy, PartialEq, Eq, Structural)]
pub struct VocoderConfig {
    pub sample_rate: i32,
    pub n_codebooks: i32,
    pub codebook_size: i32,
    pub codebook_dim: i32,
    pub latent_dim: i32,
    pub hidden_dim: i32,
    pub n_pre_tfm_layers: i32,
    pub n_heads: i32,
    pub ffn_dim: i32,
    pub decoder_dim: i32,
    pub rms_norm_eps: Real32,
    pub rope_theta: Real32,
}

impl VocoderConfig {
    /// The dimensions of the published checkpoints.
    pub open spec fn published() -> VocoderConfig {
        VocoderConfig {
            sample_rate: 24_000,
            n_codebooks: 16,
            codebook_size: 2_048,
            codebook_dim: 256,
            latent_dim: 1_024,
            hidden_dim: 512,
            n_pre_tfm_layers: 8,
            n_heads: 16,
            ffn_dim: 1_024,
            decoder_dim: 1_536,
            rms_norm_eps: Real32 { bits: 0x3727_c5ac },
            rope_theta: Real32 { bits: 0x461c_4000 },
        }
    }

    /// The dimensions for which there is a vocoder: the codebooks after the first are at least
    /// none, and so are the layers.
    pub open spec fn countable(self) -> bool {
        self.n_codebooks >= 1 && self.n_pre_tfm_layers >= 0
    }

    /// The dimensions with the three that the model file may set replaced. A value that does not
    /// fit in an `i32` wraps around.
    pub fn with_metadata(self, sample_rate: u32, num_codebooks: u32, codebook_size: u32) -> (r:
        VocoderConfig)
        ensures
            r == (VocoderConfig {
                sample_rate: sample_rate as i32,
                n_codebooks: num_codebooks as i32,
                codebook_size: codebook_size as i32,
                ..self
            }),
    {
        VocoderConfig {
            sample_rate: #[verifier::truncate] (sample_rate as i32),
            n_codebooks: #[verifier::truncate] (num_codebooks as i32),
            codebook_size: #[verifier::truncate] (codebook_size as i32),
            codebook_dim: self.codebook_dim,
            latent_dim: self.latent_dim,
            hidden_dim: self.hidden_dim,
            n_pre_tfm_layers: self.n_pre_tfm_layers,
            n_heads: self.n_heads,
            ffn_dim: self.ffn_dim,
            decoder_dim: self.decoder_dim,
            rms_norm_eps: self.rms_norm_eps,
            rope_theta: self.rope_theta,
        }
    }
}

impl Default for VocoderConfig {
    fn default() -> (r: VocoderConfig)
        ensures
            r == VocoderConfig::published(),
    {
        VocoderConfig {
            sample_rate: 24_000,
            n_codebooks: 16,
            codebook_size: 2_048,
            codebook_dim: 256,
            latent_dim: 1_024,
            hidden_dim: 512,
            n_pre_tfm_layers: 8,
            n_heads: 16,
            ffn_dim: 1_024,
            decoder_dim: 1_536,
            rms_norm_eps: Real32 { bits: 0x3727_c5ac },
            rope_theta: Real32 { bits: 0x461c_4000 },
        }
    }
}

} // verus!
