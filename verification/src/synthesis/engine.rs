//! The engine: a loaded model, and what it makes of requests.

use vstd::prelude::*;
use crate::error::Qwen3TtsError;
#[allow(unused_imports)]
use crate::error::ErrorModel;
use crate::paths::ModelPaths;
use crate::real32::Real32;
use crate::synthesis::frames::{
    first_tokens, flatten_frames, prefix_cut, samples_from, split_frames,
};
#[allow(unused_imports)]
use crate::synthesis::frames::{framed, leading_tokens, prefix_samples, tokens_of};
use crate::synthesis::pipelined::{VocoderChunk, VocoderWorker};
use crate::synthesis::request::{SynthesizeRequest, SynthesizeResult};
use crate::synthesis::timings::{Measured, SynthesisStageTimings};
use crate::synthesis::speaker::{pack, unpack};
#[allow(unused_imports)]
use crate::synthesis::speaker::{lemma_pack_unpacked, lemma_unpack_packed, packed, unpacked};
use crate::text::decimal_text;
#[allow(unused_imports)]
use crate::text::decimal;
use crate::vocoder::decode::DecodePlan;
#[allow(unused_imports)]
use crate::vocoder::decode::decodes;
use crate::vocoder::network::Vocoder;
use crate::voice_clone_prompt::VoiceClonePromptV2;

verus! {

/// A loaded model: where it comes from, the transformer's dimensions, and the vocoder.
pub struct Qwen3TtsEngine {
    paths: ModelPaths,
    hidden_size: u32,
    n_codebooks: u32,
    vocoder: Vocoder,
}

/// Where the speaker embedding of a synthesis comes from.
pub enum SpeakerSource<'a> {
    /// It is given.
    Given(&'a Vec<Real32>),
    /// It is to be encoded from this recording.
    Recording(&'a Vec<u8>),
    /// There is no speaker: it is zero.
    Zero(Vec<Real32>),
}

/// How a request is to be synthesised.
pub struct SynthesisPlan<'a> {
    pub speaker: SpeakerSource<'a>,
    /// The text of the reference take, where the request's text is spoken in continuation of it.
    pub ref_text: Option<&'a String>,
    /// The frames of the reference take.
    pub prompt_frames: Vec<Vec<i32>>,
    /// The first token of each frame of the reference take.
    pub ref_codebook_0: Vec<i32>,
    /// Whether the vocoder works beside the transformer.
    pub pipelined: bool,
}

/// Whether a plan takes the speaker from where it has to come: what was given before the prompt's
/// speaker, that one before the recording, and silence where there is none of them.
pub open spec fn speaks_as(
    speaker: SpeakerSource<'_>,
    req: SynthesizeRequest,
    given: Option<Seq<Real32>>,
    prompt: Option<VoiceClonePromptV2>,
    size: nat,
) -> bool {
    match given {
        Some(embedding) => speaker matches SpeakerSource::Given(e) && e@ == embedding,
        None => match prompt {
            Some(p) => speaker matches SpeakerSource::Given(e) && *e == p.ref_spk_embedding,
            None => match req.reference_wav_bytes {
                Some(bytes) => speaker matches SpeakerSource::Recording(b) && *b == bytes,
                None => speaker matches SpeakerSource::Zero(e) && e@ == Seq::new(
                    size,
                    |i: int| Real32 { bits: 0 },
                ),
            },
        },
    }
}

/// Whether a plan is the one for a request.
pub open spec fn plans(
    plan: SynthesisPlan<'_>,
    req: SynthesizeRequest,
    given: Option<Seq<Real32>>,
    prompt: Option<VoiceClonePromptV2>,
    size: nat,
) -> bool {
    &&& speaks_as(plan.speaker, req, given, prompt, size)
    &&& plan.pipelined == (req.vocoder_chunk_size > 0)
    &&& match prompt {
        Some(p) => {
            &&& plan.ref_text is Some <==> p.icl_mode
            &&& plan.ref_text matches Some(text) ==> text@ == p.ref_text@
            &&& match p.ref_code {
                Some(code) => {
                    &&& tokens_of(plan.prompt_frames@) == framed(
                        code.values@,
                        code.frames as nat,
                        code.codebooks as nat,
                    )
                    &&& plan.ref_codebook_0@ == leading_tokens(
                        code.values@,
                        code.frames as nat,
                        code.codebooks as nat,
                    )
                },
                None => plan.prompt_frames@.len() == 0 && plan.ref_codebook_0@.len() == 0,
            }
        },
        None => plan.ref_text is None && plan.prompt_frames@.len() == 0
            && plan.ref_codebook_0@.len() == 0,
    }
}

/// What is said of a speaker embedding of the wrong length.
pub open spec fn wrong_embedding(size: nat) -> ErrorModel {
    ErrorModel::InvalidInput("speaker embedding must have "@ + decimal(size) + " elements"@)
}

/// The speaker embedding of `size` elements in a file, or what is said of the file.
pub open spec fn speaker_in(size: nat, bytes: Seq<u8>) -> Result<Seq<Real32>, ErrorModel> {
    if bytes.len() % 4 != 0 {
        Err(ErrorModel::InvalidInput("speaker.bin must be a raw little-endian f32 array"@))
    } else if bytes.len() != 4 * size {
        Err(
            ErrorModel::InvalidInput(
                "speaker.bin must contain "@ + decimal(size) + " f32 values"@,
            ),
        )
    } else {
        Ok(unpacked(bytes))
    }
}

/// A file written from a speaker embedding gives that embedding back, bit for bit, to a model of its
/// size. A model of another size refuses it.
pub proof fn lemma_speaker_file_round_trip(size: nat, embedding: Seq<Real32>)
    ensures
        packed(embedding).len() == 4 * embedding.len(),
        embedding.len() == size ==> speaker_in(size, packed(embedding)) == Ok::<_, ErrorModel>(
            embedding,
        ),
        embedding.len() != size ==> speaker_in(size, packed(embedding)) == Err::<Seq<Real32>, _>(
            ErrorModel::InvalidInput("speaker.bin must contain "@ + decimal(size) + " f32 values"@),
        ),
{
    lemma_unpack_packed(embedding);
}

/// A file that holds a speaker embedding is the one that is written from the embedding.
pub proof fn lemma_speaker_file_is_canonical(size: nat, bytes: Seq<u8>)
    requires
        speaker_in(size, bytes) is Ok,
    ensures
        speaker_in(size, bytes)->Ok_0.len() == size,
        packed(speaker_in(size, bytes)->Ok_0) == bytes,
{
    lemma_pack_unpacked(bytes);
}

impl Qwen3TtsEngine {
    /// The number of codes of a frame.
    pub closed spec fn spec_codebooks(&self) -> nat {
        self.n_codebooks as nat
    }

    /// The number of elements of a speaker embedding.
    pub closed spec fn spec_embedding_size(&self) -> nat {
        self.hidden_size as nat
    }

    /// The model's files.
    pub closed spec fn spec_paths(&self) -> ModelPaths {
        self.paths
    }

    /// The vocoder.
    pub closed spec fn spec_vocoder(&self) -> Vocoder {
        self.vocoder
    }

    /// The engine of what was loaded from the model's files.
    pub fn load(paths: ModelPaths, hidden_size: u32, n_codebooks: u32, vocoder: Vocoder) -> (r:
        Qwen3TtsEngine)
        ensures
            r.spec_paths() == paths,
            r.spec_embedding_size() == hidden_size,
            r.spec_codebooks() == n_codebooks,
            r.spec_vocoder() == vocoder,
    {
        Qwen3TtsEngine { paths, hidden_size, n_codebooks, vocoder }
    }

    /// The model's files.
    pub fn model_paths(&self) -> (r: &ModelPaths)
        ensures
            *r == self.spec_paths(),
    {
        &self.paths
    }

    /// The vocoder.
    pub fn vocoder(&self) -> (r: &Vocoder)
        ensures
            *r == self.spec_vocoder(),
    {
        &self.vocoder
    }

    /// The number of elements of a speaker embedding.
    pub fn speaker_embedding_size(&self) -> (r: usize)
        ensures
            r == self.spec_embedding_size(),
    {
        self.hidden_size as usize
    }

    /// The speaker embedding of a recording as a file, told what encoding the recording came to.
    pub fn encode_reference_speaker_bin(
        &self,
        encoded: Result<Vec<Real32>, Qwen3TtsError>,
    ) -> (r: Result<Vec<u8>, Qwen3TtsError>)
        ensures
            match (encoded, r) {
                (Ok(embedding), Ok(bytes)) => bytes@ == packed(embedding@),
                (Err(why), Err(e)) => e == why,
                _ => false,
            },
    {
        match encoded {
            Ok(embedding) => Ok(pack(&embedding)),
            Err(e) => Err(e),
        }
    }

    /// The speaker embedding in a file.
    pub fn decode_speaker_embedding_bin(&self, bin_bytes: &Vec<u8>) -> (r: Result<
        Vec<Real32>,
        Qwen3TtsError,
    >)
        ensures
            match r {
                Ok(embedding) => {
                    &&& speaker_in(self.spec_embedding_size(), bin_bytes@) == Ok::<_, ErrorModel>(
                        embedding@,
                    )
                    &&& embedding@.len() == self.spec_embedding_size()
                },
                Err(e) => speaker_in(self.spec_embedding_size(), bin_bytes@) == Err::<
                    Seq<Real32>,
                    _,
                >(e@),
            },
    {
        if bin_bytes.len() % 4 != 0 {
            return Err(
                Qwen3TtsError::InvalidInput(
                    "speaker.bin must be a raw little-endian f32 array".to_string(),
                ),
            );
        }
        let embedding = unpack(bin_bytes);
        if embedding.len() != self.speaker_embedding_size() {
            let mut text = "speaker.bin must contain ".to_string();
            text.append(decimal_text(self.hidden_size as u64).as_str());
            text.append(" f32 values");
            return Err(Qwen3TtsError::InvalidInput(text));
        }
        Ok(embedding)
    }

    /// Checks the length of a speaker embedding.
    pub fn validate_speaker_embedding(&self, speaker_embedding: &Vec<Real32>) -> (r: Result<
        (),
        Qwen3TtsError,
    >)
        ensures
            match r {
                Ok(_) => speaker_embedding@.len() == self.spec_embedding_size(),
                Err(e) => speaker_embedding@.len() != self.spec_embedding_size() && e@
                    == wrong_embedding(self.spec_embedding_size()),
            },
    {
        if speaker_embedding.len() != self.speaker_embedding_size() {
            let mut text = "speaker embedding must have ".to_string();
            text.append(decimal_text(self.hidden_size as u64).as_str());
            text.append(" elements");
            return Err(Qwen3TtsError::InvalidInput(text));
        }
        Ok(())
    }

    /// What is wrong with a prompt for this model, if anything.
    pub open spec fn prompt_fault(&self, prompt: VoiceClonePromptV2) -> Option<ErrorModel> {
        if prompt.ref_spk_embedding@.len() != self.spec_embedding_size() {
            Some(wrong_embedding(self.spec_embedding_size()))
        } else {
            match prompt.ref_code {
                Some(code) => if code.codebooks != self.spec_codebooks() {
                    Some(
                        ErrorModel::InvalidInput(
                            "voice clone prompt ref_code must have "@ + decimal(
                                self.spec_codebooks(),
                            ) + " codebooks per frame"@,
                        ),
                    )
                } else {
                    None
                },
                None => None,
            }
        }
    }

    /// Takes up what was read of a voice clone prompt, or why it could not be read.
    pub fn decode_voice_clone_prompt(&self, read: Result<VoiceClonePromptV2, Qwen3TtsError>) -> (r:
        Result<VoiceClonePromptV2, Qwen3TtsError>)
        ensures
            match (read, r) {
                (Ok(prompt), Ok(accepted)) => accepted == prompt && self.prompt_fault(
                    prompt,
                ) is None,
                (Ok(prompt), Err(e)) => self.prompt_fault(prompt) == Some(e@),
                (Err(_), Ok(_)) => false,
                (Err(why), Err(e)) => e == why,
            },
    {
        let prompt = match read {
            Ok(prompt) => prompt,
            Err(e) => {
                return Err(e);
            },
        };
        match self.validate_speaker_embedding(prompt.speaker_embedding()) {
            Ok(_) => {},
            Err(e) => {
                return Err(e);
            },
        }
        match &prompt.ref_code {
            Some(code) => {
                if code.codebooks != self.n_codebooks as usize {
                    let mut text = "voice clone prompt ref_code must have ".to_string();
                    text.append(decimal_text(self.n_codebooks as u64).as_str());
                    text.append(" codebooks per frame");
                    return Err(Qwen3TtsError::InvalidInput(text));
                }
            },
            None => {},
        }
        Ok(prompt)
    }

    /// Plans a synthesis with a speaker of its own.
    pub fn synthesize_with_speaker_embedding<'a>(
        &self,
        req: &'a SynthesizeRequest,
        speaker_embedding: &'a Vec<Real32>,
    ) -> (r: Result<SynthesisPlan<'a>, Qwen3TtsError>)
        ensures
            match r {
                Ok(plan) => speaker_embedding@.len() == self.spec_embedding_size() && plans(
                    plan,
                    *req,
                    Some(speaker_embedding@),
                    None,
                    self.spec_embedding_size(),
                ),
                Err(e) => speaker_embedding@.len() != self.spec_embedding_size() && e@
                    == wrong_embedding(self.spec_embedding_size()),
            },
    {
        match self.validate_speaker_embedding(speaker_embedding) {
            Ok(_) => Ok(self.synthesize_impl(req, Some(speaker_embedding), None)),
            Err(e) => Err(e),
        }
    }

    /// Plans a synthesis with the voice of a prompt.
    pub fn synthesize_with_voice_clone_prompt<'a>(
        &self,
        req: &'a SynthesizeRequest,
        prompt: &'a VoiceClonePromptV2,
    ) -> (r: Result<SynthesisPlan<'a>, Qwen3TtsError>)
        requires
            prompt.wf(),
        ensures
            match r {
                Ok(plan) => prompt.ref_spk_embedding@.len() == self.spec_embedding_size() && plans(
                    plan,
                    *req,
                    None,
                    Some(*prompt),
                    self.spec_embedding_size(),
                ),
                Err(e) => prompt.ref_spk_embedding@.len() != self.spec_embedding_size() && e@
                    == wrong_embedding(self.spec_embedding_size()),
            },
    {
        match self.validate_speaker_embedding(prompt.speaker_embedding()) {
            Ok(_) => Ok(self.synthesize_impl(req, None, Some(prompt))),
            Err(e) => Err(e),
        }
    }

    /// Plans a synthesis with the speaker of the request.
    pub fn synthesize<'a>(&self, req: &'a SynthesizeRequest) -> (r: SynthesisPlan<'a>)
        ensures
            plans(r, *req, None, None, self.spec_embedding_size()),
    {
        self.synthesize_impl(req, None, None)
    }

    /// A speaker embedding of zeros.
    fn zero_speaker(&self) -> (r: Vec<Real32>)
        ensures
            r@ == Seq::new(self.spec_embedding_size(), |i: int| Real32 { bits: 0 }),
    {
        let mut r: Vec<Real32> = Vec::new();
        let n: usize = self.speaker_embedding_size();
        let mut i: usize = 0;
        while i < n
            invariant
                i <= n,
                r@ == Seq::new(i as nat, |k: int| Real32 { bits: 0 }),
            decreases n - i,
        {
            r.push(Real32 { bits: 0 });
            i = i + 1;
            assert(r@ =~= Seq::new(i as nat, |k: int| Real32 { bits: 0 }));
        }
        r
    }

    /// Plans a synthesis.
    pub fn synthesize_impl<'a>(
        &self,
        req: &'a SynthesizeRequest,
        speaker_embedding_override: Option<&'a Vec<Real32>>,
        voice_clone_prompt: Option<&'a VoiceClonePromptV2>,
    ) -> (r: SynthesisPlan<'a>)
        requires
            voice_clone_prompt matches Some(prompt) ==> prompt.wf(),
        ensures
            plans(
                r,
                *req,
                match speaker_embedding_override {
                    Some(embedding) => Some(embedding@),
                    None => None,
                },
                match voice_clone_prompt {
                    Some(prompt) => Some(*prompt),
                    None => None,
                },
                self.spec_embedding_size(),
            ),
    {
        let speaker = match speaker_embedding_override {
            Some(embedding) => SpeakerSource::Given(embedding),
            None => match voice_clone_prompt {
                Some(prompt) => SpeakerSource::Given(prompt.speaker_embedding()),
                None => match &req.reference_wav_bytes {
                    Some(bytes) => SpeakerSource::Recording(bytes),
                    None => SpeakerSource::Zero(self.zero_speaker()),
                },
            },
        };
        let mut ref_text: Option<&'a String> = None;
        let mut prompt_frames: Vec<Vec<i32>> = Vec::new();
        let mut ref_codebook_0: Vec<i32> = Vec::new();
        match voice_clone_prompt {
            Some(prompt) => {
                match &prompt.ref_code {
                    Some(code) => {
                        prompt_frames = split_frames(&code.values, code.frames, code.codebooks);
                        ref_codebook_0 = first_tokens(&code.values, code.frames, code.codebooks);
                    },
                    None => {},
                }
                if prompt.icl_mode {
                    ref_text = Some(&prompt.ref_text);
                }
            },
            None => {},
        }
        SynthesisPlan {
            speaker,
            ref_text,
            prompt_frames,
            ref_codebook_0,
            pipelined: req.vocoder_chunk_size > 0,
        }
    }

    /// Plans the decoding of all frames of a rollout at once.
    pub fn synthesize_sequential(&self, frames: &Vec<Vec<i32>>) -> (r: Result<
        Option<DecodePlan>,
        Qwen3TtsError,
    >)
        requires
            frames@.len() > 0 ==> {
                &&& self.spec_vocoder().config.n_codebooks >= 0
                &&& frames@.len() * self.spec_vocoder().config.n_codebooks <= usize::MAX
            },
            frames@.len() > 0 && tokens_of(frames@).flatten().len() == frames@.len()
                * self.spec_vocoder().config.n_codebooks ==> {
                &&& self.spec_vocoder().decodable()
                &&& frames@.len() <= i32::MAX
            },
        ensures
            ({
                let codes = tokens_of(frames@).flatten();
                let codebooks = self.spec_vocoder().config.n_codebooks;
                match r {
                    Ok(None) => frames@.len() == 0,
                    Ok(Some(plan)) => {
                        &&& frames@.len() > 0
                        &&& codes.len() == frames@.len() * codebooks
                        &&& decodes(
                            plan,
                            self.spec_vocoder().config,
                            self.spec_vocoder().weights,
                            codes,
                            frames@.len() as usize,
                        )
                    },
                    Err(e) => {
                        &&& frames@.len() > 0
                        &&& codes.len() != frames@.len() * codebooks
                        &&& e@ == ErrorModel::InvalidInput("vocoder codes shape is invalid"@)
                    },
                }
            }),
    {
        let codes = flatten_frames(frames);
        self.vocoder.decode(&codes, frames.len())
    }

    /// The vocoder's side of a pipelined synthesis, and the chunk that it starts with: the frames
    /// of the reference take, where there are any.
    pub fn synthesize_pipelined(&self, plan: &SynthesisPlan<'_>) -> (r: (
        VocoderWorker,
        Option<VocoderChunk>,
    ))
        requires
            self.spec_vocoder().config.n_codebooks >= 0,
        ensures
            r.0.wf(),
            r.0.n_codebooks() == self.spec_vocoder().config.n_codebooks,
            r.0.pcm() == Seq::<Real32>::empty(),
            r.0.prev_n_frames() == 0,
            r.1 is Some <==> plan.prompt_frames@.len() > 0,
            r.1 matches Some(chunk) ==> chunk.n_frames == plan.prompt_frames@.len() && chunk.codes@
                == tokens_of(plan.prompt_frames@).flatten(),
    {
        let worker = VocoderWorker::new(self.vocoder.config.n_codebooks as usize);
        if plan.prompt_frames.len() > 0 {
            let codes = flatten_frames(&plan.prompt_frames);
            (worker, Some(VocoderChunk { codes, n_frames: plan.prompt_frames.len() }))
        } else {
            (worker, None)
        }
    }

    /// The result of a synthesis from all its audio: the audio of the reference take is cut off.
    /// `rolled_out` counts all frames of the rollout, those of the reference take first.
    pub fn finish(
        &self,
        plan: &SynthesisPlan<'_>,
        rolled_out: usize,
        pcm_all: Vec<Real32>,
    ) -> (r: SynthesizeResult)
        ensures
            ({
                let prefix = plan.prompt_frames@.len();
                let generated = if rolled_out > prefix {
                    (rolled_out - prefix) as nat
                } else {
                    0
                };
                let total = if plan.pipelined {
                    prefix + generated
                } else {
                    rolled_out as nat
                };
                &&& r.generated_frames == generated
                &&& r.pcm_f32@ == pcm_all@.skip(
                    prefix_samples(prefix, pcm_all@.len(), total) as int,
                )
                &&& r.sample_rate_hz == self.spec_vocoder().config.sample_rate as u32
            }),
    {
        let prefix = plan.prompt_frames.len();
        let generated_frames: usize = if rolled_out > prefix {
            rolled_out - prefix
        } else {
            0
        };
        let total: usize = if plan.pipelined {
            prefix + generated_frames
        } else {
            rolled_out
        };
        let sample_rate_hz = #[verifier::truncate] (self.vocoder.config.sample_rate as u32);
        let cut = prefix_cut(prefix, pcm_all.len(), total);
        if cut == 0 {
            assert(pcm_all@.skip(0) =~= pcm_all@);
            return SynthesizeResult { pcm_f32: pcm_all, sample_rate_hz, generated_frames };
        }
        SynthesizeResult { pcm_f32: samples_from(&pcm_all, cut), sample_rate_hz, generated_frames }
    }

    /// A synthesis with the timings of its stages, told what the synthesis came to and what was
    /// measured of it: the result is that of the synthesis, and they fail together. A pipelined
    /// synthesis took `wall_clock` on its two sides together.
    pub fn synthesize_with_profile(
        &self,
        plan: &SynthesisPlan<'_>,
        synthesized: Result<SynthesizeResult, Qwen3TtsError>,
        measured: Measured,
        wall_clock: u128,
    ) -> (r: Result<(SynthesizeResult, SynthesisStageTimings), Qwen3TtsError>)
        requires
            synthesized is Ok ==> measured.countable(plan.pipelined),
        ensures
            match (synthesized, r) {
                (Ok(result), Ok((same, timings))) => {
                    &&& same == result
                    &&& timings == measured.timings(
                        plan.pipelined,
                        wall_clock,
                        result.pcm_f32@.len(),
                        result.sample_rate_hz,
                    )
                    &&& timings.generated_samples == result.pcm_f32@.len()
                    &&& timings.sample_rate_hz == result.sample_rate_hz
                    &&& timings.first_frame_latency >= timings.speaker_encode + timings.tokenize
                        + timings.prefill_build
                },
                (Err(why), Err(e)) => e == why,
                _ => false,
            },
    {
        let result = match synthesized {
            Ok(result) => result,
            Err(e) => {
                return Err(e);
            },
        };
        let timings = if plan.pipelined {
            measured.pipelined(wall_clock, result.pcm_f32.len(), result.sample_rate_hz)
        } else {
            measured.sequential(result.pcm_f32.len(), result.sample_rate_hz)
        };
        Ok((result, timings))
    }
}

} // verus!
