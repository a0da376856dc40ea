//! What a synthesis is made of, and what it comes to.

use vstd::prelude::*;
#[allow(unused_imports)]
use crate::error::{ErrorModel, Qwen3TtsError};
#[allow(unused_imports)]
use crate::real32::Real32;
#[allow(unused_imports)]
use crate::synthesis::engine::{Qwen3TtsEngine, SpeakerSource, SynthesisPlan};
#[allow(unused_imports)]
use crate::synthesis::frames::{first_tokens, flatten_frames, prefix_cut, split_frames};
#[allow(unused_imports)]
use crate::synthesis::frames::{framed, leading_tokens, tokens_of};
#[allow(unused_imports)]
use crate::synthesis::pipelined::{vocoder_threads, VocoderChunk, VocoderWorker};
#[allow(unused_imports)]
use crate::synthesis::request::{SynthesizeRequest, SynthesizeResult};
#[allow(unused_imports)]
use crate::synthesis::speaker::{pack, unpack};
#[allow(unused_imports)]
use crate::synthesis::timings::{Measured, SynthesisStageTimings};
#[allow(unused_imports)]
use crate::text::decimal;
#[allow(unused_imports)]
use crate::vocoder::decode::DecodePlan;
#[allow(unused_imports)]
use crate::vocoder::network::Vocoder;
#[allow(unused_imports)]
use crate::voice_clone_prompt::VoiceClonePromptV2;

verus! {

/// What a request asks for where it asks for nothing: no text and no recording, a temperature of
/// 0.9, a top-p of 1, the 50 likeliest tokens, a repetition penalty of 1.05, 4096 frames, four
/// threads, English, and all frames vocoded in the end.
pub proof fn lemma_default_request(r: SynthesizeRequest)
    requires
        call_ensures(SynthesizeRequest::default, (), r),
    ensures
        r.text@.len() == 0,
        r.reference_wav_bytes is None,
        r.temperature.bits == 0x3f66_6666,
        r.top_p.bits == 0x3f80_0000,
        r.top_k == 50,
        r.repetition_penalty.bits == 0x3f86_6666,
        r.max_audio_frames == 4096,
        r.thread_count == 4,
        r.language_id == 2050,
        r.vocoder_chunk_size == 0,
{
}

/// A number is packed into four bytes, the least significant first, and unpacked from them.
pub proof fn lemma_numbers_in_bytes(
    values: Vec<Real32>,
    bytes: Vec<u8>,
    read: Vec<Real32>,
    i: int,
)
    requires
        call_ensures(pack, (&values,), bytes),
        call_ensures(unpack, (&bytes,), read),
        0 <= i < values@.len(),
    ensures
        bytes@.len() == 4 * values@.len(),
        bytes@[4 * i] + 256 * bytes@[4 * i + 1] + 65_536 * bytes@[4 * i + 2] + 16_777_216 * bytes@[4
            * i + 3] == values@[i].bits,
        read@ == values@,
{
    crate::synthesis::speaker::lemma_unpack_packed(values@);
    let read_bits = read@[i].bits;
    assert(read_bits == values@[i].bits);
    let n = values@[i].bits as int;
    assert(4 * i / 4 == i && (4 * i + 1) / 4 == i && (4 * i + 2) / 4 == i && (4 * i + 3) / 4 == i);
    assert(n / 0x1_0000 == (n / 0x100) / 0x100);
    assert(n / 0x100_0000 == (n / 0x1_0000) / 0x100);
}

/// Unpacking reads every four bytes as a number, the least significant first.
pub proof fn lemma_bytes_as_numbers(bytes: Vec<u8>, read: Vec<Real32>, i: int)
    requires
        call_ensures(unpack, (&bytes,), read),
        0 <= 4 * i,
        4 * i + 3 < bytes@.len(),
    ensures
        read@.len() == bytes@.len() / 4,
        read@[i].bits == bytes@[4 * i] + 256 * bytes@[4 * i + 1] + 65_536 * bytes@[4 * i + 2]
            + 16_777_216 * bytes@[4 * i + 3],
{
}

/// A speaker file is read back as the embedding that it was written from, by a model of its size.
/// One of another length is refused, and so is one that holds no whole numbers.
pub proof fn lemma_speaker_files(
    engine: Qwen3TtsEngine,
    embedding: Vec<Real32>,
    written: Result<Vec<u8>, Qwen3TtsError>,
    file: Vec<u8>,
    read: Result<Vec<Real32>, Qwen3TtsError>,
)
    requires
        call_ensures(
            Qwen3TtsEngine::encode_reference_speaker_bin,
            (&engine, Ok::<_, Qwen3TtsError>(embedding)),
            written,
        ),
        call_ensures(Qwen3TtsEngine::decode_speaker_embedding_bin, (&engine, &file), read),
    ensures
        written is Ok,
        file@ == written->Ok_0@ && embedding@.len() == engine.spec_embedding_size() ==> read is Ok
            && read->Ok_0@ == embedding@,
        read is Ok <==> file@.len() == 4 * engine.spec_embedding_size(),
        file@.len() % 4 != 0 ==> read is Err && read->Err_0@ == ErrorModel::InvalidInput(
            "speaker.bin must be a raw little-endian f32 array"@,
        ),
        file@.len() % 4 == 0 && file@.len() != 4 * engine.spec_embedding_size() ==> read is Err
            && read->Err_0@ == ErrorModel::InvalidInput(
            "speaker.bin must contain "@ + decimal(engine.spec_embedding_size())
                + " f32 values"@,
        ),
{
    crate::synthesis::speaker::lemma_unpack_packed(embedding@);
}

/// A model has what it was loaded with: its files, the size of its embeddings, and its vocoder.
pub proof fn lemma_engine_is_what_was_loaded(
    paths: crate::paths::ModelPaths,
    hidden_size: u32,
    n_codebooks: u32,
    vocoder: Vocoder,
    engine: Qwen3TtsEngine,
    size: usize,
    files: &crate::paths::ModelPaths,
    same: &Vocoder,
)
    requires
        call_ensures(Qwen3TtsEngine::load, (paths, hidden_size, n_codebooks, vocoder), engine),
        call_ensures(Qwen3TtsEngine::speaker_embedding_size, (&engine,), size),
        call_ensures(Qwen3TtsEngine::model_paths, (&engine,), files),
        call_ensures(Qwen3TtsEngine::vocoder, (&engine,), same),
    ensures
        size == hidden_size,
        engine.spec_embedding_size() == hidden_size,
        engine.spec_codebooks() == n_codebooks,
        *files == paths,
        *same == vocoder,
{
}

/// A speaker that is given is the speaker, once it has the model's size.
pub proof fn lemma_given_speaker_speaks(
    engine: Qwen3TtsEngine,
    req: SynthesizeRequest,
    embedding: Vec<Real32>,
    r: Result<SynthesisPlan<'_>, Qwen3TtsError>,
)
    requires
        call_ensures(
            Qwen3TtsEngine::synthesize_with_speaker_embedding,
            (&engine, &req, &embedding),
            r,
        ),
    ensures
        r is Ok <==> embedding@.len() == engine.spec_embedding_size(),
        r matches Err(e) ==> e@ == ErrorModel::InvalidInput(
            "speaker embedding must have "@ + decimal(engine.spec_embedding_size())
                + " elements"@,
        ),
        r matches Ok(plan) ==> {
            &&& plan.speaker matches SpeakerSource::Given(e) && e@ == embedding@
            &&& plan.ref_text is None
            &&& plan.prompt_frames@.len() == 0 && plan.ref_codebook_0@.len() == 0
            &&& plan.pipelined <==> req.vocoder_chunk_size > 0
        },
{
}

/// A prompt's speaker is the speaker. Only where the prompt says so is the text spoken in
/// continuation of the reference take, whose frames come first either way.
pub proof fn lemma_prompt_speaks(
    engine: Qwen3TtsEngine,
    req: SynthesizeRequest,
    prompt: VoiceClonePromptV2,
    r: Result<SynthesisPlan<'_>, Qwen3TtsError>,
    frame: int,
    cb: int,
)
    requires
        call_ensures(
            Qwen3TtsEngine::synthesize_with_voice_clone_prompt,
            (&engine, &req, &prompt),
            r,
        ),
        prompt.wf(),
    ensures
        r is Ok <==> prompt.ref_spk_embedding@.len() == engine.spec_embedding_size(),
        r matches Err(e) ==> e@ == ErrorModel::InvalidInput(
            "speaker embedding must have "@ + decimal(engine.spec_embedding_size())
                + " elements"@,
        ),
        r matches Ok(plan) ==> {
            &&& plan.speaker matches SpeakerSource::Given(e) && e@ == prompt.ref_spk_embedding@
            &&& plan.pipelined <==> req.vocoder_chunk_size > 0
            &&& prompt.icl_mode ==> plan.ref_text is Some && plan.ref_text->0@ == prompt.ref_text@
            &&& !prompt.icl_mode ==> plan.ref_text is None
            &&& prompt.ref_code is None ==> plan.prompt_frames@.len() == 0
                && plan.ref_codebook_0@.len() == 0
            &&& prompt.ref_code matches Some(code) ==> {
                &&& plan.prompt_frames@.len() == code.frames
                &&& 0 <= frame < code.frames && 0 <= cb < code.codebooks ==> {
                    &&& plan.prompt_frames@[frame]@.len() == code.codebooks
                    &&& plan.prompt_frames@[frame]@[cb] == code.values@[frame * code.codebooks + cb]
                    &&& plan.ref_codebook_0@.len() == code.frames
                    &&& plan.ref_codebook_0@[frame] == plan.prompt_frames@[frame]@[0]
                }
            }
        },
{
    if r is Ok && prompt.ref_code is Some {
        let plan = r->Ok_0;
        let code = prompt.ref_code->0;
        let frames = framed(code.values@, code.frames as nat, code.codebooks as nat);
        assert(tokens_of(plan.prompt_frames@).len() == code.frames);
        if 0 <= frame < code.frames && 0 <= cb < code.codebooks {
            assert(tokens_of(plan.prompt_frames@)[frame] == frames[frame]);
            assert(0 <= frame * code.codebooks && frame * code.codebooks + code.codebooks
                <= code.frames * code.codebooks) by (nonlinear_arith)
                requires
                    0 <= frame < code.frames,
                    0 <= code.codebooks,
            ;
        }
    }
}

/// Without a speaker of its own or a prompt, a request is spoken by the speaker of its recording,
/// and by none at all where it has no recording: the embedding is zero.
pub proof fn lemma_request_speaks(
    engine: Qwen3TtsEngine,
    req: SynthesizeRequest,
    plan: SynthesisPlan<'_>,
)
    requires
        call_ensures(Qwen3TtsEngine::synthesize, (&engine, &req), plan),
    ensures
        req.reference_wav_bytes matches Some(bytes) ==> plan.speaker matches SpeakerSource::Recording(
            b,
        ) && b@ == bytes@,
        req.reference_wav_bytes is None ==> {
            &&& plan.speaker matches SpeakerSource::Zero(e)
            &&& e@.len() == engine.spec_embedding_size()
            &&& forall|i: int| 0 <= i < e@.len() ==> (#[trigger] e@[i]).bits == 0
        },
        plan.ref_text is None,
        plan.prompt_frames@.len() == 0 && plan.ref_codebook_0@.len() == 0,
        plan.pipelined <==> req.vocoder_chunk_size > 0,
{
}

/// What is given goes before a prompt, and a prompt before a recording.
pub proof fn lemma_order_of_speakers(
    engine: Qwen3TtsEngine,
    req: SynthesizeRequest,
    given: Option<&Vec<Real32>>,
    prompt: Option<&VoiceClonePromptV2>,
    plan: SynthesisPlan<'_>,
)
    requires
        call_ensures(Qwen3TtsEngine::synthesize_impl, (&engine, &req, given, prompt), plan),
    ensures
        given matches Some(e) ==> plan.speaker matches SpeakerSource::Given(s) && s@ == e@,
        given is None && prompt is Some ==> plan.speaker is Given && plan.speaker->Given_0@
            == prompt->0.ref_spk_embedding@,
        given is None && prompt is None && req.reference_wav_bytes is Some
            ==> plan.speaker is Recording && plan.speaker->Recording_0@
            == req.reference_wav_bytes->0@,
        given is None && prompt is None && req.reference_wav_bytes is None
            ==> plan.speaker is Zero,
        plan.pipelined <==> req.vocoder_chunk_size > 0,
        prompt matches Some(p) ==> (plan.ref_text is Some <==> p.icl_mode),
{
}

/// A prompt is taken up as it was read, once its speaker has the model's size and the frames of its
/// reference take the model's number of codes.
pub proof fn lemma_prompt_taken_up(
    engine: Qwen3TtsEngine,
    prompt: VoiceClonePromptV2,
    r: Result<VoiceClonePromptV2, Qwen3TtsError>,
)
    requires
        call_ensures(
            Qwen3TtsEngine::decode_voice_clone_prompt,
            (&engine, Ok::<_, Qwen3TtsError>(prompt)),
            r,
        ),
    ensures
        ({
            let sized = prompt.ref_spk_embedding@.len() == engine.spec_embedding_size();
            let coded = prompt.ref_code matches Some(code) ==> code.codebooks
                == engine.spec_codebooks();
            &&& r is Ok <==> sized && coded
            &&& r matches Ok(taken) ==> taken == prompt
            &&& !sized ==> r->Err_0@ == ErrorModel::InvalidInput(
                "speaker embedding must have "@ + decimal(engine.spec_embedding_size())
                    + " elements"@,
            )
            &&& sized && !coded ==> r->Err_0@ == ErrorModel::InvalidInput(
                "voice clone prompt ref_code must have "@ + decimal(engine.spec_codebooks())
                    + " codebooks per frame"@,
            )
        }),
{
}

/// Codes are cut into frames, and frames are put one behind the other: the one undoes the other, and
/// code `cb` of frame `i` is the one at `i * codebooks + cb`.
pub proof fn lemma_frames_and_codes(
    values: Vec<i32>,
    frames: usize,
    codebooks: usize,
    cut: Vec<Vec<i32>>,
    first: Vec<i32>,
    flat: Vec<i32>,
    i: int,
    cb: int,
)
    requires
        call_ensures(split_frames, (&values, frames, codebooks), cut),
        call_ensures(first_tokens, (&values, frames, codebooks), first),
        call_ensures(flatten_frames, (&cut,), flat),
        frames * codebooks == values@.len(),
    ensures
        flat@ == values@,
        cut@.len() == frames,
        0 <= i < frames && 0 <= cb < codebooks ==> {
            &&& cut@[i]@.len() == codebooks
            &&& cut@[i]@[cb] == values@[i * codebooks + cb]
            &&& first@.len() == frames
            &&& first@[i] == values@[i * codebooks]
        },
{
    crate::synthesis::frames::lemma_flatten_framed(values@, frames as nat, codebooks as nat);
    assert(values@.take(values@.len() as int) =~= values@);
    assert(tokens_of(cut@).len() == frames);
    if 0 <= i < frames && 0 <= cb < codebooks {
        assert(tokens_of(cut@)[i] == framed(values@, frames as nat, codebooks as nat)[i]);
        assert(0 <= i * codebooks && i * codebooks + codebooks <= frames * codebooks)
            by (nonlinear_arith)
            requires
                0 <= i < frames,
                0 <= codebooks,
        ;
    }
}

/// The audio of a synthesis is the end of all audio: where every frame has `per_frame` samples,
/// exactly the samples of the generated frames. Its sample rate is the vocoder's.
pub proof fn lemma_finished(
    engine: Qwen3TtsEngine,
    plan: SynthesisPlan<'_>,
    rolled_out: usize,
    pcm_all: Vec<Real32>,
    r: SynthesizeResult,
    per_frame: nat,
)
    requires
        call_ensures(Qwen3TtsEngine::finish, (&engine, &plan, rolled_out, pcm_all), r),
        plan.prompt_frames@.len() <= rolled_out,
        pcm_all@.len() == rolled_out * per_frame,
        plan.prompt_frames@.len() * pcm_all@.len() <= usize::MAX,
    ensures
        r.generated_frames == rolled_out - plan.prompt_frames@.len(),
        r.pcm_f32@.len() == r.generated_frames * per_frame,
        r.pcm_f32@ == pcm_all@.skip(pcm_all@.len() - r.pcm_f32@.len()),
        engine.spec_vocoder().config.sample_rate >= 0 ==> r.sample_rate_hz
            == engine.spec_vocoder().config.sample_rate,
{
    let prefix = plan.prompt_frames@.len();
    let generated = (rolled_out - prefix) as nat;
    assert(prefix + generated == rolled_out);
    if rolled_out > 0 {
        crate::synthesis::frames::lemma_cut_leaves_generated(prefix, generated, per_frame);
    } else {
        assert(0 * per_frame == 0) by (nonlinear_arith);
    }
    assert(generated * per_frame >= 0) by (nonlinear_arith);
}

/// The share of a prefix in some audio, as far as it can be counted.
pub proof fn lemma_prefix_share(prefix: usize, samples: usize, total: usize, r: usize)
    requires
        call_ensures(prefix_cut, (prefix, samples, total), r),
        prefix * samples <= usize::MAX,
    ensures
        prefix == 0 || total == 0 ==> r == 0,
        0 < prefix <= total ==> r * total <= prefix * samples < (r + 1) * total,
        prefix >= total && total > 0 ==> r == samples,
{
    let p = prefix as int;
    let n = samples as int;
    let t = total as int;
    if 0 < p && 0 < t {
        let q = (p * n) / t;
        assert(q * t <= p * n < (q + 1) * t) by (nonlinear_arith)
            requires
                q == (p * n) / t,
                t > 0,
        ;
        if p <= t {
            assert(q <= n) by (nonlinear_arith)
                requires
                    q * t <= p * n,
                    0 < p <= t,
                    n >= 0,
                    t > 0,
            ;
        }
        if p >= t {
            assert(q >= n) by (nonlinear_arith)
                requires
                    p * n < (q + 1) * t,
                    p >= t,
                    t > 0,
                    n >= 0,
            ;
        }
    }
}

/// The vocoder gets half of the threads beside the transformer, and one at least.
pub proof fn lemma_threads_are_halved(thread_count: usize, r: usize)
    requires
        call_ensures(vocoder_threads, (thread_count,), r),
    ensures
        r >= 1,
        thread_count >= 2 ==> 2 * r <= thread_count <= 2 * r + 1,
        thread_count < 2 ==> r == 1,
{
}

/// A worker that has decoded nothing hands a chunk on as it is. One that has decoded frames hands
/// it on behind the codes of the last of them.
pub proof fn lemma_chunk_behind_the_last_frame(
    worker: VocoderWorker,
    chunk: VocoderChunk,
    r: VocoderChunk,
)
    requires
        worker.wf(),
        call_ensures(VocoderWorker::request, (&worker, &chunk), r),
    ensures
        worker.prev_n_frames() == 0 ==> r.n_frames == chunk.n_frames && r.codes@ == chunk.codes@,
        worker.prev_n_frames() > 0 ==> {
            &&& r.n_frames == chunk.n_frames + 1
            &&& r.codes@ == worker.prev_codes().skip(
                worker.prev_codes().len() - worker.n_codebooks(),
            ) + chunk.codes@
        },
{
    assert(1 * worker.n_codebooks() == worker.n_codebooks());
}

/// How many samples are crossfaded: those of the one frame that the chunk was decoded behind, as far
/// as there is audio to crossfade with.
pub proof fn lemma_one_frame_is_crossfaded(
    worker: VocoderWorker,
    n_frames: usize,
    per_frame: nat,
    audio_len: usize,
    r: usize,
)
    requires
        call_ensures(VocoderWorker::overlap, (&worker, n_frames, audio_len), r),
        audio_len == per_frame * (n_frames + 1),
    ensures
        worker.prev_n_frames() == 0 ==> r == 0,
        worker.prev_n_frames() > 0 && worker.pcm().len() >= per_frame ==> r == per_frame,
        worker.prev_n_frames() > 0 && worker.pcm().len() < per_frame ==> r == worker.pcm().len(),
{
    let whole = n_frames + 1;
    assert((per_frame * whole) * 1 == per_frame * whole) by (nonlinear_arith);
    assert((per_frame * whole) / whole == per_frame) by (nonlinear_arith)
        requires
            whole > 0,
    ;
}

/// Taking up a chunk keeps all earlier audio but the tail that is crossfaded, puts the crossfade in
/// its place and the rest of the new audio behind it, and remembers the chunk.
pub proof fn lemma_chunk_taken_up(
    worker: &mut VocoderWorker,
    chunk: VocoderChunk,
    audio: Vec<Real32>,
    crossfade: Vec<Real32>,
)
    requires
        call_ensures(VocoderWorker::absorb, (worker, chunk, &audio, &crossfade), ()),
        crossfade@.len() <= old(worker).pcm().len(),
        crossfade@.len() <= audio@.len(),
    ensures
        ({
            let was = old(worker).pcm();
            let now = final(worker).pcm();
            let kept = was.len() - crossfade@.len();
            &&& now.len() == was.len() + audio@.len() - crossfade@.len()
            &&& now.take(kept) == was.take(kept)
            &&& now.subrange(kept, was.len() as int) == crossfade@
            &&& now.skip(was.len() as int) == audio@.skip(crossfade@.len() as int)
        }),
        final(worker).prev_codes() == chunk.codes@,
        final(worker).prev_n_frames() == chunk.n_frames,
        final(worker).n_codebooks() == old(worker).n_codebooks(),
{
}

/// The tail that is crossfaded is the end of the audio so far, and the audio in the end is all of it.
pub proof fn lemma_tail_and_whole(
    worker: VocoderWorker,
    overlap: usize,
    tail: Vec<Real32>,
    whole: Vec<Real32>,
)
    requires
        call_ensures(VocoderWorker::tail, (&worker, overlap), tail),
        call_ensures(VocoderWorker::into_pcm, (worker,), whole),
        overlap <= worker.pcm().len(),
    ensures
        whole@ == worker.pcm(),
        tail@ == whole@.skip(whole@.len() - overlap),
{
}

/// A pipelined synthesis starts with no audio, and with the frames of the reference take where there
/// are any.
pub proof fn lemma_pipeline_starts(
    engine: Qwen3TtsEngine,
    plan: SynthesisPlan<'_>,
    r: (VocoderWorker, Option<VocoderChunk>),
    codes: Vec<i32>,
)
    requires
        call_ensures(Qwen3TtsEngine::synthesize_pipelined, (&engine, &plan), r),
        call_ensures(flatten_frames, (&plan.prompt_frames,), codes),
    ensures
        r.0.pcm().len() == 0,
        r.0.prev_n_frames() == 0,
        r.0.n_codebooks() == engine.spec_vocoder().config.n_codebooks,
        plan.prompt_frames@.len() == 0 ==> r.1 is None,
        plan.prompt_frames@.len() > 0 ==> {
            &&& r.1 is Some
            &&& r.1->0.n_frames == plan.prompt_frames@.len()
            &&& r.1->0.codes@ == codes@
        },
{
}

/// What is told of how long a synthesis took: the stages as they were measured; behind them the
/// cutting of the audio and, unless the vocoder worked beside the transformer, the putting together
/// of the tokens. Until the first frame everything before the rollout counts as well. The two sides
/// of a pipelined synthesis overlapped by what they took together beyond the clock.
pub proof fn lemma_timings(
    measured: Measured,
    wall_clock: u128,
    samples: usize,
    rate: u32,
    plain: SynthesisStageTimings,
    piped: SynthesisStageTimings,
)
    requires
        measured.countable(false),
        measured.countable(true),
        call_ensures(Measured::sequential, (measured, samples, rate), plain),
        call_ensures(Measured::pipelined, (measured, wall_clock, samples, rate), piped),
    ensures
        plain.post == measured.trim + measured.flatten,
        piped.post == measured.trim,
        plain.pipeline_overlap == 0,
        measured.codec_rollout + measured.vocoder_decode >= wall_clock ==> piped.pipeline_overlap
            == measured.codec_rollout + measured.vocoder_decode - wall_clock,
        measured.codec_rollout + measured.vocoder_decode < wall_clock ==> piped.pipeline_overlap
            == 0,
        plain.first_frame_latency == measured.speaker_encode + measured.tokenize
            + measured.prefill_build + measured.first_frame,
        piped.first_frame_latency == plain.first_frame_latency,
        plain.speaker_encode == measured.speaker_encode && piped.speaker_encode
            == measured.speaker_encode,
        plain.tokenize == measured.tokenize && piped.tokenize == measured.tokenize,
        plain.prefill_build == measured.prefill_build && piped.prefill_build
            == measured.prefill_build,
        plain.codec_rollout == measured.codec_rollout && piped.codec_rollout
            == measured.codec_rollout,
        plain.vocoder_decode == measured.vocoder_decode && piped.vocoder_decode
            == measured.vocoder_decode,
        plain.generated_samples == samples && piped.generated_samples == samples,
        plain.sample_rate_hz == rate && piped.sample_rate_hz == rate,
{
}

/// An embedding is sound where it has the model's size.
pub proof fn lemma_embedding_checked(
    engine: Qwen3TtsEngine,
    embedding: Vec<Real32>,
    r: Result<(), Qwen3TtsError>,
)
    requires
        call_ensures(Qwen3TtsEngine::validate_speaker_embedding, (&engine, &embedding), r),
    ensures
        r is Ok <==> embedding@.len() == engine.spec_embedding_size(),
        r matches Err(e) ==> e@ == ErrorModel::InvalidInput(
            "speaker embedding must have "@ + decimal(engine.spec_embedding_size())
                + " elements"@,
        ),
{
}

/// Vocoding all frames at once is decoding their codes, put one behind the other.
pub proof fn lemma_all_frames_are_decoded(
    engine: Qwen3TtsEngine,
    frames: Vec<Vec<i32>>,
    codes: Vec<i32>,
    r: Result<Option<DecodePlan>, Qwen3TtsError>,
    same: Result<Option<DecodePlan>, Qwen3TtsError>,
)
    requires
        call_ensures(Qwen3TtsEngine::synthesize_sequential, (&engine, &frames), r),
        call_ensures(flatten_frames, (&frames,), codes),
        frames@.len() <= usize::MAX,
        call_ensures(
            Vocoder::decode,
            (&engine.spec_vocoder(), &codes, frames@.len() as usize),
            same,
        ),
    ensures
        r is Ok <==> same is Ok,
        r is Err ==> r->Err_0@ == same->Err_0@,
        r is Ok ==> (r->Ok_0 is Some <==> same->Ok_0 is Some),
        r is Ok && r->Ok_0 is Some ==> {
            let a = r->Ok_0->0;
            let b = same->Ok_0->0;
            &&& a.graph.exprs()[a.output as int] == b.graph.exprs()[b.output as int]
            &&& a.positions@ == b.positions@
            &&& a.codes@.len() == b.codes@.len()
            &&& forall|cb: int|
                0 <= cb < a.codes@.len() ==> (#[trigger] a.codes@[cb])@ == b.codes@[cb]@
        },
{
}

/// A synthesis with its timings gives what the synthesis gives, and the timings of its kind.
pub proof fn lemma_profiled(
    engine: Qwen3TtsEngine,
    plan: SynthesisPlan<'_>,
    result: SynthesizeResult,
    measured: Measured,
    wall_clock: u128,
    r: Result<(SynthesizeResult, SynthesisStageTimings), Qwen3TtsError>,
    plain: SynthesisStageTimings,
    piped: SynthesisStageTimings,
)
    requires
        call_ensures(
            Qwen3TtsEngine::synthesize_with_profile,
            (&engine, &plan, Ok::<_, Qwen3TtsError>(result), measured, wall_clock),
            r,
        ),
        result.pcm_f32@.len() <= usize::MAX,
        call_ensures(
            Measured::sequential,
            (measured, result.pcm_f32@.len() as usize, result.sample_rate_hz),
            plain,
        ),
        call_ensures(
            Measured::pipelined,
            (measured, wall_clock, result.pcm_f32@.len() as usize, result.sample_rate_hz),
            piped,
        ),
    ensures
        r is Ok,
        r->Ok_0.0 == result,
        plan.pipelined ==> r->Ok_0.1 == piped,
        !plan.pipelined ==> r->Ok_0.1 == plain,
{
}

/// Which measurements can be added up: what comes before the first frame, and what is added up
/// afterwards, each within the longest duration.
pub proof fn lemma_countable(measured: Measured, pipelined: bool, r: bool)
    requires
        call_ensures(Measured::is_countable, (measured, pipelined), r),
    ensures
        ({
            let longest: int = 18_446_744_073_709_551_615_999_999_999;
            let latency = measured.speaker_encode + measured.tokenize + measured.prefill_build
                + measured.first_frame;
            let after = if pipelined {
                measured.codec_rollout + measured.vocoder_decode
            } else {
                measured.trim + measured.flatten
            };
            r <==> latency <= longest && after <= longest
        }),
{
}

/// A chunk is decoded behind one frame, once there is one before it.
pub proof fn lemma_one_frame_of_context(worker: VocoderWorker, r: usize)
    requires
        call_ensures(VocoderWorker::context_frames, (&worker,), r),
    ensures
        worker.prev_n_frames() == 0 ==> r == 0,
        worker.prev_n_frames() > 0 ==> r == 1,
{
}

} // verus!
