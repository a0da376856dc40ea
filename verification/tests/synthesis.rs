use qwen3_tts::error::Qwen3TtsError;
use qwen3_tts::paths::ModelPaths;
use qwen3_tts::real32::Real32;
use qwen3_tts::synthesis::engine::{Qwen3TtsEngine, SpeakerSource};
use qwen3_tts::synthesis::frames::{first_tokens, flatten_frames, prefix_cut, samples_from, split_frames};
use qwen3_tts::synthesis::pipelined::{vocoder_threads, VocoderChunk, VocoderWorker};
use qwen3_tts::synthesis::request::{SynthesizeRequest, SAMPLE_RATE_HZ};
use qwen3_tts::synthesis::speaker::{pack, unpack};
use qwen3_tts::synthesis::timings::{Measured, LONGEST};
use qwen3_tts::vocoder::config::VocoderConfig;
use qwen3_tts::vocoder::network::Vocoder;
use qwen3_tts::vocoder::weights::{load_order, TensorOutcome, VocoderWeights};
use qwen3_tts::voice_clone_prompt::{RefCode, VoiceClonePromptV2};

fn reals(values: &[f32]) -> Vec<Real32> {
    values.iter().map(|v| Real32::from_bits(v.to_bits())).collect()
}

fn floats(values: &[Real32]) -> Vec<f32> {
    values.iter().map(|v| f32::from_bits(v.bits)).collect()
}

fn message(error: Qwen3TtsError) -> String {
    match error {
        Qwen3TtsError::InvalidInput(text) => text,
        other => panic!("unexpected error: {other:?}"),
    }
}

fn vocoder(config: VocoderConfig) -> Vocoder {
    let rest = (config.n_codebooks - 1) as usize;
    let outcomes: Vec<TensorOutcome> = load_order(rest, config.n_pre_tfm_layers as usize)
        .iter()
        .map(|_| TensorOutcome::Ready)
        .collect();
    let weights = VocoderWeights::load(&config, &outcomes).unwrap();
    Vocoder { config, weights }
}

fn engine(hidden_size: u32, n_codebooks: u32) -> Qwen3TtsEngine {
    let paths = ModelPaths::new("main.gguf".to_string(), "vocoder.gguf".to_string());
    Qwen3TtsEngine::load(paths, hidden_size, n_codebooks, vocoder(VocoderConfig::default()))
}

#[test]
fn request_defaults() {
    let r = SynthesizeRequest::default();
    assert_eq!(f32::from_bits(r.temperature.bits), 0.9);
    assert_eq!(r.top_k, 50);
    assert_eq!(r.language_id, 2050);
}

#[test]
fn remaining_request_defaults() {
    let r = SynthesizeRequest::default();
    assert_eq!(r.text, "");
    assert!(r.reference_wav_bytes.is_none());
    assert_eq!(f32::from_bits(r.top_p.bits), 1.0);
    assert_eq!(f32::from_bits(r.repetition_penalty.bits), 1.05);
    assert_eq!(r.max_audio_frames, 4096);
    assert_eq!(r.thread_count, 4);
    assert_eq!(r.vocoder_chunk_size, 0);
    assert_eq!(SAMPLE_RATE_HZ, 24_000);
}

#[test]
fn speaker_files_are_little_endian() {
    let values = [0.0f32, 1.0, -2.5, f32::MIN_POSITIVE, f32::MAX, -0.0];
    let expected: Vec<u8> = values.iter().flat_map(|v| v.to_le_bytes()).collect();
    let bytes = pack(&reals(&values));
    assert_eq!(bytes, expected);
    assert_eq!(floats(&unpack(&bytes)), values);
    assert_eq!(pack(&unpack(&bytes)), bytes);
}

#[test]
fn speaker_files_must_be_whole_and_of_the_right_length() {
    let engine = engine(3, 16);
    let bytes = engine.encode_reference_speaker_bin(Ok(reals(&[0.25, -1.0, 3.5]))).unwrap();
    assert_eq!(bytes.len(), 12);
    let refused = engine.encode_reference_speaker_bin(Err(Qwen3TtsError::InvalidPath));
    assert!(matches!(refused, Err(Qwen3TtsError::InvalidPath)));
    let embedding = engine.decode_speaker_embedding_bin(&bytes).unwrap();
    assert_eq!(floats(&embedding), [0.25, -1.0, 3.5]);
    assert_eq!(
        message(engine.decode_speaker_embedding_bin(&bytes[..11].to_vec()).unwrap_err()),
        "speaker.bin must be a raw little-endian f32 array"
    );
    assert_eq!(
        message(engine.decode_speaker_embedding_bin(&bytes[..8].to_vec()).unwrap_err()),
        "speaker.bin must contain 3 f32 values"
    );
}

#[test]
fn engine_keeps_what_was_loaded() {
    let engine = engine(1024, 16);
    assert_eq!(engine.speaker_embedding_size(), 1024);
    assert_eq!(engine.model_paths().main_gguf, "main.gguf");
    assert_eq!(engine.vocoder().config().sample_rate, 24_000);
}

#[test]
fn embeddings_of_the_wrong_length_are_refused() {
    let engine = engine(4, 16);
    let req = SynthesizeRequest::default();
    let short = reals(&[1.0, 2.0, 3.0]);
    let error = engine.synthesize_with_speaker_embedding(&req, &short).err().unwrap();
    assert_eq!(message(error), "speaker embedding must have 4 elements");
    assert!(engine.validate_speaker_embedding(&reals(&[0.0; 4])).is_ok());
}

fn prompt(frames: usize, codebooks: usize, values: Vec<i32>, icl_mode: bool) -> VoiceClonePromptV2 {
    VoiceClonePromptV2 {
        icl_mode,
        ref_text: "reference".to_string(),
        ref_code: Some(RefCode { frames, codebooks, values }),
        ref_spk_embedding: reals(&[0.5, 0.5]),
    }
}

#[test]
fn prompts_must_fit_the_model() {
    let engine = engine(2, 3);
    let good = engine.decode_voice_clone_prompt(Ok(prompt(2, 3, vec![1, 2, 3, 4, 5, 6], true))).unwrap();
    assert_eq!(good.ref_text, "reference");
    let error = engine.decode_voice_clone_prompt(Ok(prompt(3, 2, vec![1, 2, 3, 4, 5, 6], true))).unwrap_err();
    assert_eq!(message(error), "voice clone prompt ref_code must have 3 codebooks per frame");
    let mut wrong = prompt(2, 2, vec![0; 4], true);
    wrong.ref_spk_embedding = reals(&[0.5]);
    assert_eq!(
        message(engine.decode_voice_clone_prompt(Ok(wrong)).unwrap_err()),
        "speaker embedding must have 2 elements"
    );
    let refused = engine.decode_voice_clone_prompt(Err(Qwen3TtsError::InvalidInput("bad bytes".to_string())));
    assert_eq!(message(refused.unwrap_err()), "bad bytes");
}

#[test]
fn plans_take_the_speaker_that_goes_first() {
    let engine = engine(2, 3);
    let mut req = SynthesizeRequest::default();
    match engine.synthesize(&req).speaker {
        SpeakerSource::Zero(e) => assert_eq!(floats(&e), [0.0, 0.0]),
        _ => panic!("expected no speaker"),
    }
    req.reference_wav_bytes = Some(vec![7, 8]);
    match engine.synthesize(&req).speaker {
        SpeakerSource::Recording(bytes) => assert_eq!(bytes, &vec![7, 8]),
        _ => panic!("expected the recording"),
    }
    let p = prompt(1, 3, vec![1, 2, 3], false);
    match engine.synthesize_with_voice_clone_prompt(&req, &p).ok().unwrap().speaker {
        SpeakerSource::Given(e) => assert_eq!(floats(e), [0.5, 0.5]),
        _ => panic!("expected the prompt's speaker"),
    }
    let own = reals(&[1.0, 2.0]);
    match engine.synthesize_impl(&req, Some(&own), Some(&p)).speaker {
        SpeakerSource::Given(e) => assert_eq!(floats(e), [1.0, 2.0]),
        _ => panic!("expected the given speaker"),
    }
}

#[test]
fn plans_cut_the_reference_take_into_frames() {
    let engine = engine(2, 3);
    let mut req = SynthesizeRequest::default();
    let p = prompt(2, 3, vec![1, 2, 3, 4, 5, 6], true);
    let plan = engine.synthesize_with_voice_clone_prompt(&req, &p).ok().unwrap();
    assert_eq!(plan.prompt_frames, vec![vec![1, 2, 3], vec![4, 5, 6]]);
    assert_eq!(plan.ref_codebook_0, vec![1, 4]);
    assert_eq!(plan.ref_text.unwrap(), "reference");
    assert!(!plan.pipelined);
    req.vocoder_chunk_size = 4;
    let q = prompt(1, 0, vec![], false);
    let plan = engine.synthesize_with_voice_clone_prompt(&req, &q).ok().unwrap();
    assert_eq!(plan.prompt_frames, vec![Vec::<i32>::new()]);
    assert!(plan.ref_codebook_0.is_empty());
    assert!(plan.ref_text.is_none());
    assert!(plan.pipelined);
}

#[test]
fn frames_are_split_and_put_back() {
    let values = vec![1, 2, 3, 4, 5, 6, 7];
    let frames = split_frames(&values, 3, 2);
    assert_eq!(frames, vec![vec![1, 2], vec![3, 4], vec![5, 6]]);
    assert_eq!(flatten_frames(&frames), vec![1, 2, 3, 4, 5, 6]);
    assert_eq!(first_tokens(&values, 3, 2), vec![1, 3, 5]);
    assert!(flatten_frames(&Vec::new()).is_empty());
}

#[test]
fn the_share_of_the_prompt_is_cut_off() {
    assert_eq!(prefix_cut(0, 100, 10), 0);
    assert_eq!(prefix_cut(3, 100, 10), 30);
    assert_eq!(prefix_cut(1, 100, 3), 33);
    assert_eq!(prefix_cut(5, 100, 3), 100);
    assert_eq!(prefix_cut(5, 100, 0), 0);
    assert_eq!(prefix_cut(usize::MAX, 4, 2), 4);
    assert_eq!(floats(&samples_from(&reals(&[1.0, 2.0, 3.0]), 2)), [3.0]);
}

#[test]
fn results_hold_the_generated_audio() {
    let engine = engine(2, 3);
    let req = SynthesizeRequest::default();
    let p = prompt(2, 3, vec![1, 2, 3, 4, 5, 6], true);
    let plan = engine.synthesize_with_voice_clone_prompt(&req, &p).ok().unwrap();
    let pcm: Vec<f32> = (0..10).map(|i| i as f32).collect();
    let result = engine.finish(&plan, 5, reals(&pcm));
    assert_eq!(result.generated_frames, 3);
    assert_eq!(result.sample_rate_hz, 24_000);
    assert_eq!(floats(&result.pcm_f32), [4.0, 5.0, 6.0, 7.0, 8.0, 9.0]);
    let plain = engine.synthesize(&req);
    assert_eq!(engine.finish(&plain, 5, reals(&pcm)).pcm_f32.len(), 10);
}

#[test]
fn pipelined_rollouts_cut_by_all_frames() {
    let engine = engine(2, 3);
    let mut req = SynthesizeRequest::default();
    req.vocoder_chunk_size = 2;
    let p = prompt(2, 3, vec![1, 2, 3, 4, 5, 6], true);
    let plan = engine.synthesize_with_voice_clone_prompt(&req, &p).ok().unwrap();
    // A rollout shorter than the prompt generated nothing, and all of the audio is the prompt's.
    let result = engine.finish(&plan, 1, reals(&[1.0, 2.0]));
    assert_eq!(result.generated_frames, 0);
    assert!(result.pcm_f32.is_empty());
}

#[test]
fn pipelined_synthesis_starts_with_the_prompt() {
    let engine = engine(2, 16);
    let req = SynthesizeRequest::default();
    let p = prompt(2, 16, (0..32).collect(), true);
    let plan = engine.synthesize_with_voice_clone_prompt(&req, &p).ok().unwrap();
    let (worker, chunk) = engine.synthesize_pipelined(&plan);
    let chunk = chunk.unwrap();
    assert_eq!(chunk.n_frames, 2);
    assert_eq!(chunk.codes, (0..32).collect::<Vec<i32>>());
    assert_eq!(worker.context_frames(), 0);
    let plain = engine.synthesize(&req);
    assert!(engine.synthesize_pipelined(&plain).1.is_none());
}

#[test]
fn sequential_synthesis_decodes_all_frames() {
    let engine = engine(2, 16);
    let frames: Vec<Vec<i32>> = vec![(0..16).collect(), (16..32).collect()];
    let plan = engine.synthesize_sequential(&frames).ok().unwrap().unwrap();
    assert_eq!(plan.positions, vec![0, 1]);
    assert_eq!(plan.codes.len(), 16);
    assert_eq!(plan.codes[3], vec![3, 19]);
    assert!(engine.synthesize_sequential(&Vec::new()).ok().unwrap().is_none());
    let error = engine.synthesize_sequential(&vec![vec![1, 2, 3]]).err().unwrap();
    assert_eq!(message(error), "vocoder codes shape is invalid");
}

fn linear_fade(tail: &[Real32], audio: &[Real32]) -> Vec<Real32> {
    let n = tail.len() as f32;
    let faded: Vec<f32> = tail
        .iter()
        .zip(audio)
        .enumerate()
        .map(|(i, (a, b))| {
            let t = (i as f32 + 0.5) / n;
            f32::from_bits(a.bits) * (1.0 - t) + f32::from_bits(b.bits) * t
        })
        .collect();
    reals(&faded)
}

#[test]
fn chunks_are_decoded_behind_the_last_frame() {
    let mut worker = VocoderWorker::new(2);
    let first = VocoderChunk { codes: vec![1, 2, 3, 4], n_frames: 2 };
    let asked = worker.request(&first);
    assert_eq!((asked.codes, asked.n_frames), (vec![1, 2, 3, 4], 2));
    let audio = reals(&[1.0; 8]);
    assert_eq!(worker.overlap(2, audio.len()), 0);
    worker.absorb(first, &audio, &Vec::new());

    let second = VocoderChunk { codes: vec![5, 6], n_frames: 1 };
    let asked = worker.request(&second);
    assert_eq!((asked.codes, asked.n_frames), (vec![3, 4, 5, 6], 2));
    let audio = reals(&[3.0, 3.0, 3.0, 3.0, 5.0, 5.0, 5.0, 5.0]);
    let overlap = worker.overlap(1, audio.len());
    assert_eq!(overlap, 4);
    let tail = worker.tail(overlap);
    assert_eq!(floats(&tail), [1.0; 4]);
    worker.absorb(second, &audio, &linear_fade(&tail, &audio));
    let pcm = floats(&worker.into_pcm());
    assert_eq!(pcm, [1.0, 1.0, 1.0, 1.0, 1.25, 1.75, 2.25, 2.75, 5.0, 5.0, 5.0, 5.0]);
}

#[test]
fn pipelining_keeps_the_number_of_samples() {
    let per_frame = 5;
    let sizes = [2usize, 3, 0, 1, 4];
    let mut worker = VocoderWorker::new(1);
    for n_frames in sizes {
        let chunk = VocoderChunk { codes: vec![9; n_frames], n_frames };
        let asked = worker.request(&chunk);
        let audio = reals(&vec![0.5; per_frame * asked.n_frames]);
        let overlap = worker.overlap(n_frames, audio.len());
        let tail = worker.tail(overlap);
        worker.absorb(chunk, &audio, &tail);
    }
    assert_eq!(worker.into_pcm().len(), per_frame * sizes.iter().sum::<usize>());
}

#[test]
fn empty_audio_is_not_crossfaded() {
    let mut worker = VocoderWorker::new(1);
    worker.absorb(VocoderChunk { codes: vec![1], n_frames: 1 }, &Vec::new(), &Vec::new());
    assert_eq!(worker.context_frames(), 1);
    assert_eq!(worker.overlap(1, 100), 0);
}

#[test]
fn half_of_the_threads_are_the_vocoders() {
    assert_eq!(vocoder_threads(0), 1);
    assert_eq!(vocoder_threads(1), 1);
    assert_eq!(vocoder_threads(3), 1);
    assert_eq!(vocoder_threads(4), 2);
    assert_eq!(vocoder_threads(9), 4);
}

#[test]
fn timings_are_summed_up() {
    let m = Measured {
        speaker_encode: 1,
        tokenize: 20,
        prefill_build: 300,
        codec_rollout: 4_000,
        first_frame: 500,
        vocoder_decode: 6_000,
        flatten: 7,
        trim: 80,
    };
    let t = m.sequential(123, 24_000);
    assert_eq!(t.post, 87);
    assert_eq!(t.first_frame_latency, 821);
    assert_eq!(t.pipeline_overlap, 0);
    assert_eq!((t.generated_samples, t.sample_rate_hz), (123, 24_000));
    let t = m.pipelined(7_000, 123, 24_000);
    assert_eq!(t.post, 80);
    assert_eq!(t.pipeline_overlap, 3_000);
    assert_eq!(m.pipelined(11_000, 1, 1).pipeline_overlap, 0);
    assert_eq!(std::time::Duration::MAX.as_nanos(), LONGEST);
    assert!(m.is_countable(true) && m.is_countable(false));
    let long = Measured { trim: LONGEST, ..m };
    assert!(long.is_countable(true) && !long.is_countable(false));
    let long = Measured { vocoder_decode: u128::MAX, ..m };
    assert!(!long.is_countable(true) && long.is_countable(false));
    assert!(!Measured { tokenize: LONGEST, ..m }.is_countable(true));
}

#[test]
fn profiles_keep_the_result() {
    let engine = engine(2, 16);
    let measured = Measured {
        speaker_encode: 1,
        tokenize: 2,
        prefill_build: 3,
        codec_rollout: 40,
        first_frame: 5,
        vocoder_decode: 60,
        flatten: 7,
        trim: 8,
    };
    for chunk in [0usize, 4] {
        let mut request = SynthesizeRequest::default();
        request.vocoder_chunk_size = chunk;
        let plan = engine.synthesize(&request);
        let result = engine.finish(&plan, 2, reals(&[0.5, 0.25, 0.125]));
        let kept = result.clone();
        let (result, timings) =
            engine.synthesize_with_profile(&plan, Ok(result), measured, 90).unwrap();
        assert_eq!(result.pcm_f32, kept.pcm_f32);
        assert_eq!((result.sample_rate_hz, result.generated_frames), (24_000, 2));
        assert_eq!((timings.generated_samples, timings.sample_rate_hz), (3, 24_000));
        assert_eq!(timings.first_frame_latency, 11);
        let expected = if chunk == 0 { (15, 0) } else { (8, 10) };
        assert_eq!((timings.post, timings.pipeline_overlap), expected);
        let failed = Err(Qwen3TtsError::InvalidPath);
        let failed = engine.synthesize_with_profile(&plan, failed, measured, 90);
        assert!(matches!(failed, Err(Qwen3TtsError::InvalidPath)));
    }
}
