use qwen3_tts::real32::Real32;
use qwen3_tts::server::api_error::{ApiError, ApiStatus};
use qwen3_tts::server::arguments::{Answer, Parsed};
use qwen3_tts::server::config::{
    Question, RealSetting, RequestDefaults, ServerConfig, TalkerKvMode,
};
use qwen3_tts::server::http::{
    audio_response, create_job, handed_over, health, openai_speech, FieldKind, MultipartJob,
};
use qwen3_tts::server::jobs::{
    AudioPayload, JobStage, JobStatus, Progress, SynthesisProgress, SynthesisProgressStage,
};
use qwen3_tts::server::mode::{FixedMode, ModeArgs};
use qwen3_tts::server::speech::{
    build_request, validate_mode_request, validate_response_format, JobPayload, QtsConditioning,
    SpeechRequest,
};
use qwen3_tts::server::store::JobStore;
use qwen3_tts::server::voice::{
    clone_prompt_from_bytes, resolve_clone_prompt, synthesize_job, voice_of, CloneSource, Voice,
};

fn text(t: &str) -> Option<String> {
    Some(t.to_string())
}

fn num(x: f32) -> Real32 {
    Real32::from_bits(x.to_bits())
}

fn strings(args: &[&str]) -> Vec<String> {
    args.iter().map(|a| a.to_string()).collect()
}

fn no_conditioning() -> QtsConditioning {
    QtsConditioning {
        kind: None,
        speaker: None,
        instruct: None,
        prompt_path: None,
        wav_path: None,
        ref_text: None,
    }
}

fn request() -> SpeechRequest {
    SpeechRequest {
        text: None,
        input: text("hello"),
        model: None,
        voice: None,
        instructions: None,
        response_format: None,
        speed: None,
        language_id: None,
        frames: None,
        temperature: None,
        top_k: None,
        top_p: None,
        repetition_penalty: None,
        vocoder_threads: None,
        chunk_size: None,
        talker_kv_mode: None,
        qts_conditioning: None,
    }
}

fn payload(request: SpeechRequest) -> JobPayload {
    JobPayload { request, upload_wav: None }
}

/// Reads arguments as a server does, with the standard library's parsers for what the library
/// asks back.
fn parse(args: &[&str]) -> Result<ServerConfig, String> {
    let args = strings(args);
    let mut answers = Vec::new();
    loop {
        match ServerConfig::parse("default-models".to_string(), &args, &answers)? {
            Parsed::Config(config) => return Ok(config),
            Parsed::Usage => return Err("usage".to_string()),
            Parsed::Asks(question) => answers.push(answer(question)),
        }
    }
}

fn answer(question: Question) -> Answer {
    match question {
        Question::Host(host) => {
            let address = host.chars().all(|c| c.is_ascii_hexdigit() || c == ':' || c == '.');
            let read = if address { Ok(host.clone()) } else { Err(format!("no address: {host}")) };
            Answer::Host(host, read)
        }
        Question::Real(setting, value) => {
            let read = value.parse::<f32>().map(num).map_err(|_| format!("no number: {value}"));
            Answer::Real(setting, value, read)
        }
        Question::KvMode(value) => {
            let read = match value.as_str() {
                "f16" => Ok(TalkerKvMode::F16),
                "turboquant" => Ok(TalkerKvMode::TurboQuant),
                _ => Err(format!("no mode: {value}")),
            };
            Answer::KvMode(value, read)
        }
    }
}

fn defaults() -> RequestDefaults {
    parse(&["--mode", "none"]).unwrap().request_defaults
}

#[test]
fn modes_are_parsed_by_name() {
    let mut args = ModeArgs::default();
    assert!(matches!(FixedMode::parse(" None ", &args), Ok(FixedMode::Plain)));
    assert_eq!(
        FixedMode::parse("custom", &args).unwrap_err(),
        "--speaker is required when --mode custom"
    );
    args.speaker = text("Vivian");
    args.instruct = text("calm");
    match FixedMode::parse("CUSTOM", &args).unwrap() {
        FixedMode::Custom { speaker, instruct } => {
            assert_eq!((speaker.as_str(), instruct.as_deref()), ("Vivian", Some("calm")));
        }
        other => panic!("unexpected {other:?}"),
    }
    assert!(matches!(FixedMode::parse("design", &args), Ok(FixedMode::Design { instruct: Some(_) })));
    assert!(matches!(
        FixedMode::parse("clone", &args),
        Ok(FixedMode::Clone { prompt_path: None, wav_path: None, ref_text: None })
    ));
    assert_eq!(
        FixedMode::parse(" Sing", &args).unwrap_err(),
        "unknown --mode sing; expected none, custom, design, clone"
    );
    assert_eq!(FixedMode::parse("design", &args).unwrap().name(), "design");
    assert_eq!(FixedMode::Plain.name(), "none");
}

#[test]
fn servers_have_defaults() {
    let config = parse(&["--mode", "none"]).unwrap();
    assert_eq!(config.model_dir, "default-models");
    assert_eq!(config.host, "127.0.0.1");
    assert_eq!(config.port, 8080);
    let d = config.request_defaults;
    assert_eq!((d.thread_count, d.max_audio_frames, d.top_k, d.language_id), (4, 256, 50, 2050));
    assert_eq!((d.vocoder_thread_count, d.vocoder_chunk_size), (4, 0));
    assert_eq!(d.talker_kv_mode, TalkerKvMode::F16);
    assert_eq!((d.temperature, d.top_p, d.repetition_penalty), (num(0.9), num(1.0), num(1.05)));
    assert!(config.runtime_backends.backend.is_none());
}

#[test]
fn flags_are_taken_up() {
    let config = parse(&[
        "--model-dir", "m", "--host", "::1", "--port", "9", "--mode", "clone", "--speaker", "s",
        "--instruct", "i", "--voice-clone-wav", "w.wav", "--voice-clone-ref-text", "t", "--threads", "1",
        "--frames", "2", "--temperature", "0.25", "--top-k", "-3", "--top-p", "0.5",
        "--repetition-penalty", "2", "--language-id", "2055", "--vocoder-threads", "6", "--chunk-size", "7",
        "--talker-kv-mode", "turboquant", "--backend", "cpu", "--backend-fallback", "metal,cpu",
        "--vocoder-ep", "auto", "--vocoder-ep-fallback", "cpu", "--port", "10",
    ])
    .unwrap();
    assert_eq!((config.model_dir.as_str(), config.host.as_str(), config.port), ("m", "::1", 10));
    let d = config.request_defaults;
    assert_eq!((d.thread_count, d.max_audio_frames, d.top_k, d.language_id), (1, 2, -3, 2055));
    assert_eq!((d.vocoder_thread_count, d.vocoder_chunk_size), (6, 7));
    assert_eq!(d.talker_kv_mode, TalkerKvMode::TurboQuant);
    assert_eq!((d.temperature, d.top_p, d.repetition_penalty), (num(0.25), num(0.5), num(2.0)));
    assert_eq!(config.runtime_backends.backend, text("cpu"));
    assert_eq!(config.runtime_backends.backend_fallback, text("metal,cpu"));
    assert_eq!(config.runtime_backends.vocoder_ep, text("auto"));
    assert_eq!(config.runtime_backends.vocoder_ep_fallback, text("cpu"));
    match &config.mode {
        FixedMode::Clone { prompt_path, wav_path, ref_text } => {
            assert_eq!((prompt_path, wav_path, ref_text), (&None, &text("w.wav"), &text("t")));
        }
        other => panic!("unexpected {other:?}"),
    }
    assert!(config.validate().is_ok());
}

#[test]
fn bad_arguments_are_refused() {
    assert_eq!(
        parse(&[]).unwrap_err(),
        "--mode is required; choose none, custom, design, or clone"
    );
    assert_eq!(parse(&["--mode"]).unwrap_err(), "missing value for --mode");
    assert_eq!(parse(&["--backend"]).unwrap_err(), "missing value for --backend");
    assert_eq!(parse(&["--port", "65536"]).unwrap_err(), "invalid value for --port: 65536");
    assert_eq!(parse(&["--threads", "-1"]).unwrap_err(), "invalid value for --threads: -1");
    assert_eq!(parse(&["--top-k", "x"]).unwrap_err(), "invalid value for --top-k: x");
    assert_eq!(parse(&["serve"]).unwrap_err(), "unknown qts_server argument: serve");
    assert_eq!(parse(&["-h"]).unwrap_err(), "usage");
    assert_eq!(parse(&["--help", "serve"]).unwrap_err(), "usage");
    assert_eq!(parse(&["--temperature", "warm", "--port", "x"]).unwrap_err(), "no number: warm");
    let both = parse(&["--mode", "clone", "--voice-clone-prompt", "p", "--voice-clone-wav", "w"]).unwrap();
    assert_eq!(
        both.validate().unwrap_err(),
        "--voice-clone-prompt cannot be combined with --voice-clone-wav"
    );
}

#[test]
fn questions_come_with_their_setting() {
    let args = strings(&["--top-p", "0.5", "--mode", "none"]);
    let parse = |answers: &Vec<Answer>| ServerConfig::parse(String::new(), &args, answers);
    match parse(&Vec::new()).unwrap() {
        Parsed::Asks(Question::Real(RealSetting::TopP, value)) => assert_eq!(value, "0.5"),
        other => panic!("unexpected {other:?}"),
    }
    let mut answers = vec![Answer::Real(RealSetting::Temperature, "0.5".to_string(), Ok(num(7.0)))];
    assert!(matches!(parse(&answers), Ok(Parsed::Asks(_))));
    answers.push(Answer::Real(RealSetting::TopP, "0.5".to_string(), Ok(num(0.5))));
    answers.push(Answer::Real(RealSetting::TopP, "0.5".to_string(), Ok(num(0.75))));
    match parse(&answers).unwrap() {
        Parsed::Config(config) => {
            assert_eq!(config.request_defaults.top_p, num(0.5));
            assert_eq!(config.request_defaults.temperature, num(0.9));
        }
        other => panic!("unexpected {other:?}"),
    }
    let refused = vec![Answer::Real(RealSetting::TopP, "0.5".to_string(), Err("no".to_string()))];
    assert_eq!(parse(&refused).unwrap_err(), "no");
    assert_eq!(refusal_of("--host", "here"), "no address: here");
    assert_eq!(refusal_of("--talker-kv-mode", "f8"), "no mode: f8");
}

fn refusal_of(flag: &str, value: &str) -> String {
    parse(&[flag, value, "--mode", "none"]).unwrap_err()
}

#[test]
fn the_order_of_flags_does_not_matter() {
    let pairs = [
        ["--mode", "custom"],
        ["--speaker", "Vivian"],
        ["--temperature", "0.5"],
        ["--port", "81"],
        ["--backend", "cpu"],
        ["--host", "::1"],
        ["--talker-kv-mode", "turboquant"],
    ];
    let expected = format!("{:?}", parse(&pairs.concat()).unwrap());
    for turn in 1..pairs.len() {
        let mut turned = pairs.to_vec();
        turned.rotate_left(turn);
        turned.swap(0, 3);
        assert_eq!(format!("{:?}", parse(&turned.concat()).unwrap()), expected);
    }
    let refused = [["--mode", "none"], ["--port", "x"], ["--threads", "2"]];
    assert!(parse(&refused.concat()).is_err());
    assert!(parse(&[refused[1], refused[2], refused[0]].concat()).is_err());
}

#[test]
fn the_last_value_of_a_flag_holds() {
    let config = parse(&[
        "--mode", "none", "--port", "1", "--temperature", "2", "--backend", "metal", "--port", "3",
        "--mode", "design", "--backend", "cpu", "--temperature", "0.5",
    ])
    .unwrap();
    assert_eq!((config.port, config.mode.name()), (3, "design"));
    assert_eq!(config.runtime_backends.backend, text("cpu"));
    assert_eq!(config.request_defaults.temperature, num(0.5));
    assert_eq!(
        parse(&["--port", "1", "--sing", "--port", "x"]).unwrap_err(),
        "unknown qts_server argument: --sing"
    );
    assert_eq!(
        parse(&["--port", "1", "--speaker", "--mode"]).unwrap_err(),
        "--mode is required; choose none, custom, design, or clone"
    );
}

#[test]
fn only_wav_and_pcm_are_answered_with() {
    let mut r = request();
    assert!(validate_response_format(&r).is_ok());
    for format in ["wav", "pcm"] {
        r.response_format = text(format);
        assert!(validate_response_format(&r).is_ok());
    }
    r.response_format = text("mp3");
    let error = validate_response_format(&r).unwrap_err();
    assert_eq!(error.status.code(), 400);
    assert_eq!(
        error.message,
        "only response_format `wav` and `pcm` are accepted; this server currently returns WAV for both"
    );
}

#[test]
fn requests_cannot_switch_the_mode() {
    let mut r = request();
    assert!(validate_mode_request("clone", &r).is_ok());
    r.qts_conditioning = Some(QtsConditioning { kind: text("clone"), ..no_conditioning() });
    assert!(validate_mode_request("clone", &r).is_ok());
    assert_eq!(
        validate_mode_request("design", &r).unwrap_err(),
        "server mode is fixed to `design`, request conditioning type `clone` is not allowed"
    );
}

#[test]
fn requests_fall_back_to_the_defaults() {
    let job = build_request(&defaults(), &request(), None).unwrap();
    assert_eq!(job.request.text, "hello");
    assert_eq!(job.request.max_audio_frames, 256);
    assert_eq!(job.request.temperature, num(0.9));
    assert_eq!((job.vocoder_thread_count, job.talker_kv_mode), (4, TalkerKvMode::F16));
    let mut r = request();
    r.text = text("first");
    r.speed = Some(num(1.0));
    r.language_id = Some(2058);
    r.frames = Some(12);
    r.temperature = Some(num(0.1));
    r.top_k = Some(1);
    r.top_p = Some(num(0.2));
    r.repetition_penalty = Some(num(0.3));
    r.vocoder_threads = Some(2);
    r.chunk_size = Some(3);
    r.talker_kv_mode = text("turboquant");
    let job = build_request(&defaults(), &r, Some(Ok(TalkerKvMode::TurboQuant))).unwrap();
    assert_eq!(job.request.text, "first");
    assert_eq!((job.request.language_id, job.request.max_audio_frames), (2058, 12));
    assert_eq!((job.request.top_k, job.request.vocoder_chunk_size), (1, 3));
    assert_eq!(
        (job.request.temperature, job.request.top_p, job.request.repetition_penalty),
        (num(0.1), num(0.2), num(0.3))
    );
    assert_eq!((job.vocoder_thread_count, job.talker_kv_mode), (2, TalkerKvMode::TurboQuant));
}

#[test]
fn faulty_requests_are_refused() {
    let mut r = request();
    r.input = None;
    r.speed = Some(num(2.0));
    assert_eq!(build_request(&defaults(), &r, None).unwrap_err(), "`input` or `text` is required");
    r.text = text("x");
    assert_eq!(
        build_request(&defaults(), &r, None).unwrap_err(),
        "OpenAI `speed` is accepted only as 1.0 in this version"
    );
    r.speed = None;
    r.talker_kv_mode = text("odd");
    let refused = build_request(&defaults(), &r, Some(Err("odd mode".to_string())));
    assert_eq!(refused.unwrap_err(), "odd mode");
}

#[test]
fn custom_servers_keep_their_speaker() {
    let mode = FixedMode::Custom { speaker: "Vivian".to_string(), instruct: text("startup") };
    let instruct = |p: &JobPayload| match voice_of(&mode, p) {
        Ok(Voice::Custom { speaker, instruct }) => {
            assert_eq!(speaker, "Vivian");
            instruct
        }
        other => panic!("unexpected {other:?}"),
    };
    let mut p = payload(request());
    assert_eq!(instruct(&p), text("startup"));
    p.request.instructions = text("request");
    assert_eq!(instruct(&p), text("request"));
    p.request.qts_conditioning = Some(QtsConditioning {
        speaker: text("Vivian"),
        instruct: text("conditioning"),
        ..no_conditioning()
    });
    assert_eq!(instruct(&p), text("conditioning"));
    p.request.qts_conditioning = Some(QtsConditioning { speaker: text("Ryan"), ..no_conditioning() });
    assert_eq!(
        voice_of(&mode, &p).unwrap_err(),
        "server is fixed to custom speaker 'Vivian', request speaker 'Ryan' is not allowed"
    );
}

#[test]
fn design_servers_need_an_instruction() {
    let mode = FixedMode::Design { instruct: None };
    let mut p = payload(request());
    assert_eq!(
        voice_of(&mode, &p).unwrap_err(),
        "design mode requires `instructions`, `qts_conditioning.instruct`, or startup --instruct"
    );
    p.request.instructions = text("an old voice");
    assert!(matches!(voice_of(&mode, &p), Ok(Voice::Design(i)) if i == "an old voice"));
    assert!(matches!(voice_of(&FixedMode::Plain, &p), Ok(Voice::Plain)));
}

#[test]
fn clone_sources_go_in_order() {
    let started = FixedMode::Clone { prompt_path: text("s.pb"), wav_path: text("s.wav"), ref_text: text("st") };
    let mut p = payload(request());
    assert!(matches!(
        resolve_clone_prompt(&started, &p), Ok(CloneSource::Prompt { path }) if path == "s.pb"
    ));
    let wav_only = FixedMode::Clone { prompt_path: None, wav_path: text("s.wav"), ref_text: text("st") };
    match resolve_clone_prompt(&wav_only, &p).unwrap() {
        CloneSource::Wav { path, ref_text } => assert_eq!((path.as_str(), ref_text), ("s.wav", text("st"))),
        other => panic!("unexpected {other:?}"),
    }
    p.request.qts_conditioning =
        Some(QtsConditioning { wav_path: text("r.wav"), ref_text: text("rt"), ..no_conditioning() });
    match resolve_clone_prompt(&started, &p).unwrap() {
        CloneSource::Wav { path, ref_text } => assert_eq!((path.as_str(), ref_text), ("r.wav", text("rt"))),
        other => panic!("unexpected {other:?}"),
    }
    p.request.qts_conditioning = Some(QtsConditioning {
        prompt_path: text("r.pb"),
        wav_path: text("r.wav"),
        ref_text: text("rt"),
        ..no_conditioning()
    });
    assert!(matches!(
        resolve_clone_prompt(&started, &p), Ok(CloneSource::Prompt { path }) if path == "r.pb"
    ));
    p.upload_wav = Some(vec![1]);
    assert!(matches!(
        resolve_clone_prompt(&started, &p), Ok(CloneSource::Upload { ref_text: Some(t) }) if t == "rt"
    ));
    let empty = FixedMode::Clone { prompt_path: None, wav_path: None, ref_text: None };
    assert_eq!(
        resolve_clone_prompt(&empty, &payload(request())).unwrap_err(),
        "clone mode requires qts_conditioning.prompt_path, qts_conditioning.wav_path, multipart ref_wav, or startup clone source"
    );
}

#[test]
fn blank_reference_texts_do_not_count() {
    assert_eq!(clone_prompt_from_bytes(&None), None);
    assert_eq!(clone_prompt_from_bytes(&text(" \n\t")), None);
    assert_eq!(clone_prompt_from_bytes(&text(" hi ")), text(" hi "));
}

#[test]
fn jobs_come_to_a_synthesis_and_a_voice() {
    let config = parse(&["--mode", "none", "--frames", "9"]).unwrap();
    let (synthesis, voice) = synthesize_job(&config, &payload(request()), None).unwrap();
    assert_eq!(synthesis.request.max_audio_frames, 9);
    assert!(matches!(voice, Voice::Plain));
    let mut r = request();
    r.input = None;
    r.qts_conditioning = Some(QtsConditioning { kind: text("clone"), ..no_conditioning() });
    assert_eq!(
        synthesize_job(&config, &payload(r), None).unwrap_err(),
        "`input` or `text` is required"
    );
    let mut r = request();
    r.qts_conditioning = Some(QtsConditioning { kind: text("clone"), ..no_conditioning() });
    assert_eq!(
        synthesize_job(&config, &payload(r), None).unwrap_err(),
        "server mode is fixed to `none`, request conditioning type `clone` is not allowed"
    );
}

fn store_with(jobs: usize) -> JobStore {
    let mut store = JobStore::new();
    for i in 0..jobs {
        let id = store.submit_job(&FixedMode::Plain, &defaults(), &request(), 100 + i as u128).ok().unwrap();
        assert_eq!(id, (i + 1).to_string());
    }
    store
}

fn audio() -> AudioPayload {
    AudioPayload { bytes: vec![1, 2, 3], sample_rate_hz: 16_000, generated_frames: 5 }
}

#[test]
fn jobs_are_queued_under_numbers() {
    let mut store = store_with(2);
    let job = store.get_job("2").ok().unwrap();
    assert_eq!((job.job_id.as_str(), job.status, job.stage), ("2", JobStatus::Queued, JobStage::Queued));
    assert_eq!((job.progress, job.generated_frames, job.max_frames), (Progress::Percent(0), 0, 256));
    assert_eq!((job.created_at_ms, job.started_at_ms, job.finished_at_ms), (101, None, None));
    assert!(job.audio.is_none() && job.error.is_none() && job.sample_rate_hz.is_none());
    let mut r = request();
    r.qts_conditioning = Some(QtsConditioning { kind: text("clone"), ..no_conditioning() });
    let error = store.submit_job(&FixedMode::Plain, &defaults(), &r, 0).unwrap_err();
    assert_eq!(error.status, ApiStatus::BadRequest);
    assert!(store.get_job("3").is_err());
    let mut r = request();
    r.frames = Some(7);
    let id = store.submit_job(&FixedMode::Plain, &defaults(), &r, 0).ok().unwrap();
    assert_eq!(store.get_job(&id).ok().unwrap().max_frames, 7);
}

#[test]
fn unknown_jobs_are_not_found() {
    let store = store_with(1);
    for id in ["2", "01", "", "x"] {
        let error = store.get_job(id).err().unwrap();
        assert_eq!(error.status.code(), 404);
        assert_eq!(error.message, format!("job not found: {id}"));
        assert_eq!(store.get_job_audio(id).err().unwrap().status, ApiStatus::NotFound);
    }
}

#[test]
fn jobs_run_and_are_done() {
    let mut store = store_with(2);
    store.mark_running("1", 200);
    let job = store.get_job("1").ok().unwrap();
    assert_eq!((job.status, job.stage), (JobStatus::Running, JobStage::Preparing));
    assert_eq!((job.progress, job.started_at_ms), (Progress::Percent(1), Some(200)));
    let report = SynthesisProgress {
        stage: SynthesisProgressStage::Rollout,
        generated_frames: 3,
        max_frames: 12,
    };
    store.update_progress("1", report);
    let job = store.get_job("1").ok().unwrap();
    assert_eq!((job.stage, job.generated_frames, job.max_frames), (JobStage::Rollout, 3, 12));
    assert_eq!(job.progress, Progress::Rollout { generated_frames: 3, max_frames: 12 });
    assert_eq!(store.get_job_audio("1").err().unwrap().message, "job is not complete");
    assert_eq!(store.get_job_audio("1").err().unwrap().status.code(), 409);
    store.mark_done("1", &audio(), 300);
    let job = store.get_job("1").ok().unwrap();
    assert_eq!((job.status, job.stage, job.progress), (JobStatus::Done, JobStage::Done, Progress::Percent(100)));
    assert_eq!((job.generated_frames, job.sample_rate_hz, job.finished_at_ms), (5, Some(16_000), Some(300)));
    let served = store.get_job_audio("1").ok().unwrap();
    assert_eq!((served.bytes, served.sample_rate_hz, served.generated_frames), (vec![1, 2, 3], 16_000, 5));
    assert_eq!(store.get_job("2").ok().unwrap().status, JobStatus::Queued);
}

#[test]
fn every_stage_has_its_progress() {
    let mut store = store_with(1);
    let expected = [
        (SynthesisProgressStage::Preparing, JobStage::Preparing, Progress::Percent(2), "preparing"),
        (SynthesisProgressStage::Prefill, JobStage::Prefill, Progress::Percent(5), "prefill"),
        (SynthesisProgressStage::Vocoder, JobStage::Vocoder, Progress::Percent(95), "vocoder"),
        (SynthesisProgressStage::Done, JobStage::Done, Progress::Percent(100), "done"),
    ];
    for (stage, job_stage, progress, name) in expected {
        store.update_progress("1", SynthesisProgress { stage, generated_frames: 0, max_frames: 0 });
        let job = store.get_job("1").ok().unwrap();
        assert_eq!((job.status, job.stage, job.progress), (JobStatus::Running, job_stage, progress));
        assert_eq!(job.stage.as_str(), name);
    }
    assert_eq!(JobStage::Rollout.as_str(), "rollout");
    assert_eq!((JobStage::Queued.as_str(), JobStage::Failed.as_str()), ("queued", "failed"));
    let names: Vec<&str> = [JobStatus::Queued, JobStatus::Running, JobStatus::Done, JobStatus::Failed]
        .iter()
        .map(|s| s.as_str())
        .collect();
    assert_eq!(names, ["queued", "running", "done", "failed"]);
}

#[test]
fn failed_jobs_say_why() {
    let mut store = store_with(1);
    store.settle("1", &Err("no voice".to_string()), 400);
    let job = store.get_job("1").ok().unwrap();
    assert_eq!((job.status, job.stage, job.finished_at_ms), (JobStatus::Failed, JobStage::Failed, Some(400)));
    let error = store.get_job_audio("1").err().unwrap();
    assert_eq!((error.status.code(), error.message.as_str()), (400, "no voice"));
    store.settle("1", &Ok(audio()), 500);
    assert_eq!(store.get_job_audio("1").ok().unwrap().bytes, vec![1, 2, 3]);
    store.mark_failed("9", "nobody".to_string(), 1);
    assert!(store.get_job("9").is_err());
}

#[test]
fn health_counts_what_is_to_be_done() {
    let config = parse(&["--mode", "design"]).unwrap();
    let mut store = store_with(4);
    store.mark_running("2", 1);
    store.mark_done("3", &audio(), 1);
    store.mark_failed("4", "x".to_string(), 1);
    let h = health(&config, &store);
    assert_eq!((h.status, h.mode, h.model_dir.as_str()), ("ok", "design", "default-models"));
    assert_eq!(h.queued_or_running_jobs, 2);
}

#[test]
fn created_jobs_name_their_routes() {
    let r = create_job("17".to_string());
    assert_eq!((r.job_id.as_str(), r.status), ("17", "queued"));
    assert_eq!(r.progress_url, "/v1/qts/audio/jobs/17");
    assert_eq!(r.audio_url, "/v1/qts/audio/jobs/17/audio");
}

#[test]
fn audio_is_answered_with_headers() {
    let h = audio_response(&audio());
    assert_eq!(h.content_type, "audio/wav");
    assert_eq!((h.sample_rate.as_str(), h.generated_frames.as_str()), ("16000", "5"));
}

#[test]
fn waiting_requests_are_answered() {
    assert_eq!(openai_speech("1", Some(Ok(audio()))).ok().unwrap().bytes, vec![1, 2, 3]);
    let e = openai_speech("1", Some(Err("bad".to_string()))).err().unwrap();
    assert_eq!((e.status.code(), e.message.as_str()), (400, "bad"));
    let e = openai_speech("1", None).err().unwrap();
    assert_eq!((e.status.code(), e.message.as_str()), (500, "job 1 response channel closed"));
    assert_eq!(ApiError::internal(String::new()).status, ApiStatus::Internal);
}

#[test]
fn multipart_jobs_need_a_request() {
    assert_eq!(FieldKind::of("request"), FieldKind::Request);
    assert_eq!(FieldKind::of("ref_wav"), FieldKind::RefWav);
    assert_eq!(FieldKind::of("Request"), FieldKind::Other);
    let mut form = MultipartJob::new();
    form.take_ref_wav(vec![1]);
    form.take_ref_wav(vec![2]);
    let error = form.take_request(Err("eof".to_string())).unwrap_err();
    assert_eq!((error.status.code(), error.message.as_str()), (400, "eof"));
    let error = form.create_multipart_job().err().unwrap();
    assert_eq!(error.message, "multipart field `request` is required");
    let mut form = MultipartJob::new();
    form.take_ref_wav(vec![2]);
    form.take_request(Ok(request())).ok().unwrap();
    let job = form.create_multipart_job().ok().unwrap();
    assert_eq!(job.upload_wav, Some(vec![2]));
    assert_eq!(job.request.input, text("hello"));
    let mut form = MultipartJob::new();
    let mut r = request();
    r.response_format = text("opus");
    form.take_request(Ok(r)).ok().unwrap();
    assert_eq!(form.create_multipart_job().err().unwrap().status.code(), 400);
}

#[test]
fn reordered_flags_make_the_same_defaults() {
    let a = parse(&["--mode", "none", "--threads", "3", "--top-k", "4", "--model-dir", "m"]).unwrap();
    let b = parse(&["--model-dir", "m", "--top-k", "4", "--threads", "3", "--mode", "none"]).unwrap();
    assert_eq!(a.request_defaults, b.request_defaults);
    assert_eq!((a.model_dir, a.mode.name()), (b.model_dir, b.mode.name()));
}

#[test]
fn progress_does_not_go_back() {
    let mut store = store_with(1);
    let mut last = 0.0;
    let reports = [
        (SynthesisProgressStage::Preparing, 0),
        (SynthesisProgressStage::Prefill, 0),
        (SynthesisProgressStage::Rollout, 0),
        (SynthesisProgressStage::Rollout, 4),
        (SynthesisProgressStage::Rollout, 9),
        (SynthesisProgressStage::Vocoder, 9),
        (SynthesisProgressStage::Done, 9),
    ];
    for (stage, generated_frames) in reports {
        store.update_progress("1", SynthesisProgress { stage, generated_frames, max_frames: 8 });
        let share = match store.get_job("1").ok().unwrap().progress {
            Progress::Percent(n) => n as f64 / 100.0,
            Progress::Rollout { generated_frames, max_frames } => {
                0.05 + 0.85 * (generated_frames as f64 / max_frames as f64).min(1.0)
            }
        };
        assert!(last <= share && share <= 1.0);
        last = share;
    }
}

#[test]
fn jobs_are_refused_without_a_worker() {
    assert_eq!(handed_over("7".to_string(), true).unwrap(), "7");
    let error = handed_over("7".to_string(), false).unwrap_err();
    assert_eq!(error.status.code(), 500);
    assert_eq!(error.message, "server worker is not running");
}
