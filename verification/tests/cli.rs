use qwen3_tts::cli::args::{value_arg, RuntimeBackendOverrides};
use qwen3_tts::cli::bench::{
    backends_of, default_model_dir, is_backend_word, run_bench, run_profile, BenchArgs, CargoCommand,
};
use qwen3_tts::cli::profile::{
    check_runs, load_synthesis_conditioning, profile_flag, profile_step, profile_summary,
    unknown_argument_text, wants_help, ConditioningSource, ProfileStep,
};
use qwen3_tts::cli::speaker_bin::SpeakerBinArgs;

fn strings(args: &[&str]) -> Vec<String> {
    args.iter().map(|a| a.to_string()).collect()
}

fn env(command: &CargoCommand, name: &str) -> String {
    command.env.iter().find(|(n, _)| n == name).unwrap().1.clone()
}

#[test]
fn values_stand_behind_their_flags() {
    let args = strings(&["--a", "1", "--b"]);
    let mut idx = 0;
    assert_eq!(value_arg(&args, &mut idx, "--a").unwrap(), "1");
    assert_eq!(idx, 2);
    assert_eq!(value_arg(&args, &mut idx, "--b").unwrap_err(), "missing value for --b");
    assert_eq!(idx, 3);
    // An index behind the end is answered in the same way.
    assert_eq!(value_arg(&args, &mut idx, "--b").unwrap_err(), "missing value for --b");
    assert_eq!(idx, 4);
    let flags = strings(&["--a", "--b"]);
    let mut idx = 0;
    assert_eq!(value_arg(&flags, &mut idx, "--a").unwrap(), "--b");
}

#[test]
fn profiles_run_then_write_then_summarise() {
    let steps = |runs: usize, has_out: bool| {
        let (mut done, mut written, mut steps) = (0, false, Vec::new());
        loop {
            let step = profile_step(done, runs, has_out, written);
            steps.push(step);
            match step {
                ProfileStep::Run { .. } => done += 1,
                ProfileStep::Write => written = true,
                ProfileStep::Summarise => return steps,
            }
        }
    };
    let (first, other) = (ProfileStep::Run { keep: true }, ProfileStep::Run { keep: false });
    assert_eq!(steps(2, true), [first, other, ProfileStep::Write, ProfileStep::Summarise]);
    assert_eq!(steps(3, false), [first, other, other, ProfileStep::Summarise]);
}

#[test]
fn backend_flags_are_recognised() {
    let args = strings(&["--vocoder-ep", "cpu", "--other"]);
    let mut overrides = RuntimeBackendOverrides::default();
    let mut idx = 0;
    assert_eq!(overrides.parse_flag(&args, &mut idx), Ok(true));
    assert_eq!(overrides.parse_flag(&args, &mut idx), Ok(false));
    assert_eq!(idx, 2);
    assert_eq!(overrides.vocoder_ep.as_deref(), Some("cpu"));
}

#[test]
fn speaker_bin_arguments() {
    let parsed = SpeakerBinArgs::parse(
        "models".to_string(),
        &strings(&["--out", "a", "--voice-clone-prompt", "p.pb", "--backend", "cpu", "--out", "b"]),
    )
    .unwrap();
    assert_eq!((parsed.model_dir.as_str(), parsed.prompt_path.as_str()), ("models", "p.pb"));
    assert_eq!(parsed.out_path, "b");
    assert_eq!(parsed.runtime_backends.backend.as_deref(), Some("cpu"));
    let error = |args: &[&str]| SpeakerBinArgs::parse(String::new(), &strings(args)).unwrap_err();
    assert_eq!(error(&[]), "--out is required");
    assert_eq!(error(&["--out", "o"]), "--voice-clone-prompt is required");
    assert_eq!(error(&["--out"]), "missing value for --out");
    assert_eq!(error(&["--model-dir", "m", "--text"]), "unknown speaker-bin argument: --text");
}

#[test]
fn profile_arguments() {
    assert!(wants_help(&strings(&["--text", "-h"])));
    assert!(wants_help(&strings(&["--help"])));
    assert!(!wants_help(&strings(&["--helpful"])));
    let mut idx = 0;
    assert_eq!(profile_flag(&strings(&["--runs", "3"]), &mut idx), Ok(3));
    assert_eq!(idx, 2);
    idx = 0;
    assert_eq!(profile_flag(&strings(&["--runs"]), &mut idx).unwrap_err(), "missing value for --runs");
    idx = 0;
    assert_eq!(
        profile_flag(&strings(&["--runs", "x"]), &mut idx).unwrap_err(),
        "invalid value for --runs: x"
    );
    idx = 0;
    assert_eq!(profile_flag(&strings(&["--x"]), &mut idx).unwrap_err(), "unknown profile argument: --x");
    assert_eq!(unknown_argument_text("synthesize", "y"), "unknown synthesize argument: y");
    assert_eq!(check_runs(0).unwrap_err(), "--runs must be >= 1");
    assert!(check_runs(1).is_ok());
    assert_eq!(profile_summary(1, "table\n"), "table\n");
    assert_eq!(profile_summary(3, "table\n"), "averaged over 3 runs\ntable\n");
}

#[test]
fn prompts_go_before_speaker_files() {
    let (p, s) = (Some("p".to_string()), Some("s".to_string()));
    assert!(matches!(load_synthesis_conditioning(&p, &s), ConditioningSource::VoiceClonePrompt(x) if x == "p"));
    assert!(matches!(load_synthesis_conditioning(&None, &s), ConditioningSource::SpeakerBin(x) if x == "s"));
    assert!(matches!(load_synthesis_conditioning(&None, &None), ConditioningSource::Absent));
}

#[test]
fn backend_words_name_backends() {
    assert_eq!(backends_of("cpu").unwrap(), ["cpu"]);
    assert_eq!(backends_of("metal").unwrap(), ["metal"]);
    assert_eq!(backends_of("vulkan").unwrap(), ["vulkan"]);
    assert_eq!(backends_of("all").unwrap(), ["cpu", "metal", "vulkan"]);
    assert_eq!(backends_of("both").unwrap(), ["cpu", "metal"]);
    assert_eq!(backends_of("cuda").unwrap_err(), "unsupported backend: cuda");
    assert!(is_backend_word("all") && !is_backend_word("cuda"));
    assert_eq!(default_model_dir("/w"), "/w/models/volko76-q4k-q8");
}

#[test]
fn bench_arguments() {
    let parsed = BenchArgs::parse("/w", &strings(&[])).unwrap();
    assert_eq!((parsed.backend.as_str(), parsed.text.as_str()), ("cpu", "hello"));
    assert_eq!((parsed.threads.as_str(), parsed.frames.as_str()), ("4", "16"));
    assert_eq!(
        (parsed.temperature.as_str(), parsed.top_k.as_str(), parsed.top_p.as_str()),
        ("0.0", "0", "1.0")
    );
    assert_eq!(parsed.model_dir, "/w/models/volko76-q4k-q8");
    let parsed = BenchArgs::parse(
        "/w",
        &strings(&["metal", "--text", "hi", "--top-k", "5", "vulkan", "--", "--quick", "metal"]),
    )
    .unwrap();
    assert_eq!((parsed.backend.as_str(), parsed.text.as_str(), parsed.top_k.as_str()), ("vulkan", "hi", "5"));
    assert_eq!(parsed.criterion_args, ["--quick", "metal"]);
    assert_eq!(
        BenchArgs::parse("/w", &strings(&["--runs"])).unwrap_err(),
        "unknown xtask bench argument: --runs"
    );
    assert_eq!(
        BenchArgs::parse("/w", &strings(&["--frames"])).unwrap_err(),
        "missing value for --frames"
    );
}

#[test]
fn benches_run_per_backend() {
    let commands = run_bench("/w", &strings(&["both", "--frames", "8", "--", "-q"])).unwrap();
    assert_eq!(commands.len(), 2);
    assert_eq!(commands[0].args, ["bench", "-p", "qwen3-tts", "--bench", "synthesize", "--", "-q"]);
    assert_eq!(
        commands[1].args,
        ["bench", "-p", "qwen3-tts", "--bench", "synthesize", "--features", "metal", "--", "-q"]
    );
    assert_eq!(env(&commands[0], "CARGO_TARGET_DIR"), "/w/target/bench-cpu");
    assert_eq!(env(&commands[1], "CARGO_TARGET_DIR"), "/w/target/bench-metal");
    assert_eq!(env(&commands[1], "QWEN3_TTS_BENCH_BACKEND"), "metal");
    assert_eq!(env(&commands[1], "QWEN3_TTS_BENCH_MODEL_DIR"), "/w/models/volko76-q4k-q8");
    assert_eq!(env(&commands[1], "QWEN3_TTS_BENCH_TEXT"), "hello");
    assert_eq!(env(&commands[1], "QWEN3_TTS_BENCH_THREADS"), "4");
    assert_eq!(env(&commands[1], "QWEN3_TTS_BENCH_MAX_AUDIO_FRAMES"), "8");
    assert_eq!(env(&commands[1], "QWEN3_TTS_BENCH_TEMPERATURE"), "0.0");
    assert_eq!(env(&commands[1], "QWEN3_TTS_BENCH_TOP_K"), "0");
    assert_eq!(env(&commands[1], "QWEN3_TTS_BENCH_TOP_P"), "1.0");
    assert_eq!(commands[0].env.len(), 9);
    assert!(run_bench("/w", &strings(&["cuda"])).is_err());
}

#[test]
fn profiles_keep_features_and_backend_aligned() {
    let commands = run_profile(&strings(&["all", "--text", "cpu"])).unwrap();
    assert_eq!(commands.len(), 3);
    assert_eq!(commands[0].args, ["run", "-p", "qwen3-tts-cli", "--", "profile", "--text", "cpu"]);
    assert_eq!(
        commands[2].args,
        ["run", "-p", "qwen3-tts-cli", "--features", "vulkan", "--", "profile", "--text", "cpu"]
    );
    assert_eq!(env(&commands[2], "QWEN3_TTS_BACKEND"), "vulkan");
    let commands = run_profile(&strings(&["--text", "all"])).unwrap();
    assert_eq!(commands.len(), 1);
    assert_eq!(commands[0].args, ["run", "-p", "qwen3-tts-cli", "--", "profile", "--text", "all"]);
    assert_eq!(env(&commands[0], "QWEN3_TTS_BACKEND"), "cpu");
}

#[test]
fn later_arguments_take_the_place_of_earlier_ones() {
    let args = ["metal", "--text", "a", "--top-k", "1", "cpu", "--text", "b", "--", "--text", "--", "c"];
    let parsed = BenchArgs::parse("root", &strings(&args)).unwrap();
    assert_eq!((parsed.backend.as_str(), parsed.text.as_str(), parsed.top_k.as_str()), ("cpu", "b", "1"));
    assert_eq!(parsed.frames, "16");
    assert_eq!(parsed.criterion_args, ["--text", "--", "c"]);
    let error = |args: &[&str]| BenchArgs::parse("root", &strings(args)).unwrap_err();
    assert_eq!(error(&["cpu", "--text", "a", "sing", "--"]), "unknown xtask bench argument: sing");
    assert_eq!(error(&["--text", "a", "--frames"]), "missing value for --frames");
    let error = |args: &[&str]| SpeakerBinArgs::parse(String::new(), &strings(args)).unwrap_err();
    assert_eq!(error(&["--voice-clone-prompt", "p", "--backend", "cpu"]), "--out is required");
    assert_eq!(error(&["--out", "o", "sing", "x"]), "unknown speaker-bin argument: sing");
}
