use qwen3_tts::backend::{
    gpu_device, normalize_threads, thread_settings, BackendChoice, BackendKind, BuildTarget, GraphRun,
};
use qwen3_tts::backend_search::{backend_chain, BackendSearch};
use qwen3_tts::cli::args::RuntimeBackendOverrides;
use qwen3_tts::error::Qwen3TtsError;
use qwen3_tts::support::{NodeSupport, SupportReport};

fn target(metal: bool, vulkan: bool, apple: bool) -> BuildTarget {
    BuildTarget { metal, vulkan, apple }
}

fn word(text: &str) -> Option<String> {
    Some(text.to_string())
}

fn chosen(target: BuildTarget, answers: &[bool]) -> BackendChoice {
    chosen_for(target, &None, answers)
}

fn chosen_for(target: BuildTarget, requested: &Option<String>, answers: &[bool]) -> BackendChoice {
    let mut choice = BackendChoice::start(target, requested);
    for ok in answers {
        choice = choice.next(*ok).ok().unwrap();
    }
    choice
}

fn message<T>(r: Result<T, Qwen3TtsError>) -> String {
    match r {
        Err(Qwen3TtsError::InvalidInput(text)) => text,
        _ => panic!("expected an error"),
    }
}

#[test]
fn accelerators_are_preferred_on_their_platforms() {
    assert_eq!(target(true, true, true).accelerator(), Some(BackendKind::Metal));
    assert_eq!(target(true, true, false).accelerator(), Some(BackendKind::Vulkan));
    assert_eq!(target(true, false, false).accelerator(), None);
    assert_eq!(target(false, true, true).accelerator(), None);
    assert_eq!(target(false, false, true).accelerator(), None);
    assert_eq!(
        chosen(target(true, false, true), &[true, true, true]),
        BackendChoice::Ready { primary: BackendKind::Metal, fallback: true }
    );
    assert_eq!(
        chosen(target(false, true, false), &[true, true, true]),
        BackendChoice::Ready { primary: BackendKind::Vulkan, fallback: true }
    );
}

#[test]
fn builds_fall_back_to_the_cpu() {
    let cpu = BackendChoice::Ready { primary: BackendKind::Cpu, fallback: false };
    assert_eq!(chosen(target(true, false, true), &[false, true, true]), cpu);
    assert_eq!(chosen(target(false, true, false), &[false, true, true]), cpu);
    assert_eq!(chosen(target(false, false, false), &[true, true]), cpu);
}

#[test]
fn failed_initialisation_is_reported() {
    let cpu = BackendChoice::start(target(false, false, false), &None);
    assert_eq!(cpu, BackendChoice::InitCpu);
    assert_eq!(message(cpu.next(false)), "failed to initialize ggml CPU backend");
    let fallback = chosen(target(true, false, true), &[true]);
    assert_eq!(message(fallback.next(false)), "failed to initialize ggml CPU backend");
    let allocator = chosen(target(false, false, false), &[true]);
    assert_eq!(message(allocator.next(false)), "failed to initialize ggml graph allocator");
}

#[test]
fn requested_backends_are_chosen() {
    let cpu = BackendChoice::Ready { primary: BackendKind::Cpu, fallback: false };
    for build in [target(true, true, true), target(true, true, false), target(false, false, false)] {
        assert_eq!(chosen_for(build, &word("cpu"), &[true, true]), cpu);
    }
    // Vulkan is used on Apple's platforms where it is asked for.
    assert_eq!(
        chosen_for(target(true, true, true), &word("vulkan"), &[true, true, true]),
        BackendChoice::Ready { primary: BackendKind::Vulkan, fallback: true }
    );
    assert_eq!(
        chosen_for(target(true, true, false), &word("metal"), &[true, true, true]),
        BackendChoice::Ready { primary: BackendKind::Metal, fallback: true }
    );
    assert_eq!(chosen_for(target(true, true, true), &word("vulkan"), &[false, true, true]), cpu);
    let automatic = BackendChoice::TryAccelerator(BackendKind::Metal);
    for requested in [None, word("auto"), word("vulkan"), word("cuda")] {
        assert_eq!(BackendChoice::start(target(true, false, true), &requested), automatic);
    }
}

fn found(mut search: BackendSearch, starts: &[BackendKind]) -> (BackendKind, bool) {
    loop {
        let ok = match search.choice() {
            BackendChoice::TryAccelerator(kind) => starts.contains(&kind),
            BackendChoice::Ready { primary, fallback } => return (primary, fallback),
            _ => true,
        };
        search = search.next(ok).ok().unwrap();
    }
}

#[test]
fn fallback_chains_are_tried_in_order() {
    let (cpu, metal, vulkan) = (BackendKind::Cpu, BackendKind::Metal, BackendKind::Vulkan);
    let build = target(true, true, true);
    assert_eq!(backend_chain(build, "metal,vulkan,cpu"), [metal, vulkan, cpu]);
    assert_eq!(backend_chain(build, " vulkan ,,cuda,cpu"), [vulkan, cpu]);
    assert_eq!(backend_chain(target(false, true, false), "metal,vulkan,cpu"), [vulkan, cpu]);
    assert_eq!(backend_chain(build, ""), []);
    let list = word("metal,vulkan,cpu");
    let search = |requested: &Option<String>| BackendSearch::start(build, requested, &list);
    assert_eq!(found(search(&word("auto")), &[metal, vulkan]), (metal, true));
    assert_eq!(found(search(&None), &[vulkan]), (vulkan, true));
    assert_eq!(found(search(&None), &[]), (cpu, false));
    assert_eq!(found(search(&word("cpu")), &[metal, vulkan]), (cpu, false));
    assert_eq!(found(search(&word("vulkan")), &[metal]), (cpu, false));
    assert_eq!(found(BackendSearch::start(build, &None, &word("cpu,metal")), &[metal]), (cpu, false));
    assert_eq!(found(BackendSearch::start(build, &None, &word("vulkan")), &[]), (cpu, false));
    assert_eq!(found(BackendSearch::start(build, &None, &None), &[vulkan]), (cpu, false));
    let failed = BackendSearch::start(build, &word("cpu"), &None).next(false);
    assert_eq!(message(failed), "failed to initialize ggml CPU backend");
}

#[test]
fn flags_go_before_the_environment() {
    let mut flags = RuntimeBackendOverrides::default();
    flags.backend = word("auto");
    let mut environment = RuntimeBackendOverrides::default();
    environment.backend = word("cpu");
    environment.backend_fallback = word("vulkan,cpu");
    let both = flags.over(&environment);
    assert_eq!((&both.backend, &both.backend_fallback), (&word("auto"), &word("vulkan,cpu")));
    assert_eq!((&both.vocoder_ep, &both.vocoder_ep_fallback), (&None, &None));
    let build = target(true, true, true);
    assert_eq!(both.search(build).choice(), BackendChoice::TryAccelerator(BackendKind::Vulkan));
    assert_eq!(environment.search(build).choice(), BackendChoice::InitCpu);
}

#[test]
fn devices_are_named_by_index() {
    assert_eq!(BackendKind::Vulkan.device_name(gpu_device(&None)), "Vulkan0");
    assert_eq!(BackendKind::Metal.device_name(gpu_device(&word("1"))), "MTL1");
    assert_eq!(BackendKind::Metal.device_name(gpu_device(&word("first"))), "MTL0");
    assert_eq!(BackendKind::Cpu.device_name(7), "CPU");
    assert_eq!(BackendKind::named("metal"), Some(BackendKind::Metal));
    assert_eq!(BackendKind::named("auto"), None);
}

#[test]
fn backends_have_names() {
    assert_eq!(BackendKind::Cpu.as_str(), "CPU");
    assert_eq!(BackendKind::Metal.as_str(), "Metal");
    assert_eq!(BackendKind::Vulkan.as_str(), "Vulkan");
}

#[test]
fn only_the_cpu_takes_threads() {
    assert_eq!(normalize_threads(0), 1);
    assert_eq!(normalize_threads(8), 8);
    assert_eq!(normalize_threads(0x1_0000_0003), 3);
    assert_eq!(thread_settings(BackendKind::Cpu, false, 4), (Some(4), None));
    assert_eq!(thread_settings(BackendKind::Metal, true, 0), (None, Some(1)));
}

#[test]
fn graphs_run_stage_by_stage() {
    let mut run = GraphRun::Allocate;
    let mut stages = Vec::new();
    while run != GraphRun::Done {
        stages.push(run);
        run = run.next(true, 2, 1, "graph failed").ok().unwrap();
    }
    let expected =
        vec![GraphRun::Allocate, GraphRun::Upload(0), GraphRun::Upload(1), GraphRun::Compute, GraphRun::Download(0)];
    assert_eq!(stages, expected);
    assert_eq!(
        message(GraphRun::Allocate.next(false, 2, 1, "decode")),
        "failed to allocate backend graph for decode"
    );
    assert_eq!(message(GraphRun::Compute.next(false, 2, 1, "decode")), "decode");
    assert_eq!(GraphRun::Allocate.next(true, 0, 0, "").ok().unwrap(), GraphRun::Compute);
    assert_eq!(GraphRun::Compute.next(true, 0, 0, "").ok().unwrap(), GraphRun::Done);
}

fn node(supported: bool, offloaded: bool, op: Option<&str>) -> Option<NodeSupport> {
    Some(NodeSupport { supported, offloaded, op: op.map(|o| o.to_string()) })
}

#[test]
fn support_is_tallied_in_order() {
    let nodes = vec![
        node(true, true, Some("ADD")),
        node(false, false, Some("ROPE")),
        None,
        node(false, true, Some("CONV")),
        node(false, false, Some("ROPE")),
        node(false, false, None),
        node(true, false, Some("MUL")),
    ];
    let report = SupportReport::tally(&nodes);
    assert_eq!((report.nodes, report.supported, report.offloaded), (7, 2, 2));
    let expected: Vec<(String, usize)> =
        vec![("<unknown>".to_string(), 1), ("CONV".to_string(), 1), ("ROPE".to_string(), 2)];
    assert_eq!(report.unsupported, expected);
    assert_eq!(
        report.lines("decode"),
        vec![
            "[backend-debug] decode: nodes=7 supported=2 offloaded=2",
            "[backend-debug] unsupported <unknown>: 1",
            "[backend-debug] unsupported CONV: 1",
            "[backend-debug] unsupported ROPE: 2",
        ]
    );
}

#[test]
fn tallies_agree_with_a_sorted_map() {
    let words = ["b", "a", "ab", "", "é", "z", "aa", "b", "é", "\u{10000}", "\u{ffff}", "a"];
    let mut expected = std::collections::BTreeMap::<String, usize>::new();
    for w in words {
        *expected.entry(w.to_string()).or_default() += 1;
    }
    let nodes: Vec<Option<NodeSupport>> = words.iter().map(|w| node(false, false, Some(w))).collect();
    let report = SupportReport::tally(&nodes);
    assert_eq!(report.unsupported, expected.into_iter().collect::<Vec<_>>());
}

#[test]
fn at_most_twelve_operations_are_listed() {
    let nodes: Vec<Option<NodeSupport>> =
        (0..20).map(|i| node(false, false, Some(format!("OP{i:02}").as_str()))).collect();
    let lines = SupportReport::tally(&nodes).lines("x");
    assert_eq!(lines.len(), 13);
    assert_eq!(lines[12], "[backend-debug] unsupported OP11: 1");
}
