//! What holds of a server across its start-up arguments, its requests and their answers.

use vstd::prelude::*;
#[allow(unused_imports)]
use crate::cli::args::{spelled, words, Pair};
#[allow(unused_imports)]
use crate::server::arguments::{
    all_set, answer_to, answers_in, comes_from, lemma_answers_fit, lemma_last_value_holds,
    lemma_made_means_set, parsed, read_from, value_set, Answer, Parsed,
};
#[allow(unused_imports)]
use crate::server::config::{
    slot, QuestionModel, RealSetting, RequestDefaults, ServerConfig, ServerFlag, SettingsModel,
    Slot, TalkerKvMode, Value,
};
#[allow(unused_imports)]
use crate::server::mode::{FixedMode, ModeModel};
#[allow(unused_imports)]
use crate::server::speech::{build_request, JobPayload, JobSynthesis, SpeechRequest};
#[allow(unused_imports)]
use crate::server::voice::{
    resolve_clone_prompt, synthesize_job, voice_of, CloneSource, CloneSourceModel, Voice, VoiceModel,
};
#[allow(unused_imports)]
use crate::text::{lowered, signed_value, text_in, trimmed, unsigned_value};

verus! {

/// Whether `stated` is `request` with some of the settings that it leaves out stated to be those of
/// the defaults.
pub open spec fn states_defaults(
    defaults: RequestDefaults,
    request: SpeechRequest,
    stated: SpeechRequest,
) -> bool {
    &&& stated.language_id == request.language_id || request.language_id is None
        && stated.language_id == Some(defaults.language_id)
    &&& stated.top_k == request.top_k || request.top_k is None && stated.top_k == Some(
        defaults.top_k,
    )
    &&& stated.top_p == request.top_p || request.top_p is None && stated.top_p == Some(
        defaults.top_p,
    )
    &&& stated.temperature == request.temperature || request.temperature is None
        && stated.temperature == Some(defaults.temperature)
    &&& stated.repetition_penalty == request.repetition_penalty
        || request.repetition_penalty is None && stated.repetition_penalty == Some(
        defaults.repetition_penalty,
    )
    &&& stated.frames == request.frames || request.frames is None && stated.frames == Some(
        defaults.max_audio_frames,
    )
    &&& stated.chunk_size == request.chunk_size || request.chunk_size is None && stated.chunk_size
        == Some(defaults.vocoder_chunk_size)
    &&& stated.vocoder_threads == request.vocoder_threads || request.vocoder_threads is None
        && stated.vocoder_threads == Some(defaults.vocoder_thread_count)
    &&& stated.text == request.text
    &&& stated.input == request.input
    &&& stated.speed == request.speed
}

/// Whether two syntheses are asked for in the same way.
pub open spec fn same_synthesis(a: JobSynthesis, b: JobSynthesis) -> bool {
    &&& a.request.text@ == b.request.text@
    &&& a.request.reference_wav_bytes == b.request.reference_wav_bytes
    &&& a.request.temperature == b.request.temperature
    &&& a.request.top_p == b.request.top_p
    &&& a.request.top_k == b.request.top_k
    &&& a.request.max_audio_frames == b.request.max_audio_frames
    &&& a.request.thread_count == b.request.thread_count
    &&& a.request.repetition_penalty == b.request.repetition_penalty
    &&& a.request.language_id == b.request.language_id
    &&& a.request.vocoder_chunk_size == b.request.vocoder_chunk_size
    &&& a.vocoder_thread_count == b.vocoder_thread_count
    &&& a.talker_kv_mode == b.talker_kv_mode
}

/// A request that leaves settings out comes to the same synthesis, or is refused in the same way, as
/// one that states the server's defaults for them.
pub proof fn lemma_left_out_is_the_default(
    defaults: RequestDefaults,
    request: SpeechRequest,
    stated: SpeechRequest,
    kv_mode: Option<Result<TalkerKvMode, String>>,
    stated_kv_mode: Option<Result<TalkerKvMode, String>>,
    a: Result<JobSynthesis, String>,
    b: Result<JobSynthesis, String>,
)
    requires
        states_defaults(defaults, request, stated),
        stated_kv_mode == kv_mode || kv_mode is None && stated_kv_mode == Some(
            Ok::<TalkerKvMode, String>(defaults.talker_kv_mode),
        ),
        call_ensures(build_request, (&defaults, &request, kv_mode), a),
        call_ensures(build_request, (&defaults, &stated, stated_kv_mode), b),
    ensures
        match (a, b) {
            (Ok(x), Ok(y)) => same_synthesis(x, y),
            (Err(m), Err(n)) => m@ == n@,
            _ => false,
        },
{
}

/// What a request states is what its synthesis is asked for with, whatever the defaults are. Its
/// text goes before its input, and threads are the server's matter.
pub proof fn lemma_stated_value_is_held(
    defaults: RequestDefaults,
    request: SpeechRequest,
    kv_mode: Option<Result<TalkerKvMode, String>>,
    r: Result<JobSynthesis, String>,
)
    requires
        call_ensures(build_request, (&defaults, &request, kv_mode), r),
        r is Ok,
    ensures
        ({
            let job = r->Ok_0;
            &&& request.text matches Some(text) ==> job.request.text@ == text@
            &&& request.text is None ==> (request.input matches Some(input) && job.request.text@
                == input@)
            &&& request.language_id matches Some(v) ==> job.request.language_id == v
            &&& request.top_k matches Some(v) ==> job.request.top_k == v
            &&& request.top_p matches Some(v) ==> job.request.top_p == v
            &&& request.temperature matches Some(v) ==> job.request.temperature == v
            &&& request.repetition_penalty matches Some(v) ==> job.request.repetition_penalty == v
            &&& request.frames matches Some(v) ==> job.request.max_audio_frames == v
            &&& request.chunk_size matches Some(v) ==> job.request.vocoder_chunk_size == v
            &&& request.vocoder_threads matches Some(v) ==> job.vocoder_thread_count == v
            &&& kv_mode matches Some(Ok(v)) ==> job.talker_kv_mode == v
            &&& job.request.thread_count == defaults.thread_count
            &&& job.request.reference_wav_bytes is None
        }),
{
}

/// The flags of a server, and what each of them is.
pub proof fn lemma_flags_are_known()
    ensures
        slot("--model-dir"@) == Some(Slot::Server(ServerFlag::ModelDir)),
        slot("--host"@) == Some(Slot::Server(ServerFlag::Host)),
        slot("--port"@) == Some(Slot::Server(ServerFlag::Port)),
        slot("--mode"@) == Some(Slot::Server(ServerFlag::Mode)),
        slot("--speaker"@) == Some(Slot::Server(ServerFlag::Speaker)),
        slot("--instruct"@) == Some(Slot::Server(ServerFlag::Instruct)),
        slot("--voice-clone-prompt"@) == Some(Slot::Server(ServerFlag::VoiceClonePrompt)),
        slot("--voice-clone-wav"@) == Some(Slot::Server(ServerFlag::VoiceCloneWav)),
        slot("--voice-clone-ref-text"@) == Some(Slot::Server(ServerFlag::VoiceCloneRefText)),
        slot("--threads"@) == Some(Slot::Server(ServerFlag::Threads)),
        slot("--frames"@) == Some(Slot::Server(ServerFlag::Frames)),
        slot("--temperature"@) == Some(Slot::Server(ServerFlag::Temperature)),
        slot("--top-k"@) == Some(Slot::Server(ServerFlag::TopK)),
        slot("--top-p"@) == Some(Slot::Server(ServerFlag::TopP)),
        slot("--repetition-penalty"@) == Some(Slot::Server(ServerFlag::RepetitionPenalty)),
        slot("--language-id"@) == Some(Slot::Server(ServerFlag::LanguageId)),
        slot("--vocoder-threads"@) == Some(Slot::Server(ServerFlag::VocoderThreads)),
        slot("--chunk-size"@) == Some(Slot::Server(ServerFlag::ChunkSize)),
        slot("--talker-kv-mode"@) == Some(Slot::Server(ServerFlag::TalkerKvMode)),
        slot("--backend"@) == Some(Slot::Backend),
        slot("--backend-fallback"@) == Some(Slot::BackendFallback),
        slot("--vocoder-ep"@) == Some(Slot::VocoderEp),
        slot("--vocoder-ep-fallback"@) == Some(Slot::VocoderEpFallback),
{
    reveal_strlit("--model-dir");
    reveal_strlit("--host");
    reveal_strlit("--port");
    reveal_strlit("--mode");
    reveal_strlit("--speaker");
    reveal_strlit("--instruct");
    reveal_strlit("--voice-clone-prompt");
    reveal_strlit("--voice-clone-wav");
    reveal_strlit("--voice-clone-ref-text");
    reveal_strlit("--threads");
    reveal_strlit("--frames");
    reveal_strlit("--temperature");
    reveal_strlit("--top-k");
    reveal_strlit("--top-p");
    reveal_strlit("--repetition-penalty");
    reveal_strlit("--language-id");
    reveal_strlit("--vocoder-threads");
    reveal_strlit("--chunk-size");
    reveal_strlit("--talker-kv-mode");
    reveal_strlit("--backend");
    reveal_strlit("--backend-fallback");
    reveal_strlit("--vocoder-ep");
    reveal_strlit("--vocoder-ep-fallback");
    assert("--model-dir"@.len() == 11);
    assert("--host"@.len() == 6 && "--host"@[2] == 'h');
    assert("--port"@.len() == 6 && "--port"@[2] == 'p');
    assert("--mode"@.len() == 6 && "--mode"@[2] == 'm');
    assert("--speaker"@.len() == 9 && "--speaker"@[2] == 's');
    assert("--instruct"@.len() == 10);
    assert("--voice-clone-prompt"@.len() == 20 && "--voice-clone-prompt"@[2] == 'v');
    assert("--voice-clone-wav"@.len() == 17 && "--voice-clone-wav"@[4] == 'i');
    assert("--voice-clone-ref-text"@.len() == 22);
    assert("--threads"@.len() == 9 && "--threads"@[2] == 't');
    assert("--frames"@.len() == 8);
    assert("--temperature"@.len() == 13 && "--temperature"@[2] == 't');
    assert("--top-k"@.len() == 7 && "--top-k"@[6] == 'k');
    assert("--top-p"@.len() == 7 && "--top-p"@[6] == 'p');
    assert("--repetition-penalty"@.len() == 20 && "--repetition-penalty"@[2] == 'r');
    assert("--language-id"@.len() == 13 && "--language-id"@[2] == 'l');
    assert("--vocoder-threads"@.len() == 17 && "--vocoder-threads"@[4] == 'c');
    assert("--chunk-size"@.len() == 12 && "--chunk-size"@[2] == 'c');
    assert("--talker-kv-mode"@.len() == 16);
    assert("--backend"@.len() == 9 && "--backend"@[2] == 'b');
    assert("--backend-fallback"@.len() == 18);
    assert("--vocoder-ep"@.len() == 12 && "--vocoder-ep"@[2] == 'v');
    assert("--vocoder-ep-fallback"@.len() == 21);
}

/// The value that a flag comes with last, if it comes.
pub open spec fn last_value(pairs: Seq<Pair>, flag: Seq<char>) -> Option<Seq<char>>
    decreases pairs.len(),
{
    if pairs.len() == 0 {
        None
    } else if pairs.last().0 == flag {
        Some(pairs.last().1)
    } else {
        last_value(pairs.drop_last(), flag)
    }
}

proof fn lemma_last_value(pairs: Seq<Pair>, flag: Seq<char>) -> (at: int)
    ensures
        last_value(pairs, flag) matches Some(value) ==> 0 <= at < pairs.len() && pairs[at] == (
            flag,
            value,
        ) && forall|j: int| at < j < pairs.len() ==> (#[trigger] pairs[j]).0 != flag,
        last_value(pairs, flag) is None ==> forall|j: int|
            0 <= j < pairs.len() ==> (#[trigger] pairs[j]).0 != flag,
    decreases pairs.len(),
{
    if pairs.len() == 0 {
        0
    } else if pairs.last().0 == flag {
        pairs.len() - 1
    } else {
        let at = lemma_last_value(pairs.drop_last(), flag);
        assert forall|j: int| 0 <= j < pairs.len() - 1 implies #[trigger] pairs[j]
            == pairs.drop_last()[j] by {}
        at
    }
}

/// The value that settings hold for a flag is the one that it comes with last.
proof fn lemma_held_value(
    model_dir: Seq<char>,
    pairs: Seq<Pair>,
    answers: Seq<Answer>,
    flag: Seq<char>,
    made: SettingsModel,
)
    requires
        slot(flag) is Some,
        read_from(SettingsModel::initial(model_dir), spelled(pairs), 0, answers_in(answers))
            == crate::server::arguments::ReadModel::Made(made),
    ensures
        last_value(pairs, flag) matches Some(value) ==> made.get(slot(flag)->Some_0) == value_set(
            (flag, value),
            answers_in(answers),
        ) && value_set((flag, value), answers_in(answers)) is Some,
        last_value(pairs, flag) is None ==> made.get(slot(flag)->Some_0) == SettingsModel::initial(
            model_dir,
        ).get(slot(flag)->Some_0),
{
    let models = answers_in(answers);
    let start = SettingsModel::initial(model_dir);
    let t = slot(flag)->Some_0;
    lemma_answers_fit(answers);
    lemma_made_means_set(start, pairs, 0, models);
    lemma_last_value_holds(start, pairs, 0, models);
    let at = lemma_last_value(pairs, flag);
    if last_value(pairs, flag) is Some {
        assert(!comes_from(pairs, at + 1, t)) by {
            assert forall|j: int| at + 1 <= j < pairs.len() implies slot((#[trigger] pairs[j]).0)
                != Some(t) by {
                if slot(pairs[j].0) == Some(t) {
                    crate::server::arguments::lemma_slot_is_a_word(flag, pairs[j].0);
                }
            }
        }
        assert(value_set(pairs[at], models) is Some);
    } else {
        assert(!comes_from(pairs, 0, t)) by {
            assert forall|j: int| 0 <= j < pairs.len() implies slot((#[trigger] pairs[j]).0) != Some(
                t,
            ) by {
                if slot(pairs[j].0) == Some(t) {
                    crate::server::arguments::lemma_slot_is_a_word(flag, pairs[j].0);
                }
            }
        }
    }
}

/// The text that a flag comes with last, or else another one.
pub open spec fn text_or(given: Option<Seq<char>>, default: Seq<char>) -> Seq<char> {
    match given {
        Some(value) => value,
        None => default,
    }
}

/// Whether a number is the one that a flag comes with last, or else the given one.
pub open spec fn counts(given: Option<Seq<char>>, max: nat, n: nat, default: nat) -> bool {
    match given {
        Some(value) => unsigned_value(value, max) == Some(n),
        None => n == default,
    }
}

/// Whether a number is the one that a flag comes with last, or else the given one.
pub open spec fn measures(given: Option<Seq<char>>, n: int, default: int) -> bool {
    match given {
        Some(value) => signed_value(value, i32::MIN as int, i32::MAX as int) == Some(n),
        None => n == default,
    }
}

/// Whether a real number is the one that the caller read for the flag's last value, or else the one
/// of the given bits.
pub open spec fn reads_as(
    given: Option<Seq<char>>,
    setting: RealSetting,
    answers: Seq<Answer>,
    bits: u32,
    default: u32,
) -> bool {
    match given {
        Some(value) => answer_to(answers_in(answers), QuestionModel::Real(setting, value)) == Some(
            Ok::<Value, Seq<char>>(Value::Real(crate::real32::Real32 { bits })),
        ),
        None => bits == default,
    }
}

/// A server is started with what its flags come with last. A flag that does not come leaves the
/// server at port 8080 of 127.0.0.1, with 4 threads, 256 frames, the temperature 0.9, the top-k 50,
/// the top-p 1.0, the repetition penalty 1.05, the language 2050, 4 vocoder threads, all frames
/// vocoded in the end, and `f16` keys and values.
pub proof fn lemma_flags_set_what_they_name(
    model_dir: String,
    args: Vec<String>,
    answers: Vec<Answer>,
    pairs: Seq<Pair>,
    r: Result<Parsed, String>,
)
    requires
        words(args@) == spelled(pairs),
        call_ensures(ServerConfig::parse, (model_dir, &args, &answers), r),
        r matches Ok(Parsed::Config(_)),
    ensures
        ({
            let config = r->Ok_0->Config_0;
            let d = config.request_defaults;
            let b = config.runtime_backends;
            let given = |flag: Seq<char>| last_value(pairs, flag);
            &&& config.model_dir@ == text_or(given("--model-dir"@), model_dir@)
            &&& match given("--host"@) {
                Some(value) => answer_to(answers_in(answers@), QuestionModel::Host(value)) == Some(
                    Ok::<Value, Seq<char>>(Value::Text(config.host@)),
                ),
                None => config.host@ == "127.0.0.1"@,
            }
            &&& counts(given("--port"@), 65_535, config.port as nat, 8080)
            &&& counts(given("--threads"@), usize::MAX as nat, d.thread_count as nat, 4)
            &&& counts(given("--frames"@), usize::MAX as nat, d.max_audio_frames as nat, 256)
            &&& counts(
                given("--vocoder-threads"@),
                usize::MAX as nat,
                d.vocoder_thread_count as nat,
                4,
            )
            &&& counts(given("--chunk-size"@), usize::MAX as nat, d.vocoder_chunk_size as nat, 0)
            &&& measures(given("--top-k"@), d.top_k as int, 50)
            &&& measures(given("--language-id"@), d.language_id as int, 2050)
            &&& reads_as(
                given("--temperature"@),
                RealSetting::Temperature,
                answers@,
                d.temperature.bits,
                0x3f66_6666,
            )
            &&& reads_as(
                given("--top-p"@),
                RealSetting::TopP,
                answers@,
                d.top_p.bits,
                0x3f80_0000,
            )
            &&& reads_as(
                given("--repetition-penalty"@),
                RealSetting::RepetitionPenalty,
                answers@,
                d.repetition_penalty.bits,
                0x3f86_6666,
            )
            &&& match given("--talker-kv-mode"@) {
                Some(value) => answer_to(answers_in(answers@), QuestionModel::KvMode(value))
                    == Some(Ok::<Value, Seq<char>>(Value::KvMode(d.talker_kv_mode))),
                None => d.talker_kv_mode == TalkerKvMode::F16,
            }
            &&& text_in(b.backend) == given("--backend"@)
            &&& text_in(b.backend_fallback) == given("--backend-fallback"@)
            &&& text_in(b.vocoder_ep) == given("--vocoder-ep"@)
            &&& text_in(b.vocoder_ep_fallback) == given("--vocoder-ep-fallback"@)
            &&& given("--mode"@) is Some
            &&& match config.mode {
                FixedMode::Plain => lowered(trimmed(given("--mode"@)->Some_0)) == "none"@,
                FixedMode::Custom { speaker, instruct } => {
                    &&& lowered(trimmed(given("--mode"@)->Some_0)) == "custom"@
                    &&& given("--speaker"@) == Some(speaker@)
                    &&& text_in(instruct) == given("--instruct"@)
                },
                FixedMode::Design { instruct } => {
                    &&& lowered(trimmed(given("--mode"@)->Some_0)) == "design"@
                    &&& text_in(instruct) == given("--instruct"@)
                },
                FixedMode::Clone { prompt_path, wav_path, ref_text } => {
                    &&& lowered(trimmed(given("--mode"@)->Some_0)) == "clone"@
                    &&& text_in(prompt_path) == given("--voice-clone-prompt"@)
                    &&& text_in(wav_path) == given("--voice-clone-wav"@)
                    &&& text_in(ref_text) == given("--voice-clone-ref-text"@)
                },
            }
        }),
{
    lemma_flags_are_known();
    let start = SettingsModel::initial(model_dir@);
    let made = read_from(start, spelled(pairs), 0, answers_in(answers@))->Made_0;
    lemma_held_value(model_dir@, pairs, answers@, "--model-dir"@, made);
    lemma_held_value(model_dir@, pairs, answers@, "--host"@, made);
    lemma_held_value(model_dir@, pairs, answers@, "--port"@, made);
    lemma_held_value(model_dir@, pairs, answers@, "--mode"@, made);
    lemma_held_value(model_dir@, pairs, answers@, "--speaker"@, made);
    lemma_held_value(model_dir@, pairs, answers@, "--instruct"@, made);
    lemma_held_value(model_dir@, pairs, answers@, "--voice-clone-prompt"@, made);
    lemma_held_value(model_dir@, pairs, answers@, "--voice-clone-wav"@, made);
    lemma_held_value(model_dir@, pairs, answers@, "--voice-clone-ref-text"@, made);
    lemma_held_value(model_dir@, pairs, answers@, "--threads"@, made);
    lemma_held_value(model_dir@, pairs, answers@, "--frames"@, made);
    lemma_held_value(model_dir@, pairs, answers@, "--temperature"@, made);
    lemma_held_value(model_dir@, pairs, answers@, "--top-k"@, made);
    lemma_held_value(model_dir@, pairs, answers@, "--top-p"@, made);
    lemma_held_value(model_dir@, pairs, answers@, "--repetition-penalty"@, made);
    lemma_held_value(model_dir@, pairs, answers@, "--language-id"@, made);
    lemma_held_value(model_dir@, pairs, answers@, "--vocoder-threads"@, made);
    lemma_held_value(model_dir@, pairs, answers@, "--chunk-size"@, made);
    lemma_held_value(model_dir@, pairs, answers@, "--talker-kv-mode"@, made);
    lemma_held_value(model_dir@, pairs, answers@, "--backend"@, made);
    lemma_held_value(model_dir@, pairs, answers@, "--backend-fallback"@, made);
    lemma_held_value(model_dir@, pairs, answers@, "--vocoder-ep"@, made);
    lemma_held_value(model_dir@, pairs, answers@, "--vocoder-ep-fallback"@, made);
}

/// Whether a request names another mode than the given one.
pub open spec fn names_another(request: SpeechRequest, mode: Seq<char>) -> bool {
    request.qts_conditioning matches Some(c) && c.kind matches Some(kind) && kind@ != mode
}

/// The instruction that a request gives of its own, if any: that of its conditioning goes first.
pub open spec fn own_instruction(request: SpeechRequest) -> Option<Seq<char>> {
    match request.qts_conditioning {
        Some(c) => match c.instruct {
            Some(text) => Some(text@),
            None => text_in(request.instructions),
        },
        None => text_in(request.instructions),
    }
}

/// A design server has a voice for every job that names no other mode and has an instruction, its
/// own or the server's: the voice is designed by its own, and by exactly the server's where it has
/// none. Without any the job is refused.
pub proof fn lemma_design_server_follows_instructions(
    instruct: Option<String>,
    payload: JobPayload,
    r: Result<Voice, String>,
)
    requires
        !names_another(payload.request, "design"@),
        call_ensures(voice_of, (&FixedMode::Design { instruct }, &payload), r),
    ensures
        match own_instruction(payload.request) {
            Some(own) => r matches Ok(Voice::Design(text)) && text@ == own,
            None => match instruct {
                Some(startup) => r matches Ok(Voice::Design(text)) && text@ == startup@,
                None => r matches Err(message) && message@
                    == "design mode requires `instructions`, `qts_conditioning.instruct`, or startup --instruct"@,
            },
        },
{
}

/// A custom server speaks with its own speaker for every job that names neither another mode nor
/// another speaker, instructed by the job or else by the server. Another speaker is refused.
pub proof fn lemma_custom_server_keeps_its_speaker(
    speaker: String,
    instruct: Option<String>,
    payload: JobPayload,
    r: Result<Voice, String>,
)
    requires
        !names_another(payload.request, "custom"@),
        call_ensures(voice_of, (&FixedMode::Custom { speaker, instruct }, &payload), r),
    ensures
        ({
            let another = payload.request.qts_conditioning matches Some(c)
                && c.speaker matches Some(asked) && asked@ != speaker@;
            &&& another <==> r is Err
            &&& !another ==> {
                &&& r->Ok_0 is Custom
                &&& r->Ok_0->Custom_speaker@ == speaker@
                &&& text_in(r->Ok_0->Custom_instruct) == (match own_instruction(payload.request) {
                    Some(own) => Some(own),
                    None => text_in(instruct),
                })
            }
        }),
{
}

/// A plain server speaks every job that names no other mode plainly.
pub proof fn lemma_plain_server_is_plain(payload: JobPayload, r: Result<Voice, String>)
    requires
        !names_another(payload.request, "none"@),
        call_ensures(voice_of, (&FixedMode::Plain, &payload), r),
    ensures
        r matches Ok(Voice::Plain),
{
}

/// No server speaks a job that names another mode.
pub proof fn lemma_other_modes_are_refused(
    mode: FixedMode,
    payload: JobPayload,
    r: Result<Voice, String>,
)
    requires
        names_another(
            payload.request,
            match mode {
                FixedMode::Plain => "none"@,
                FixedMode::Custom { .. } => "custom"@,
                FixedMode::Design { .. } => "design"@,
                FixedMode::Clone { .. } => "clone"@,
            },
        ),
        call_ensures(voice_of, (&mode, &payload), r),
    ensures
        r is Err,
{
}

/// A clone server clones the recording that comes with a job, or else what the job names, or else
/// what the server was started with; of the last two a prompt goes before a recording, and each
/// recording comes with the text that stands beside it. A job without any is refused.
pub proof fn lemma_clone_server_finds_its_source(
    prompt_path: Option<String>,
    wav_path: Option<String>,
    ref_text: Option<String>,
    payload: JobPayload,
    r: Result<Voice, String>,
)
    requires
        !names_another(payload.request, "clone"@),
        call_ensures(
            voice_of,
            (&FixedMode::Clone { prompt_path, wav_path, ref_text }, &payload),
            r,
        ),
    ensures
        ({
            let c = payload.request.qts_conditioning;
            let asked_prompt = match c {
                Some(c) => text_in(c.prompt_path),
                None => None,
            };
            let asked_wav = match c {
                Some(c) => text_in(c.wav_path),
                None => None,
            };
            let asked_text = match c {
                Some(c) => text_in(c.ref_text),
                None => None,
            };
            let source = r->Ok_0@->Clone_0;
            if payload.upload_wav is Some {
                r is Ok && r->Ok_0@ is Clone && source == CloneSourceModel::Upload {
                    ref_text: asked_text,
                }
            } else if asked_prompt is Some {
                r is Ok && r->Ok_0@ is Clone && source == CloneSourceModel::Prompt {
                    path: asked_prompt->Some_0,
                }
            } else if asked_wav is Some {
                r is Ok && r->Ok_0@ is Clone && source == CloneSourceModel::Wav {
                    path: asked_wav->Some_0,
                    ref_text: asked_text,
                }
            } else if prompt_path is Some {
                r is Ok && r->Ok_0@ is Clone && source == CloneSourceModel::Prompt {
                    path: prompt_path->Some_0@,
                }
            } else if wav_path is Some {
                r is Ok && r->Ok_0@ is Clone && source == CloneSourceModel::Wav {
                    path: wav_path->Some_0@,
                    ref_text: text_in(ref_text),
                }
            } else {
                r is Err
            }
        }),
{
}

/// Where a cloned voice comes from: the recording that came with the request goes before everything
/// that is named, what the request names before what the server was started with, and a prompt
/// before a recording. What is said in a recording comes from where the recording comes from.
pub proof fn lemma_order_of_clone_sources(
    mode: FixedMode,
    payload: JobPayload,
    r: Result<CloneSource, String>,
)
    requires
        call_ensures(resolve_clone_prompt, (&mode, &payload), r),
    ensures
        ({
            let asked = payload.request.qts_conditioning;
            let asks_prompt = asked is Some && asked->0.prompt_path is Some;
            let asks_wav = asked is Some && asked->0.wav_path is Some;
            let has_prompt = mode is Clone && mode->Clone_prompt_path is Some;
            let has_wav = mode is Clone && mode->Clone_wav_path is Some;
            let uploaded = payload.upload_wav is Some;
            &&& r is Ok <==> uploaded || asks_prompt || asks_wav || has_prompt || has_wav
            &&& r matches Err(message) ==> message@
                == "clone mode requires qts_conditioning.prompt_path, qts_conditioning.wav_path, multipart ref_wav, or startup clone source"@
            &&& uploaded ==> {
                &&& r->Ok_0 is Upload
                &&& text_in(r->Ok_0->Upload_ref_text) == (if asked is Some {
                    text_in(asked->0.ref_text)
                } else {
                    None
                })
            }
            &&& !uploaded && asks_prompt ==> r->Ok_0 is Prompt && r->Ok_0->Prompt_path@
                == asked->0.prompt_path->0@
            &&& !uploaded && !asks_prompt && asks_wav ==> {
                &&& r->Ok_0 is Wav
                &&& r->Ok_0->Wav_path@ == asked->0.wav_path->0@
                &&& text_in(r->Ok_0->Wav_ref_text) == text_in(asked->0.ref_text)
            }
            &&& !uploaded && !asks_prompt && !asks_wav && has_prompt ==> r->Ok_0 is Prompt
                && r->Ok_0->Prompt_path@ == mode->Clone_prompt_path->0@
            &&& !uploaded && !asks_prompt && !asks_wav && !has_prompt && has_wav ==> {
                &&& r->Ok_0 is Wav
                &&& r->Ok_0->Wav_path@ == mode->Clone_wav_path->0@
                &&& text_in(r->Ok_0->Wav_ref_text) == text_in(mode->Clone_ref_text)
            }
        }),
{
}

/// A job is synthesised as its request says, by the server's defaults, and with the voice that the
/// server's mode gives it. What is wrong with the request is told before what is wrong with the voice.
pub proof fn lemma_job_is_request_and_voice(
    config: ServerConfig,
    payload: JobPayload,
    kv_mode: Option<Result<TalkerKvMode, String>>,
    r: Result<(JobSynthesis, Voice), String>,
    request: Result<JobSynthesis, String>,
    voice: Result<Voice, String>,
)
    requires
        call_ensures(synthesize_job, (&config, &payload, kv_mode), r),
        call_ensures(
            build_request,
            (&config.request_defaults, &payload.request, kv_mode),
            request,
        ),
        call_ensures(voice_of, (&config.mode, &payload), voice),
    ensures
        request matches Err(message) ==> r is Err && r->Err_0@ == message@,
        request is Ok && voice is Err ==> r is Err && r->Err_0@ == voice->Err_0@,
        request is Ok && voice is Ok ==> {
            &&& r is Ok
            &&& same_synthesis(r->Ok_0.0, request->Ok_0)
            &&& r->Ok_0.1@ == voice->Ok_0@
        },
{
}

/// A server cannot be started to clone both a prompt and a recording.
pub proof fn lemma_one_clone_source_at_start(config: ServerConfig, r: Result<(), String>)
    requires
        call_ensures(ServerConfig::validate, (&config,), r),
    ensures
        r is Err <==> config.mode is Clone && config.mode->Clone_prompt_path is Some
            && config.mode->Clone_wav_path is Some,
        r matches Err(message) ==> message@
            == "--voice-clone-prompt cannot be combined with --voice-clone-wav"@,
{
}

/// A server is configured by its settings, in the mode that they name; they have to name one.
pub proof fn lemma_settings_configure(
    settings: crate::server::config::Settings,
    r: Result<ServerConfig, String>,
    name: &str,
    mode: Result<FixedMode, String>,
)
    requires
        call_ensures(ServerConfig::from_settings, (settings,), r),
        settings.mode_args.mode matches Some(word) ==> name@ == word@,
        call_ensures(FixedMode::parse, (name, &settings.mode_args), mode),
    ensures
        settings.mode_args.mode is None ==> r is Err && r->Err_0@
            == "--mode is required; choose none, custom, design, or clone"@,
        settings.mode_args.mode is Some && mode is Err ==> r is Err && r->Err_0@ == mode->Err_0@,
        settings.mode_args.mode is Some && mode is Ok ==> {
            &&& r is Ok
            &&& r->Ok_0.mode@ == mode->Ok_0@
            &&& r->Ok_0.model_dir@ == settings.model_dir@
            &&& r->Ok_0.host@ == settings.host@
            &&& r->Ok_0.port == settings.port
            &&& r->Ok_0.request_defaults == settings.defaults
            &&& r->Ok_0.runtime_backends@ == settings.runtime_backends@
        },
{
}

} // verus!
