//! What a server is started with.

use vstd::prelude::*;
use crate::cli::args::RuntimeBackendOverrides;
#[allow(unused_imports)]
use crate::cli::args::OverridesModel;
use crate::real32::Real32;
use crate::server::mode::{FixedMode, ModeArgs};
#[allow(unused_imports)]
use crate::server::mode::{mode_named, ModeArgsModel, ModeModel};
use crate::text::{parse_i32, parse_unsigned, same_text};
#[allow(unused_imports)]
use crate::text::{signed_value, unsigned_value};

verus! {

/// How the transformer keeps its keys and values.
#[derive(Debug, Clone, Copy, PartialEq, Eq, Structural)]
pub enum TalkerKvMode {
    F16,
    TurboQuant,
}

/// What holds of a request that does not say otherwise.
#[derive(Debug, Clone, Copy, PartialEq, Eq, Structural)]
pub struct RequestDefaults {
    pub thread_count: usize,
    pub max_audio_frames: usize,
    pub temperature: Real32,
    pub top_k: i32,
    pub top_p: Real32,
    pub repetition_penalty: Real32,
    pub language_id: i32,
    pub vocoder_thread_count: usize,
    pub vocoder_chunk_size: usize,
    pub talker_kv_mode: TalkerKvMode,
}

impl RequestDefaults {
    /// The defaults of a server started without flags: the temperature 0.9, the top-p 1.0 and the
    /// repetition penalty 1.05.
    pub open spec fn initial() -> RequestDefaults {
        RequestDefaults {
            thread_count: 4,
            max_audio_frames: 256,
            temperature: Real32 { bits: 0x3f66_6666 },
            top_k: 50,
            top_p: Real32 { bits: 0x3f80_0000 },
            repetition_penalty: Real32 { bits: 0x3f86_6666 },
            language_id: 2050,
            vocoder_thread_count: 4,
            vocoder_chunk_size: 0,
            talker_kv_mode: TalkerKvMode::F16,
        }
    }
}

/// A flag with a value.
#[derive(Debug, Clone, Copy, PartialEq, Eq, Structural)]
pub enum ServerFlag {
    ModelDir,
    Host,
    Port,
    Mode,
    Speaker,
    Instruct,
    VoiceClonePrompt,
    VoiceCloneWav,
    VoiceCloneRefText,
    Threads,
    Frames,
    Temperature,
    TopK,
    TopP,
    RepetitionPenalty,
    LanguageId,
    VocoderThreads,
    ChunkSize,
    TalkerKvMode,
}

/// The flag that a word is, if any.
pub open spec fn server_flag(word: Seq<char>) -> Option<ServerFlag> {
    if word == "--model-dir"@ {
        Some(ServerFlag::ModelDir)
    } else if word == "--host"@ {
        Some(ServerFlag::Host)
    } else if word == "--port"@ {
        Some(ServerFlag::Port)
    } else if word == "--mode"@ {
        Some(ServerFlag::Mode)
    } else if word == "--speaker"@ {
        Some(ServerFlag::Speaker)
    } else if word == "--instruct"@ {
        Some(ServerFlag::Instruct)
    } else if word == "--voice-clone-prompt"@ {
        Some(ServerFlag::VoiceClonePrompt)
    } else if word == "--voice-clone-wav"@ {
        Some(ServerFlag::VoiceCloneWav)
    } else if word == "--voice-clone-ref-text"@ {
        Some(ServerFlag::VoiceCloneRefText)
    } else if word == "--threads"@ {
        Some(ServerFlag::Threads)
    } else if word == "--frames"@ {
        Some(ServerFlag::Frames)
    } else if word == "--temperature"@ {
        Some(ServerFlag::Temperature)
    } else if word == "--top-k"@ {
        Some(ServerFlag::TopK)
    } else if word == "--top-p"@ {
        Some(ServerFlag::TopP)
    } else if word == "--repetition-penalty"@ {
        Some(ServerFlag::RepetitionPenalty)
    } else if word == "--language-id"@ {
        Some(ServerFlag::LanguageId)
    } else if word == "--vocoder-threads"@ {
        Some(ServerFlag::VocoderThreads)
    } else if word == "--chunk-size"@ {
        Some(ServerFlag::ChunkSize)
    } else if word == "--talker-kv-mode"@ {
        Some(ServerFlag::TalkerKvMode)
    } else {
        None
    }
}

/// The flag that a word is, if any.
pub(crate) fn flag_of(word: &str) -> (r: Option<ServerFlag>)
    ensures
        r == server_flag(word@),
{
    if same_text(word, "--model-dir") {
        Some(ServerFlag::ModelDir)
    } else if same_text(word, "--host") {
        Some(ServerFlag::Host)
    } else if same_text(word, "--port") {
        Some(ServerFlag::Port)
    } else if same_text(word, "--mode") {
        Some(ServerFlag::Mode)
    } else if same_text(word, "--speaker") {
        Some(ServerFlag::Speaker)
    } else if same_text(word, "--instruct") {
        Some(ServerFlag::Instruct)
    } else if same_text(word, "--voice-clone-prompt") {
        Some(ServerFlag::VoiceClonePrompt)
    } else if same_text(word, "--voice-clone-wav") {
        Some(ServerFlag::VoiceCloneWav)
    } else if same_text(word, "--voice-clone-ref-text") {
        Some(ServerFlag::VoiceCloneRefText)
    } else if same_text(word, "--threads") {
        Some(ServerFlag::Threads)
    } else if same_text(word, "--frames") {
        Some(ServerFlag::Frames)
    } else if same_text(word, "--temperature") {
        Some(ServerFlag::Temperature)
    } else if same_text(word, "--top-k") {
        Some(ServerFlag::TopK)
    } else if same_text(word, "--top-p") {
        Some(ServerFlag::TopP)
    } else if same_text(word, "--repetition-penalty") {
        Some(ServerFlag::RepetitionPenalty)
    } else if same_text(word, "--language-id") {
        Some(ServerFlag::LanguageId)
    } else if same_text(word, "--vocoder-threads") {
        Some(ServerFlag::VocoderThreads)
    } else if same_text(word, "--chunk-size") {
        Some(ServerFlag::ChunkSize)
    } else if same_text(word, "--talker-kv-mode") {
        Some(ServerFlag::TalkerKvMode)
    } else {
        None
    }
}

/// A value that the caller has to read: an address, a real number or a mode of the transformer.
#[derive(Debug)]
pub enum Question {
    Host(String),
    Real(RealSetting, String),
    KvMode(String),
}

/// The settings that are real numbers.
#[derive(Debug, Clone, Copy, PartialEq, Eq, Structural)]
pub enum RealSetting {
    Temperature,
    TopP,
    RepetitionPenalty,
}

/// What contracts say of a [`Question`].
pub enum QuestionModel {
    Host(Seq<char>),
    Real(RealSetting, Seq<char>),
    KvMode(Seq<char>),
}

impl View for Question {
    type V = QuestionModel;

    open spec fn view(&self) -> QuestionModel {
        match self {
            Question::Host(text) => QuestionModel::Host(text@),
            Question::Real(setting, text) => QuestionModel::Real(*setting, text@),
            Question::KvMode(text) => QuestionModel::KvMode(text@),
        }
    }
}

/// The settings that the start-up arguments read so far make.
#[derive(Debug)]
pub struct Settings {
    pub model_dir: String,
    pub host: String,
    pub port: u16,
    pub mode_args: ModeArgs,
    pub defaults: RequestDefaults,
    pub runtime_backends: RuntimeBackendOverrides,
}

/// What contracts say of [`Settings`].
pub struct SettingsModel {
    pub model_dir: Seq<char>,
    pub host: Seq<char>,
    pub port: u16,
    pub mode_args: ModeArgsModel,
    pub defaults: RequestDefaults,
    pub runtime_backends: OverridesModel,
}

impl View for Settings {
    type V = SettingsModel;

    open spec fn view(&self) -> SettingsModel {
        SettingsModel {
            model_dir: self.model_dir@,
            host: self.host@,
            port: self.port,
            mode_args: self.mode_args@,
            defaults: self.defaults,
            runtime_backends: self.runtime_backends@,
        }
    }
}

/// What is said of a value that a flag does not take.
pub open spec fn invalid_value(flag: Seq<char>, value: Seq<char>) -> Seq<char> {
    "invalid value for "@ + flag + ": "@ + value
}

fn invalid_value_text(flag: &str, value: &str) -> (r: String)
    ensures
        r@ == invalid_value(flag@, value@),
{
    let mut message = "invalid value for ".to_string();
    message.append(flag);
    message.append(": ");
    message.append(value);
    message
}

/// A flag that takes a value: one of the server's own, or one that chooses backends.
#[derive(Debug, Clone, Copy, PartialEq, Eq, Structural)]
pub enum Slot {
    Server(ServerFlag),
    Backend,
    BackendFallback,
    VocoderEp,
    VocoderEpFallback,
}

/// The flag with a value that a word is, if any.
pub open spec fn slot(word: Seq<char>) -> Option<Slot> {
    if word == "--backend"@ {
        Some(Slot::Backend)
    } else if word == "--backend-fallback"@ {
        Some(Slot::BackendFallback)
    } else if word == "--vocoder-ep"@ {
        Some(Slot::VocoderEp)
    } else if word == "--vocoder-ep-fallback"@ {
        Some(Slot::VocoderEpFallback)
    } else {
        match server_flag(word) {
            Some(flag) => Some(Slot::Server(flag)),
            None => None,
        }
    }
}

/// The value of a flag once it has been read.
pub enum Value {
    Text(Seq<char>),
    Count(nat),
    Signed(int),
    Real(Real32),
    KvMode(TalkerKvMode),
}

/// Whether a flag can have a value.
pub open spec fn fits(slot: Slot, value: Value) -> bool {
    match slot {
        Slot::Server(ServerFlag::Port) => value matches Value::Count(n) && n <= u16::MAX,
        Slot::Server(ServerFlag::Threads)
        | Slot::Server(ServerFlag::Frames)
        | Slot::Server(ServerFlag::VocoderThreads)
        | Slot::Server(ServerFlag::ChunkSize) => value matches Value::Count(n) && n <= usize::MAX,
        Slot::Server(ServerFlag::TopK)
        | Slot::Server(ServerFlag::LanguageId) => value matches Value::Signed(n) && i32::MIN <= n <= i32::MAX,
        Slot::Server(ServerFlag::Temperature)
        | Slot::Server(ServerFlag::TopP)
        | Slot::Server(ServerFlag::RepetitionPenalty) => value is Real,
        Slot::Server(ServerFlag::TalkerKvMode) => value is KvMode,
        _ => value is Text,
    }
}

/// A text that may be missing as the value of a flag.
pub open spec fn text_value(text: Option<Seq<char>>) -> Option<Value> {
    match text {
        Some(t) => Some(Value::Text(t)),
        None => None,
    }
}

/// What a flag of the server's own makes of its value.
pub enum Reading {
    /// It is read.
    Read(Value),
    /// The caller has to read it.
    Asks(QuestionModel),
    /// It is refused.
    Refused(Seq<char>),
}

/// The number of a flag that counts up to `max`.
pub open spec fn read_count(word: Seq<char>, value: Seq<char>, max: nat) -> Reading {
    match unsigned_value(value, max) {
        Some(n) => Reading::Read(Value::Count(n)),
        None => Reading::Refused(invalid_value(word, value)),
    }
}

/// The number of a flag that takes an `i32`.
pub open spec fn read_signed(word: Seq<char>, value: Seq<char>) -> Reading {
    match signed_value(value, i32::MIN as int, i32::MAX as int) {
        Some(n) => Reading::Read(Value::Signed(n)),
        None => Reading::Refused(invalid_value(word, value)),
    }
}

/// What a flag of the server's own makes of its value.
pub open spec fn reading(word: Seq<char>, flag: ServerFlag, value: Seq<char>) -> Reading {
    match flag {
        ServerFlag::Host => Reading::Asks(QuestionModel::Host(value)),
        ServerFlag::Port => read_count(word, value, u16::MAX as nat),
        ServerFlag::Threads
        | ServerFlag::Frames
        | ServerFlag::VocoderThreads
        | ServerFlag::ChunkSize => read_count(word, value, usize::MAX as nat),
        ServerFlag::TopK | ServerFlag::LanguageId => read_signed(word, value),
        ServerFlag::Temperature => Reading::Asks(
            QuestionModel::Real(RealSetting::Temperature, value),
        ),
        ServerFlag::TopP => Reading::Asks(QuestionModel::Real(RealSetting::TopP, value)),
        ServerFlag::RepetitionPenalty => Reading::Asks(
            QuestionModel::Real(RealSetting::RepetitionPenalty, value),
        ),
        ServerFlag::TalkerKvMode => Reading::Asks(QuestionModel::KvMode(value)),
        _ => Reading::Read(Value::Text(value)),
    }
}

impl QuestionModel {
    /// The flag whose value is asked for.
    pub open spec fn slot(self) -> Slot {
        Slot::Server(
            match self {
                QuestionModel::Host(_) => ServerFlag::Host,
                QuestionModel::Real(RealSetting::Temperature, _) => ServerFlag::Temperature,
                QuestionModel::Real(RealSetting::TopP, _) => ServerFlag::TopP,
                QuestionModel::Real(RealSetting::RepetitionPenalty, _) => {
                    ServerFlag::RepetitionPenalty
                },
                QuestionModel::KvMode(_) => ServerFlag::TalkerKvMode,
            },
        )
    }
}

impl SettingsModel {
    /// The settings of a server started without arguments.
    pub open spec fn initial(model_dir: Seq<char>) -> SettingsModel {
        SettingsModel {
            model_dir,
            host: "127.0.0.1"@,
            port: 8080,
            mode_args: ModeArgsModel {
                mode: None,
                speaker: None,
                instruct: None,
                voice_clone_prompt: None,
                voice_clone_wav: None,
                voice_clone_ref_text: None,
            },
            defaults: RequestDefaults::initial(),
            runtime_backends: OverridesModel::unset(),
        }
    }

    /// The settings with the value of one flag replaced.
    pub open spec fn with(self, slot: Slot, value: Value) -> SettingsModel {
        let a = self.mode_args;
        let d = self.defaults;
        let b = self.runtime_backends;
        match slot {
            Slot::Server(ServerFlag::ModelDir) => SettingsModel { model_dir: value->Text_0, ..self },
            Slot::Server(ServerFlag::Host) => SettingsModel { host: value->Text_0, ..self },
            Slot::Server(ServerFlag::Port) => SettingsModel { port: value->Count_0 as u16, ..self },
            Slot::Server(ServerFlag::Mode) => SettingsModel {
                mode_args: ModeArgsModel { mode: Some(value->Text_0), ..a },
                ..self
            },
            Slot::Server(ServerFlag::Speaker) => SettingsModel {
                mode_args: ModeArgsModel { speaker: Some(value->Text_0), ..a },
                ..self
            },
            Slot::Server(ServerFlag::Instruct) => SettingsModel {
                mode_args: ModeArgsModel { instruct: Some(value->Text_0), ..a },
                ..self
            },
            Slot::Server(ServerFlag::VoiceClonePrompt) => SettingsModel {
                mode_args: ModeArgsModel { voice_clone_prompt: Some(value->Text_0), ..a },
                ..self
            },
            Slot::Server(ServerFlag::VoiceCloneWav) => SettingsModel {
                mode_args: ModeArgsModel { voice_clone_wav: Some(value->Text_0), ..a },
                ..self
            },
            Slot::Server(ServerFlag::VoiceCloneRefText) => SettingsModel {
                mode_args: ModeArgsModel { voice_clone_ref_text: Some(value->Text_0), ..a },
                ..self
            },
            Slot::Server(ServerFlag::Threads) => SettingsModel {
                defaults: RequestDefaults { thread_count: value->Count_0 as usize, ..d },
                ..self
            },
            Slot::Server(ServerFlag::Frames) => SettingsModel {
                defaults: RequestDefaults { max_audio_frames: value->Count_0 as usize, ..d },
                ..self
            },
            Slot::Server(ServerFlag::Temperature) => SettingsModel {
                defaults: RequestDefaults { temperature: value->Real_0, ..d },
                ..self
            },
            Slot::Server(ServerFlag::TopK) => SettingsModel {
                defaults: RequestDefaults { top_k: value->Signed_0 as i32, ..d },
                ..self
            },
            Slot::Server(ServerFlag::TopP) => SettingsModel {
                defaults: RequestDefaults { top_p: value->Real_0, ..d },
                ..self
            },
            Slot::Server(ServerFlag::RepetitionPenalty) => SettingsModel {
                defaults: RequestDefaults { repetition_penalty: value->Real_0, ..d },
                ..self
            },
            Slot::Server(ServerFlag::LanguageId) => SettingsModel {
                defaults: RequestDefaults { language_id: value->Signed_0 as i32, ..d },
                ..self
            },
            Slot::Server(ServerFlag::VocoderThreads) => SettingsModel {
                defaults: RequestDefaults { vocoder_thread_count: value->Count_0 as usize, ..d },
                ..self
            },
            Slot::Server(ServerFlag::ChunkSize) => SettingsModel {
                defaults: RequestDefaults { vocoder_chunk_size: value->Count_0 as usize, ..d },
                ..self
            },
            Slot::Server(ServerFlag::TalkerKvMode) => SettingsModel {
                defaults: RequestDefaults { talker_kv_mode: value->KvMode_0, ..d },
                ..self
            },
            Slot::Backend => SettingsModel {
                runtime_backends: OverridesModel { backend: Some(value->Text_0), ..b },
                ..self
            },
            Slot::BackendFallback => SettingsModel {
                runtime_backends: OverridesModel { backend_fallback: Some(value->Text_0), ..b },
                ..self
            },
            Slot::VocoderEp => SettingsModel {
                runtime_backends: OverridesModel { vocoder_ep: Some(value->Text_0), ..b },
                ..self
            },
            Slot::VocoderEpFallback => SettingsModel {
                runtime_backends: OverridesModel { vocoder_ep_fallback: Some(value->Text_0), ..b },
                ..self
            },
        }
    }

    /// The value that a flag has in settings, if any.
    pub open spec fn get(self, slot: Slot) -> Option<Value> {
        match slot {
            Slot::Server(ServerFlag::ModelDir) => Some(Value::Text(self.model_dir)),
            Slot::Server(ServerFlag::Host) => Some(Value::Text(self.host)),
            Slot::Server(ServerFlag::Port) => Some(Value::Count(self.port as nat)),
            Slot::Server(ServerFlag::Mode) => text_value(self.mode_args.mode),
            Slot::Server(ServerFlag::Speaker) => text_value(self.mode_args.speaker),
            Slot::Server(ServerFlag::Instruct) => text_value(self.mode_args.instruct),
            Slot::Server(ServerFlag::VoiceClonePrompt) => text_value(self.mode_args.voice_clone_prompt),
            Slot::Server(ServerFlag::VoiceCloneWav) => text_value(self.mode_args.voice_clone_wav),
            Slot::Server(ServerFlag::VoiceCloneRefText) => text_value(self.mode_args.voice_clone_ref_text),
            Slot::Server(ServerFlag::Threads) => Some(Value::Count(self.defaults.thread_count as nat)),
            Slot::Server(ServerFlag::Frames) => Some(Value::Count(self.defaults.max_audio_frames as nat)),
            Slot::Server(ServerFlag::Temperature) => Some(Value::Real(self.defaults.temperature)),
            Slot::Server(ServerFlag::TopK) => Some(Value::Signed(self.defaults.top_k as int)),
            Slot::Server(ServerFlag::TopP) => Some(Value::Real(self.defaults.top_p)),
            Slot::Server(ServerFlag::RepetitionPenalty) => Some(Value::Real(self.defaults.repetition_penalty)),
            Slot::Server(ServerFlag::LanguageId) => Some(Value::Signed(self.defaults.language_id as int)),
            Slot::Server(ServerFlag::VocoderThreads) => Some(Value::Count(self.defaults.vocoder_thread_count as nat)),
            Slot::Server(ServerFlag::ChunkSize) => Some(Value::Count(self.defaults.vocoder_chunk_size as nat)),
            Slot::Server(ServerFlag::TalkerKvMode) => Some(Value::KvMode(self.defaults.talker_kv_mode)),
            Slot::Backend => text_value(self.runtime_backends.backend),
            Slot::BackendFallback => text_value(self.runtime_backends.backend_fallback),
            Slot::VocoderEp => text_value(self.runtime_backends.vocoder_ep),
            Slot::VocoderEpFallback => text_value(self.runtime_backends.vocoder_ep_fallback),
        }
    }
}

/// A value that is set is the one that is held, and no other changes.
pub proof fn lemma_set_value_holds(s: SettingsModel, slot: Slot, value: Value)
    requires
        fits(slot, value),
    ensures
        s.with(slot, value).get(slot) == Some(value),
        forall|other: Slot| other != slot ==> #[trigger] s.with(slot, value).get(other) == s.get(other),
{
}

/// Settings that hold the same values are the same.
pub proof fn lemma_values_make_settings(a: SettingsModel, b: SettingsModel)
    requires
        forall|slot: Slot| #[trigger] a.get(slot) == b.get(slot),
    ensures
        a == b,
{
    assert(a.get(Slot::Server(ServerFlag::ModelDir)) == b.get(Slot::Server(ServerFlag::ModelDir)));
    assert(a.get(Slot::Server(ServerFlag::Host)) == b.get(Slot::Server(ServerFlag::Host)));
    assert(a.get(Slot::Server(ServerFlag::Port)) == b.get(Slot::Server(ServerFlag::Port)));
    assert(a.get(Slot::Server(ServerFlag::Mode)) == b.get(Slot::Server(ServerFlag::Mode)));
    assert(a.get(Slot::Server(ServerFlag::Speaker)) == b.get(Slot::Server(ServerFlag::Speaker)));
    assert(a.get(Slot::Server(ServerFlag::Instruct)) == b.get(Slot::Server(ServerFlag::Instruct)));
    assert(a.get(Slot::Server(ServerFlag::VoiceClonePrompt)) == b.get(Slot::Server(ServerFlag::VoiceClonePrompt)));
    assert(a.get(Slot::Server(ServerFlag::VoiceCloneWav)) == b.get(Slot::Server(ServerFlag::VoiceCloneWav)));
    assert(a.get(Slot::Server(ServerFlag::VoiceCloneRefText)) == b.get(Slot::Server(ServerFlag::VoiceCloneRefText)));
    assert(a.get(Slot::Server(ServerFlag::Threads)) == b.get(Slot::Server(ServerFlag::Threads)));
    assert(a.get(Slot::Server(ServerFlag::Frames)) == b.get(Slot::Server(ServerFlag::Frames)));
    assert(a.get(Slot::Server(ServerFlag::Temperature)) == b.get(Slot::Server(ServerFlag::Temperature)));
    assert(a.get(Slot::Server(ServerFlag::TopK)) == b.get(Slot::Server(ServerFlag::TopK)));
    assert(a.get(Slot::Server(ServerFlag::TopP)) == b.get(Slot::Server(ServerFlag::TopP)));
    assert(a.get(Slot::Server(ServerFlag::RepetitionPenalty)) == b.get(Slot::Server(ServerFlag::RepetitionPenalty)));
    assert(a.get(Slot::Server(ServerFlag::LanguageId)) == b.get(Slot::Server(ServerFlag::LanguageId)));
    assert(a.get(Slot::Server(ServerFlag::VocoderThreads)) == b.get(Slot::Server(ServerFlag::VocoderThreads)));
    assert(a.get(Slot::Server(ServerFlag::ChunkSize)) == b.get(Slot::Server(ServerFlag::ChunkSize)));
    assert(a.get(Slot::Server(ServerFlag::TalkerKvMode)) == b.get(Slot::Server(ServerFlag::TalkerKvMode)));
    assert(a.get(Slot::Backend) == b.get(Slot::Backend));
    assert(a.get(Slot::BackendFallback) == b.get(Slot::BackendFallback));
    assert(a.get(Slot::VocoderEp) == b.get(Slot::VocoderEp));
    assert(a.get(Slot::VocoderEpFallback) == b.get(Slot::VocoderEpFallback));
}

/// What became of a flag that was handed to settings.
pub(crate) enum Reply {
    Made,
    Asks(Question),
    Refused(String),
}

impl Settings {
    /// The settings of a server started without arguments. `model_dir` is where the model is.
    pub(crate) fn initial(model_dir: String) -> (r: Settings)
        ensures
            r@ == SettingsModel::initial(model_dir@),
    {
        Settings {
            model_dir,
            host: "127.0.0.1".to_string(),
            port: 8080,
            mode_args: ModeArgs::default(),
            defaults: RequestDefaults {
                thread_count: 4,
                max_audio_frames: 256,
                temperature: Real32 { bits: 0x3f66_6666 },
                top_k: 50,
                top_p: Real32 { bits: 0x3f80_0000 },
                repetition_penalty: Real32 { bits: 0x3f86_6666 },
                language_id: 2050,
                vocoder_thread_count: 4,
                vocoder_chunk_size: 0,
                talker_kv_mode: TalkerKvMode::F16,
            },
            runtime_backends: RuntimeBackendOverrides::default(),
        }
    }

    /// Takes a flag of the server's own up.
    pub(crate) fn take(&mut self, word: &str, flag: ServerFlag, value: String) -> (r: Reply)
        ensures
            match (reading(word@, flag, value@), r) {
                (Reading::Read(v), Reply::Made) => final(self)@ == old(self)@.with(
                    Slot::Server(flag),
                    v,
                ),
                (Reading::Asks(q), Reply::Asks(question)) => final(self)@ == old(self)@
                    && question@ == q,
                (Reading::Refused(m), Reply::Refused(message)) => message@ == m,
                _ => false,
            },
    {
        match flag {
            ServerFlag::ModelDir => {
                self.model_dir = value;
                Reply::Made
            },
            ServerFlag::Host => Reply::Asks(Question::Host(value)),
            ServerFlag::Port => match parse_unsigned(value.as_str(), 65_535) {
                Some(n) => {
                    self.port = n as u16;
                    Reply::Made
                },
                None => Reply::Refused(invalid_value_text(word, value.as_str())),
            },
            ServerFlag::Mode => {
                self.mode_args.mode = Some(value);
                Reply::Made
            },
            ServerFlag::Speaker => {
                self.mode_args.speaker = Some(value);
                Reply::Made
            },
            ServerFlag::Instruct => {
                self.mode_args.instruct = Some(value);
                Reply::Made
            },
            ServerFlag::VoiceClonePrompt => {
                self.mode_args.voice_clone_prompt = Some(value);
                Reply::Made
            },
            ServerFlag::VoiceCloneWav => {
                self.mode_args.voice_clone_wav = Some(value);
                Reply::Made
            },
            ServerFlag::VoiceCloneRefText => {
                self.mode_args.voice_clone_ref_text = Some(value);
                Reply::Made
            },
            ServerFlag::Threads => match parse_unsigned(value.as_str(), usize::MAX as u64) {
                Some(n) => {
                    self.defaults.thread_count = n as usize;
                    Reply::Made
                },
                None => Reply::Refused(invalid_value_text(word, value.as_str())),
            },
            ServerFlag::Frames => match parse_unsigned(value.as_str(), usize::MAX as u64) {
                Some(n) => {
                    self.defaults.max_audio_frames = n as usize;
                    Reply::Made
                },
                None => Reply::Refused(invalid_value_text(word, value.as_str())),
            },
            ServerFlag::Temperature => Reply::Asks(
                Question::Real(RealSetting::Temperature, value),
            ),
            ServerFlag::TopK => match parse_i32(value.as_str()) {
                Some(n) => {
                    self.defaults.top_k = n;
                    Reply::Made
                },
                None => Reply::Refused(invalid_value_text(word, value.as_str())),
            },
            ServerFlag::TopP => Reply::Asks(Question::Real(RealSetting::TopP, value)),
            ServerFlag::RepetitionPenalty => Reply::Asks(
                Question::Real(RealSetting::RepetitionPenalty, value),
            ),
            ServerFlag::LanguageId => match parse_i32(value.as_str()) {
                Some(n) => {
                    self.defaults.language_id = n;
                    Reply::Made
                },
                None => Reply::Refused(invalid_value_text(word, value.as_str())),
            },
            ServerFlag::VocoderThreads => match parse_unsigned(value.as_str(), usize::MAX as u64) {
                Some(n) => {
                    self.defaults.vocoder_thread_count = n as usize;
                    Reply::Made
                },
                None => Reply::Refused(invalid_value_text(word, value.as_str())),
            },
            ServerFlag::ChunkSize => match parse_unsigned(value.as_str(), usize::MAX as u64) {
                Some(n) => {
                    self.defaults.vocoder_chunk_size = n as usize;
                    Reply::Made
                },
                None => Reply::Refused(invalid_value_text(word, value.as_str())),
            },
            ServerFlag::TalkerKvMode => Reply::Asks(Question::KvMode(value)),
        }
    }
}

/// What a server is started with.
#[derive(Debug)]
pub struct ServerConfig {
    pub model_dir: String,
    pub host: String,
    pub port: u16,
    pub mode: FixedMode,
    pub request_defaults: RequestDefaults,
    pub runtime_backends: RuntimeBackendOverrides,
}

/// The mode that settings choose, or what is said of them.
pub open spec fn chosen_mode(s: SettingsModel) -> Result<ModeModel, Seq<char>> {
    match s.mode_args.mode {
        Some(name) => mode_named(name, s.mode_args),
        None => Err("--mode is required; choose none, custom, design, or clone"@),
    }
}

/// What contracts say of a [`ServerConfig`].
pub struct ConfigModel {
    pub model_dir: Seq<char>,
    pub host: Seq<char>,
    pub port: u16,
    pub mode: ModeModel,
    pub request_defaults: RequestDefaults,
    pub runtime_backends: OverridesModel,
}

impl View for ServerConfig {
    type V = ConfigModel;

    open spec fn view(&self) -> ConfigModel {
        ConfigModel {
            model_dir: self.model_dir@,
            host: self.host@,
            port: self.port,
            mode: self.mode@,
            request_defaults: self.request_defaults,
            runtime_backends: self.runtime_backends@,
        }
    }
}

/// The configuration that settings make, or what is said of them.
pub open spec fn configured(s: SettingsModel) -> Result<ConfigModel, Seq<char>> {
    match chosen_mode(s) {
        Ok(mode) => Ok(
            ConfigModel {
                model_dir: s.model_dir,
                host: s.host,
                port: s.port,
                mode,
                request_defaults: s.defaults,
                runtime_backends: s.runtime_backends,
            },
        ),
        Err(message) => Err(message),
    }
}

impl ServerConfig {
    /// The configuration that settings make.
    pub fn from_settings(settings: Settings) -> (r: Result<ServerConfig, String>)
        ensures
            match r {
                Ok(config) => configured(settings@) == Ok::<_, Seq<char>>(config@),
                Err(message) => configured(settings@) == Err::<ConfigModel, _>(message@),
            },
    {
        let mode = match &settings.mode_args.mode {
            Some(name) => match FixedMode::parse(name.as_str(), &settings.mode_args) {
                Ok(mode) => mode,
                Err(message) => {
                    return Err(message);
                },
            },
            None => {
                return Err(
                    "--mode is required; choose none, custom, design, or clone".to_string(),
                );
            },
        };
        Ok(
            ServerConfig {
                model_dir: settings.model_dir,
                host: settings.host,
                port: settings.port,
                mode,
                request_defaults: settings.defaults,
                runtime_backends: settings.runtime_backends,
            },
        )
    }

    /// Whether a configuration names both a prompt and a recording to clone.
    pub open spec fn ambiguous(&self) -> bool {
        self.mode@ matches ModeModel::Clone { prompt_path, wav_path, .. } && prompt_path is Some
            && wav_path is Some
    }

    /// Refuses a configuration that names both a prompt and a recording to clone.
    pub fn validate(&self) -> (r: Result<(), String>)
        ensures
            match r {
                Ok(_) => !self.ambiguous(),
                Err(message) => self.ambiguous() && message@
                    == "--voice-clone-prompt cannot be combined with --voice-clone-wav"@,
            },
    {
        match &self.mode {
            FixedMode::Clone { prompt_path, wav_path, ref_text: _ } => {
                if prompt_path.is_some() && wav_path.is_some() {
                    return Err(
                        "--voice-clone-prompt cannot be combined with --voice-clone-wav".to_string(),
                    );
                }
            },
            _ => {},
        }
        Ok(())
    }
}

} // verus!
