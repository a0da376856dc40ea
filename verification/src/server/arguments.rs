//! Reading the start-up arguments of a server.

use vstd::prelude::*;
use crate::cli::args::value_arg;
#[allow(unused_imports)]
use crate::cli::args::{missing_value, spelled, words, Pair};
use crate::real32::Real32;
use crate::server::config::{
    flag_of, Question, RealSetting, Reply, ServerConfig, Settings, TalkerKvMode,
};
#[allow(unused_imports)]
use crate::server::config::{
    configured, fits, lemma_set_value_holds, lemma_values_make_settings, reading, slot,
    ConfigModel, QuestionModel, Reading, ServerFlag, SettingsModel, Slot, Value,
};
use crate::text::same_text;

verus! {

/// What the caller read of a value that it was asked for, or what it says of the value. The value
/// stands first, as it was written.
#[derive(Debug)]
pub enum Answer {
    Host(String, Result<String, String>),
    Real(RealSetting, String, Result<Real32, String>),
    KvMode(String, Result<TalkerKvMode, String>),
}

/// What contracts say of an [`Answer`].
pub struct AnswerModel {
    pub question: QuestionModel,
    pub value: Result<Value, Seq<char>>,
}

impl View for Answer {
    type V = AnswerModel;

    open spec fn view(&self) -> AnswerModel {
        match self {
            Answer::Host(text, read) => AnswerModel {
                question: QuestionModel::Host(text@),
                value: match read {
                    Ok(host) => Ok(Value::Text(host@)),
                    Err(message) => Err(message@),
                },
            },
            Answer::Real(setting, text, read) => AnswerModel {
                question: QuestionModel::Real(*setting, text@),
                value: match read {
                    Ok(number) => Ok(Value::Real(*number)),
                    Err(message) => Err(message@),
                },
            },
            Answer::KvMode(text, read) => AnswerModel {
                question: QuestionModel::KvMode(text@),
                value: match read {
                    Ok(mode) => Ok(Value::KvMode(*mode)),
                    Err(message) => Err(message@),
                },
            },
        }
    }
}

impl AnswerModel {
    /// Whether an answer is one to its question.
    pub open spec fn wf(self) -> bool {
        self.value matches Ok(value) ==> fits(self.question.slot(), value)
    }
}

/// Some answers, as contracts see them.
pub open spec fn answers_in(answers: Seq<Answer>) -> Seq<AnswerModel> {
    Seq::new(answers.len(), |i: int| answers[i]@)
}

/// The first answer to a question, if there is one.
pub open spec fn answer_to(answers: Seq<AnswerModel>, question: QuestionModel) -> Option<
    Result<Value, Seq<char>>,
>
    decreases answers.len(),
{
    if answers.len() == 0 {
        None
    } else if answers[0].question == question {
        Some(answers[0].value)
    } else {
        answer_to(answers.skip(1), question)
    }
}

/// What a flag with its value comes to.
pub enum Effect {
    /// It sets a value.
    Sets(Value),
    /// The caller has to read the value.
    Asks(QuestionModel),
    /// The value is refused.
    Refused(Seq<char>),
}

/// What a flag with its value comes to. Backends are taken as they are written.
pub open spec fn effect(
    word: Seq<char>,
    slot: Slot,
    value: Seq<char>,
    answers: Seq<AnswerModel>,
) -> Effect {
    match slot {
        Slot::Server(flag) => match reading(word, flag, value) {
            Reading::Read(v) => Effect::Sets(v),
            Reading::Asks(question) => match answer_to(answers, question) {
                Some(Ok(v)) => Effect::Sets(v),
                Some(Err(message)) => Effect::Refused(message),
                None => Effect::Asks(question),
            },
            Reading::Refused(message) => Effect::Refused(message),
        },
        _ => Effect::Sets(Value::Text(value)),
    }
}

/// What reading start-up arguments comes to.
pub enum ReadModel {
    /// They make settings.
    Made(SettingsModel),
    /// The usage is asked for.
    Usage,
    /// The caller has to read a value.
    Asks(QuestionModel),
    /// They are refused.
    Refused(Seq<char>),
}

/// What reading start-up arguments from the one at `idx` on comes to, once those before it have
/// made the settings `s`.
pub open spec fn read_from(
    s: SettingsModel,
    args: Seq<Seq<char>>,
    idx: int,
    answers: Seq<AnswerModel>,
) -> ReadModel
    decreases args.len() - idx,
{
    if idx >= args.len() {
        ReadModel::Made(s)
    } else {
        match slot(args[idx]) {
            Some(t) => if idx + 1 >= args.len() {
                ReadModel::Refused(missing_value(args[idx]))
            } else {
                match effect(args[idx], t, args[idx + 1], answers) {
                    Effect::Sets(value) => read_from(s.with(t, value), args, idx + 2, answers),
                    Effect::Asks(question) => ReadModel::Asks(question),
                    Effect::Refused(message) => ReadModel::Refused(message),
                }
            },
            None => if args[idx] == "--help"@ || args[idx] == "-h"@ {
                ReadModel::Usage
            } else {
                ReadModel::Refused("unknown qts_server argument: "@ + args[idx])
            },
        }
    }
}

/// What start-up arguments come to.
pub enum ParsedModel {
    Config(ConfigModel),
    Usage,
    Asks(QuestionModel),
    Refused(Seq<char>),
}

/// What start-up arguments come to.
pub open spec fn parsed(
    model_dir: Seq<char>,
    args: Seq<Seq<char>>,
    answers: Seq<AnswerModel>,
) -> ParsedModel {
    match read_from(SettingsModel::initial(model_dir), args, 0, answers) {
        ReadModel::Made(s) => match configured(s) {
            Ok(config) => ParsedModel::Config(config),
            Err(message) => ParsedModel::Refused(message),
        },
        ReadModel::Usage => ParsedModel::Usage,
        ReadModel::Asks(question) => ParsedModel::Asks(question),
        ReadModel::Refused(message) => ParsedModel::Refused(message),
    }
}

/// What start-up arguments come to where they are not refused.
#[derive(Debug)]
pub enum Parsed {
    /// The configuration that they make.
    Config(ServerConfig),
    /// The usage is asked for.
    Usage,
    /// The caller has to read a value and answer with it.
    Asks(Question),
}

fn answers_question(answer: &Answer, question: &Question) -> (r: bool)
    ensures
        r == (answer@.question == question@),
{
    match (answer, question) {
        (Answer::Host(a, _), Question::Host(q)) => same_text(a.as_str(), q.as_str()),
        (Answer::Real(s, a, _), Question::Real(t, q)) => *s == *t && same_text(
            a.as_str(),
            q.as_str(),
        ),
        (Answer::KvMode(a, _), Question::KvMode(q)) => same_text(a.as_str(), q.as_str()),
        _ => false,
    }
}

/// The first answer to a question.
fn find_answer<'a>(answers: &'a Vec<Answer>, question: &Question) -> (r: Option<&'a Answer>)
    ensures
        match r {
            Some(answer) => answer@.question == question@ && answer_to(
                answers_in(answers@),
                question@,
            ) == Some(answer@.value),
            None => answer_to(answers_in(answers@), question@) is None,
        },
{
    let ghost models = answers_in(answers@);
    let mut i: usize = 0;
    assert(models.skip(0) == models);
    while i < answers.len()
        invariant
            i <= answers@.len(),
            models == answers_in(answers@),
            answer_to(models, question@) == answer_to(models.skip(i as int), question@),
        decreases answers@.len() - i,
    {
        assert(models.skip(i as int)[0] == answers@[i as int]@);
        if answers_question(&answers[i], question) {
            return Some(&answers[i]);
        }
        assert(models.skip(i as int).skip(1) == models.skip(i + 1));
        i = i + 1;
    }
    None
}

impl Settings {
    /// Sets a value that was asked for, or hands out what is said of it.
    fn settle(&mut self, answer: &Answer) -> (r: Result<(), String>)
        ensures
            match (answer@.value, r) {
                (Ok(value), Ok(_)) => final(self)@ == old(self)@.with(
                    answer@.question.slot(),
                    value,
                ),
                (Err(m), Err(message)) => message@ == m,
                _ => false,
            },
    {
        match answer {
            Answer::Host(_, read) => match read {
                Ok(host) => {
                    self.host = host.clone();
                },
                Err(message) => {
                    return Err(message.clone());
                },
            },
            Answer::Real(setting, _, read) => match read {
                Ok(number) => match setting {
                    RealSetting::Temperature => {
                        self.defaults.temperature = *number;
                    },
                    RealSetting::TopP => {
                        self.defaults.top_p = *number;
                    },
                    RealSetting::RepetitionPenalty => {
                        self.defaults.repetition_penalty = *number;
                    },
                },
                Err(message) => {
                    return Err(message.clone());
                },
            },
            Answer::KvMode(_, read) => match read {
                Ok(mode) => {
                    self.defaults.talker_kv_mode = *mode;
                },
                Err(message) => {
                    return Err(message.clone());
                },
            },
        }
        Ok(())
    }
}

impl ServerConfig {
    /// The configuration that start-up arguments make. `model_dir` is where the model is if none of
    /// them says otherwise. An address, a real number or a mode of the transformer has to be read by
    /// the caller: it is asked for where none of the answers is to it.
    pub fn parse(model_dir: String, args: &Vec<String>, answers: &Vec<Answer>) -> (r: Result<
        Parsed,
        String,
    >)
        ensures
            match (parsed(model_dir@, words(args@), answers_in(answers@)), r) {
                (ParsedModel::Config(model), Ok(Parsed::Config(config))) => config@ == model,
                (ParsedModel::Usage, Ok(Parsed::Usage)) => true,
                (ParsedModel::Asks(q), Ok(Parsed::Asks(question))) => question@ == q,
                (ParsedModel::Refused(m), Err(message)) => message@ == m,
                _ => false,
            },
    {
        let ghost texts = words(args@);
        let ghost models = answers_in(answers@);
        let ghost whole = read_from(SettingsModel::initial(model_dir@), texts, 0, models);
        let mut settings = Settings::initial(model_dir);
        let mut idx: usize = 0;
        while idx < args.len()
            invariant
                texts == words(args@),
                models == answers_in(answers@),
                whole == read_from(SettingsModel::initial(model_dir@), texts, 0, models),
                read_from(settings@, texts, idx as int, models) == whole,
            decreases args@.len() - idx,
        {
            assert(texts[idx as int] == args@[idx as int]@);
            assert(idx + 1 < args@.len() ==> texts[idx + 1] == args@[idx + 1]@);
            match settings.runtime_backends.parse_flag(args, &mut idx) {
                Err(message) => {
                    return Err(message);
                },
                Ok(true) => {
                    continue ;
                },
                Ok(false) => {},
            }
            let word = args[idx].clone();
            match flag_of(word.as_str()) {
                Some(flag) => {
                    let value = match value_arg(args, &mut idx, word.as_str()) {
                        Ok(value) => value,
                        Err(message) => {
                            return Err(message);
                        },
                    };
                    match settings.take(word.as_str(), flag, value) {
                        Reply::Made => {},
                        Reply::Asks(question) => match find_answer(answers, &question) {
                            Some(answer) => match settings.settle(answer) {
                                Ok(_) => {},
                                Err(message) => {
                                    return Err(message);
                                },
                            },
                            None => {
                                return Ok(Parsed::Asks(question));
                            },
                        },
                        Reply::Refused(message) => {
                            return Err(message);
                        },
                    }
                },
                None => {
                    if same_text(word.as_str(), "--help") || same_text(word.as_str(), "-h") {
                        return Ok(Parsed::Usage);
                    }
                    let mut message = "unknown qts_server argument: ".to_string();
                    message.append(word.as_str());
                    return Err(message);
                },
            }
        }
        match ServerConfig::from_settings(settings) {
            Ok(config) => Ok(Parsed::Config(config)),
            Err(message) => Err(message),
        }
    }
}

/// The value that a flag with its value sets, if it sets one.
pub open spec fn value_set(pair: Pair, answers: Seq<AnswerModel>) -> Option<Value> {
    match slot(pair.0) {
        Some(t) => match effect(pair.0, t, pair.1, answers) {
            Effect::Sets(value) => Some(value),
            _ => None,
        },
        None => None,
    }
}

/// Whether all flags from index `k` on set values.
pub open spec fn all_set(pairs: Seq<Pair>, k: int, answers: Seq<AnswerModel>) -> bool {
    forall|i: int| k <= i < pairs.len() ==> value_set(#[trigger] pairs[i], answers) is Some
}

/// Whether all answers are answers to their questions.
pub open spec fn answers_fit(answers: Seq<AnswerModel>) -> bool {
    forall|i: int| 0 <= i < answers.len() ==> (#[trigger] answers[i]).wf()
}

/// The answers that a caller gives are answers to their questions.
pub proof fn lemma_answers_fit(answers: Seq<Answer>)
    ensures
        answers_fit(answers_in(answers)),
{
}

/// Whether no flag comes twice.
pub open spec fn no_flag_twice(pairs: Seq<Pair>) -> bool {
    forall|i: int, j: int|
        0 <= i < j < pairs.len() ==> (#[trigger] pairs[i]).0 != (#[trigger] pairs[j]).0
}

/// Whether a flag comes from index `k` on.
pub open spec fn comes_from(pairs: Seq<Pair>, k: int, t: Slot) -> bool {
    exists|i: int| k <= i < pairs.len() && slot((#[trigger] pairs[i]).0) == Some(t)
}

proof fn lemma_answer_fits(answers: Seq<AnswerModel>, question: QuestionModel)
    requires
        answers_fit(answers),
    ensures
        answer_to(answers, question) matches Some(Ok(value)) ==> fits(question.slot(), value),
    decreases answers.len(),
{
    if answers.len() > 0 {
        assert(answers[0].wf());
        assert(answers_fit(answers.skip(1))) by {
            assert forall|i: int| 0 <= i < answers.skip(1).len() implies (#[trigger] answers.skip(
                1,
            )[i]).wf() by {
                assert(answers[i + 1].wf());
            }
        }
        lemma_answer_fits(answers.skip(1), question);
    }
}

proof fn lemma_value_set_fits(pair: Pair, answers: Seq<AnswerModel>)
    requires
        answers_fit(answers),
        value_set(pair, answers) is Some,
    ensures
        slot(pair.0) is Some,
        fits(slot(pair.0)->Some_0, value_set(pair, answers)->Some_0),
{
    match slot(pair.0)->Some_0 {
        Slot::Server(flag) => match reading(pair.0, flag, pair.1) {
            Reading::Asks(question) => {
                lemma_answer_fits(answers, question);
            },
            _ => {
                lemma_reading_fits(pair.0, flag, pair.1);
            },
        },
        _ => {},
    }
}

proof fn lemma_reading_fits(word: Seq<char>, flag: ServerFlag, value: Seq<char>)
    ensures
        reading(word, flag, value) matches Reading::Read(v) ==> fits(Slot::Server(flag), v),
{
}

/// The same flag is written in the same way.
pub proof fn lemma_slot_is_a_word(a: Seq<char>, b: Seq<char>)
    requires
        slot(a) is Some,
        slot(a) == slot(b),
    ensures
        a == b,
{
}

/// Flags of which each sets a value make settings: each flag has the value that it comes with last,
/// and where it does not come, the value that it had.
pub proof fn lemma_last_value_holds(
    s: SettingsModel,
    pairs: Seq<Pair>,
    k: int,
    answers: Seq<AnswerModel>,
)
    requires
        0 <= k <= pairs.len(),
        all_set(pairs, k, answers),
        answers_fit(answers),
    ensures
        read_from(s, spelled(pairs), 2 * k, answers) matches ReadModel::Made(made) && {
            &&& forall|t: Slot|
                !comes_from(pairs, k, t) ==> #[trigger] made.get(t) == s.get(t)
            &&& forall|t: Slot, i: int|
                k <= i < pairs.len() && slot(pairs[i].0) == Some(t) && !comes_from(pairs, i + 1, t)
                    ==> #[trigger] made.get(t) == value_set(#[trigger] pairs[i], answers)
        },
    decreases pairs.len() - k,
{
    let args = spelled(pairs);
    if k < pairs.len() {
        let pair = pairs[k];
        assert(value_set(pair, answers) is Some);
        let t = slot(pair.0)->Some_0;
        let value = value_set(pair, answers)->Some_0;
        assert(args[2 * k] == pair.0);
        assert(args[2 * k + 1] == pair.1);
        lemma_value_set_fits(pair, answers);
        lemma_set_value_holds(s, t, value);
        let next = s.with(t, value);
        lemma_last_value_holds(next, pairs, k + 1, answers);
        let made = read_from(next, args, 2 * (k + 1), answers)->Made_0;
        assert(read_from(s, args, 2 * k, answers) == ReadModel::Made(made));
        assert forall|u: Slot| !comes_from(pairs, k, u) implies #[trigger] made.get(u) == s.get(u) by {
            assert(slot(pairs[k].0) != Some(u));
            assert(!comes_from(pairs, k + 1, u));
        }
        assert forall|u: Slot, i: int|
            k <= i < pairs.len() && slot(pairs[i].0) == Some(u) && !comes_from(
                pairs,
                i + 1,
                u,
            ) implies #[trigger] made.get(u) == value_set(#[trigger] pairs[i], answers) by {
            if i == k {
                assert(made.get(u) == next.get(u));
            }
        }
    }
}

/// Arguments that make settings set a value with each flag.
pub proof fn lemma_made_means_set(
    s: SettingsModel,
    pairs: Seq<Pair>,
    k: int,
    answers: Seq<AnswerModel>,
)
    requires
        0 <= k <= pairs.len(),
        read_from(s, spelled(pairs), 2 * k, answers) is Made,
    ensures
        all_set(pairs, k, answers),
    decreases pairs.len() - k,
{
    let args = spelled(pairs);
    if k < pairs.len() {
        assert(args[2 * k] == pairs[k].0);
        assert(args[2 * k + 1] == pairs[k].1);
        let t = slot(pairs[k].0)->Some_0;
        let value = value_set(pairs[k], answers)->Some_0;
        assert(read_from(s, args, 2 * k, answers) == read_from(
            s.with(t, value),
            args,
            2 * (k + 1),
            answers,
        ));
        lemma_made_means_set(s.with(t, value), pairs, k + 1, answers);
    }
}

/// A flag of a list without repetitions comes at one index only.
proof fn lemma_comes_once(pairs: Seq<Pair>, i: int, t: Slot)
    requires
        no_flag_twice(pairs),
        0 <= i < pairs.len(),
        slot(pairs[i].0) == Some(t),
    ensures
        !comes_from(pairs, i + 1, t),
{
    if comes_from(pairs, i + 1, t) {
        let j = choose|j: int| i + 1 <= j < pairs.len() && slot((#[trigger] pairs[j]).0) == Some(t);
        lemma_slot_is_a_word(pairs[i].0, pairs[j].0);
        assert(pairs[i].0 != pairs[j].0);
    }
}

/// Reordering keeps that no flag comes twice.
proof fn lemma_reordered_once(a: Seq<Pair>, b: Seq<Pair>)
    requires
        a.to_multiset() == b.to_multiset(),
        no_flag_twice(a),
    ensures
        no_flag_twice(b),
        forall|p: Pair| a.contains(p) <==> b.contains(p),
{
    a.to_multiset_ensures();
    b.to_multiset_ensures();
    assert forall|p: Pair| a.contains(p) <==> b.contains(p) by {
        assert(a.contains(p) <==> a.to_multiset().count(p) > 0);
        assert(b.contains(p) <==> b.to_multiset().count(p) > 0);
    }
    assert(a.no_duplicates()) by {
        assert forall|i: int, j: int| 0 <= i < a.len() && 0 <= j < a.len() && i != j implies a[i]
            != a[j] by {
            if i < j {
                assert(a[i].0 != a[j].0);
            } else {
                assert(a[j].0 != a[i].0);
            }
        }
    }
    a.lemma_multiset_has_no_duplicates();
    assert(b.no_duplicates()) by {
        b.lemma_multiset_has_no_duplicates_conv();
    }
    assert forall|i: int, j: int| 0 <= i < j < b.len() implies (#[trigger] b[i]).0 != (
    #[trigger] b[j]).0 by {
        if b[i].0 == b[j].0 {
            assert(a.contains(b[i]) && a.contains(b[j]));
            let x = choose|x: int| 0 <= x < a.len() && a[x] == b[i];
            let y = choose|y: int| 0 <= y < a.len() && a[y] == b[j];
            assert(b[i] != b[j]);
            if x < y {
                assert(a[x].0 != a[y].0);
            } else {
                assert(a[y].0 != a[x].0);
            }
        }
    }
}

proof fn lemma_reordered_settings(
    s: SettingsModel,
    a: Seq<Pair>,
    b: Seq<Pair>,
    answers: Seq<AnswerModel>,
)
    requires
        no_flag_twice(a),
        no_flag_twice(b),
        forall|p: Pair| a.contains(p) <==> b.contains(p),
        answers_fit(answers),
        read_from(s, spelled(a), 0, answers) is Made,
    ensures
        read_from(s, spelled(b), 0, answers) == read_from(s, spelled(a), 0, answers),
{
    lemma_made_means_set(s, a, 0, answers);
    assert(all_set(b, 0, answers)) by {
        assert forall|i: int| 0 <= i < b.len() implies value_set(
            #[trigger] b[i],
            answers,
        ) is Some by {
            assert(b.contains(b[i]));
            let x = choose|x: int| 0 <= x < a.len() && a[x] == b[i];
            assert(value_set(a[x], answers) is Some);
        }
    }
    lemma_last_value_holds(s, a, 0, answers);
    lemma_last_value_holds(s, b, 0, answers);
    let made_a = read_from(s, spelled(a), 0, answers)->Made_0;
    let made_b = read_from(s, spelled(b), 0, answers)->Made_0;
    assert forall|t: Slot| #[trigger] made_a.get(t) == made_b.get(t) by {
        if comes_from(a, 0, t) {
            let i = choose|i: int| 0 <= i < a.len() && slot((#[trigger] a[i]).0) == Some(t);
            assert(a.contains(a[i]));
            let j = choose|j: int| 0 <= j < b.len() && b[j] == a[i];
            assert(slot(b[j].0) == Some(t));
            lemma_comes_once(a, i, t);
            lemma_comes_once(b, j, t);
            assert(made_a.get(t) == value_set(a[i], answers));
            assert(made_b.get(t) == value_set(b[j], answers));
        } else {
            if comes_from(b, 0, t) {
                let j = choose|j: int| 0 <= j < b.len() && slot((#[trigger] b[j]).0) == Some(t);
                assert(b.contains(b[j]));
                let i = choose|i: int| 0 <= i < a.len() && a[i] == b[j];
                assert(slot(a[i].0) == Some(t));
            }
        }
    }
    lemma_values_make_settings(made_a, made_b);
}

/// The order of flags of which none comes twice does not matter: reordered arguments make the same
/// configuration, or none if there is none.
pub proof fn lemma_order_does_not_matter(
    model_dir: Seq<char>,
    a: Seq<Pair>,
    b: Seq<Pair>,
    answers: Seq<AnswerModel>,
)
    requires
        a.to_multiset() == b.to_multiset(),
        no_flag_twice(a),
        answers_fit(answers),
    ensures
        parsed(model_dir, spelled(a), answers) is Config <==> parsed(
            model_dir,
            spelled(b),
            answers,
        ) is Config,
        parsed(model_dir, spelled(a), answers) is Config ==> parsed(model_dir, spelled(a), answers)
            == parsed(model_dir, spelled(b), answers),
{
    lemma_reordered_once(a, b);
    let s = SettingsModel::initial(model_dir);
    if read_from(s, spelled(a), 0, answers) is Made {
        lemma_reordered_settings(s, a, b, answers);
    } else if read_from(s, spelled(b), 0, answers) is Made {
        lemma_reordered_settings(s, b, a, answers);
    }
}

/// Without a mode there is no configuration.
pub proof fn lemma_mode_is_required(
    model_dir: Seq<char>,
    pairs: Seq<Pair>,
    answers: Seq<AnswerModel>,
)
    requires
        forall|i: int| 0 <= i < pairs.len() ==> (#[trigger] pairs[i]).0 != "--mode"@,
        answers_fit(answers),
    ensures
        !(parsed(model_dir, spelled(pairs), answers) is Config),
        all_set(pairs, 0, answers) ==> parsed(model_dir, spelled(pairs), answers)
            == ParsedModel::Refused("--mode is required; choose none, custom, design, or clone"@),
{
    let s = SettingsModel::initial(model_dir);
    if all_set(pairs, 0, answers) {
        lemma_last_value_holds(s, pairs, 0, answers);
        let mode = Slot::Server(ServerFlag::Mode);
        assert(!comes_from(pairs, 0, mode));
        let made = read_from(s, spelled(pairs), 0, answers)->Made_0;
        assert(made.get(mode) == s.get(mode));
        assert(made.mode_args.mode is None);
    } else if read_from(s, spelled(pairs), 0, answers) is Made {
        lemma_made_means_set(s, pairs, 0, answers);
    }
}

/// A word that is no flag is refused, once the flags before it have set their values.
pub proof fn lemma_unknown_word_is_refused(
    s: SettingsModel,
    pairs: Seq<Pair>,
    k: int,
    word: Seq<char>,
    rest: Seq<Seq<char>>,
    answers: Seq<AnswerModel>,
)
    requires
        0 <= k <= pairs.len(),
        all_set(pairs, k, answers),
        slot(word) is None,
        word != "--help"@ && word != "-h"@,
    ensures
        read_from(s, spelled(pairs) + seq![word] + rest, 2 * k, answers) == ReadModel::Refused(
            "unknown qts_server argument: "@ + word,
        ),
    decreases pairs.len() - k,
{
    let args = spelled(pairs) + seq![word] + rest;
    if k < pairs.len() {
        assert(args[2 * k] == pairs[k].0);
        assert(args[2 * k + 1] == pairs[k].1);
        assert(value_set(pairs[k], answers) is Some);
        let t = slot(pairs[k].0)->Some_0;
        let value = value_set(pairs[k], answers)->Some_0;
        lemma_unknown_word_is_refused(s.with(t, value), pairs, k + 1, word, rest, answers);
        assert(read_from(s, args, 2 * k, answers) == read_from(
            s.with(t, value),
            args,
            2 * (k + 1),
            answers,
        ));
    } else {
        assert(args[2 * k] == word);
    }
}

} // verus!
