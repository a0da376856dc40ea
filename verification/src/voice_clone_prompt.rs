//! Prompts that carry a voice: the embedding of its speaker and, optionally, a reference take.

use vstd::prelude::*;
use crate::error::Qwen3TtsError;
#[allow(unused_imports)]
use crate::error::ErrorModel;
use crate::real32::Real32;
use crate::text::{decimal_text, same_text};
#[allow(unused_imports)]
use crate::text::decimal;

verus! {

/// The schema that a prompt of the first version names.
pub const VOICE_CLONE_PROMPT_V1_SCHEMA: &'static str = "qwen3_tts.voice_clone_prompt.v1";

/// A tensor of integers: its dimensions, and its elements.
#[derive(Debug, Clone, PartialEq)]
pub struct PromptTensorI32 {
    pub shape: Vec<usize>,
    pub values: Vec<i32>,
}

/// The number of elements of a shape, unless the product of some of its first dimensions is more
/// than a `usize` holds.
pub open spec fn element_count(shape: Seq<usize>) -> Option<nat>
    decreases shape.len(),
{
    if shape.len() == 0 {
        Some(1)
    } else {
        match element_count(shape.drop_last()) {
            Some(n) => if n * shape.last() <= usize::MAX {
                Some((n * shape.last()) as nat)
            } else {
                None
            },
            None => None,
        }
    }
}

proof fn lemma_element_count_of_more(shape: Seq<usize>, n: int)
    requires
        0 <= n <= shape.len(),
        element_count(shape.take(n)) is None,
    ensures
        element_count(shape) is None,
    decreases shape.len() - n,
{
    if n < shape.len() {
        assert(shape.take(n + 1).drop_last() == shape.take(n));
        lemma_element_count_of_more(shape, n + 1);
    } else {
        assert(shape.take(n) == shape);
    }
}

impl PromptTensorI32 {
    /// What is wrong with a tensor, if anything.
    pub open spec fn fault(&self, field_name: Seq<char>) -> Option<ErrorModel> {
        if self.shape@.len() == 0 {
            Some(ErrorModel::InvalidInput(field_name + ".shape must not be empty"@))
        } else {
            match element_count(self.shape@) {
                None => Some(
                    ErrorModel::InvalidInput(field_name + ".shape overflows element count"@),
                ),
                Some(n) => if n != self.values@.len() {
                    Some(
                        ErrorModel::InvalidInput(
                            field_name + ".values length "@ + decimal(self.values@.len())
                                + " does not match shape product "@ + decimal(n),
                        ),
                    )
                } else {
                    None
                },
            }
        }
    }

    /// Checks that a tensor has as many elements as its shape says.
    pub fn validate(&self, field_name: &str) -> (r: Result<(), Qwen3TtsError>)
        ensures
            match r {
                Ok(_) => self.fault(field_name@) is None,
                Err(e) => self.fault(field_name@) == Some(e@),
            },
    {
        if self.shape.len() == 0 {
            let mut text = field_name.to_string();
            text.append(".shape must not be empty");
            return Err(Qwen3TtsError::InvalidInput(text));
        }
        let mut count: usize = 1;
        let mut i: usize = 0;
        while i < self.shape.len()
            invariant
                i <= self.shape@.len(),
                self.shape@.len() > 0,
                element_count(self.shape@.take(i as int)) == Some(count as nat),
            decreases self.shape@.len() - i,
        {
            assert(self.shape@.take(i + 1).drop_last() == self.shape@.take(i as int));
            match count.checked_mul(self.shape[i]) {
                Some(n) => {
                    count = n;
                },
                None => {
                    proof {
                        lemma_element_count_of_more(self.shape@, i + 1);
                    }
                    let mut text = field_name.to_string();
                    text.append(".shape overflows element count");
                    return Err(Qwen3TtsError::InvalidInput(text));
                },
            }
            i = i + 1;
        }
        assert(self.shape@.take(i as int) == self.shape@);
        if count != self.values.len() {
            let mut text = field_name.to_string();
            text.append(".values length ");
            text.append(decimal_text(self.values.len() as u64).as_str());
            text.append(" does not match shape product ");
            text.append(decimal_text(count as u64).as_str());
            return Err(Qwen3TtsError::InvalidInput(text));
        }
        Ok(())
    }
}

/// A voice clone prompt of the first version.
#[derive(Debug, Clone, PartialEq)]
pub struct VoiceClonePromptV1 {
    pub schema: String,
    pub source: Option<String>,
    pub model_id: Option<String>,
    pub speaker_encoder_sample_rate_hz: Option<u32>,
    pub x_vector_only_mode: bool,
    pub icl_mode: bool,
    pub ref_text: Option<String>,
    pub ref_code: Option<PromptTensorI32>,
    pub ref_spk_embedding: Vec<Real32>,
}

impl VoiceClonePromptV1 {
    /// What is wrong with a prompt, if anything.
    pub open spec fn fault(&self) -> Option<ErrorModel> {
        if self.schema@ != VOICE_CLONE_PROMPT_V1_SCHEMA@ {
            Some(
                ErrorModel::InvalidInput(
                    "unsupported voice clone prompt schema: "@ + self.schema@,
                ),
            )
        } else if self.ref_spk_embedding@.len() == 0 {
            Some(
                ErrorModel::InvalidInput(
                    "voice clone prompt ref_spk_embedding must not be empty"@,
                ),
            )
        } else {
            match self.ref_code {
                Some(tensor) => tensor.fault("voice clone prompt ref_code"@),
                None => None,
            }
        }
    }

    /// What is made of what was read from JSON, or of why it could not be read.
    pub open spec fn taken_up(parsed: Result<VoiceClonePromptV1, Seq<char>>) -> Result<
        VoiceClonePromptV1,
        ErrorModel,
    > {
        match parsed {
            Ok(prompt) => match prompt.fault() {
                Some(fault) => Err(fault),
                None => Ok(prompt),
            },
            Err(why) => Err(
                ErrorModel::InvalidInput("invalid voice clone prompt json: "@ + why),
            ),
        }
    }

    /// What is handed out of what a prompt was written to as JSON, or of why it could not be written.
    pub open spec fn handed_out(&self, encoded: Result<Seq<u8>, Seq<char>>) -> Result<
        Seq<u8>,
        ErrorModel,
    > {
        match self.fault() {
            Some(fault) => Err(fault),
            None => match encoded {
                Ok(bytes) => Ok(bytes),
                Err(why) => Err(
                    ErrorModel::InvalidInput("failed to encode voice clone prompt json: "@ + why),
                ),
            },
        }
    }

    /// Takes up what was read from JSON, or why it could not be read. A prompt with a fault is
    /// refused.
    pub fn from_json_bytes(parsed: Result<VoiceClonePromptV1, String>) -> (r: Result<
        VoiceClonePromptV1,
        Qwen3TtsError,
    >)
        ensures
            ({
                let taken_up = VoiceClonePromptV1::taken_up(
                    match parsed {
                        Ok(prompt) => Ok(prompt),
                        Err(why) => Err(why@),
                    },
                );
                match r {
                    Ok(prompt) => taken_up == Ok::<_, ErrorModel>(prompt),
                    Err(e) => taken_up == Err::<VoiceClonePromptV1, _>(e@),
                }
            }),
    {
        match parsed {
            Ok(prompt) => match prompt.validate() {
                Ok(_) => Ok(prompt),
                Err(e) => Err(e),
            },
            Err(why) => {
                let mut text = "invalid voice clone prompt json: ".to_string();
                text.append(why.as_str());
                Err(Qwen3TtsError::InvalidInput(text))
            },
        }
    }

    /// Hands out what the prompt was written to as JSON, or why it could not be written. A prompt
    /// with a fault is refused.
    pub fn to_json_vec_pretty(&self, encoded: Result<Vec<u8>, String>) -> (r: Result<
        Vec<u8>,
        Qwen3TtsError,
    >)
        ensures
            ({
                let handed_out = self.handed_out(
                    match encoded {
                        Ok(bytes) => Ok(bytes@),
                        Err(why) => Err(why@),
                    },
                );
                match r {
                    Ok(bytes) => handed_out == Ok::<_, ErrorModel>(bytes@),
                    Err(e) => handed_out == Err::<Seq<u8>, _>(e@),
                }
            }),
    {
        match self.validate() {
            Err(e) => Err(e),
            Ok(_) => match encoded {
                Ok(bytes) => Ok(bytes),
                Err(why) => {
                    let mut text = "failed to encode voice clone prompt json: ".to_string();
                    text.append(why.as_str());
                    Err(Qwen3TtsError::InvalidInput(text))
                },
            },
        }
    }

    /// Checks a prompt.
    pub fn validate(&self) -> (r: Result<(), Qwen3TtsError>)
        ensures
            match r {
                Ok(_) => self.fault() is None,
                Err(e) => self.fault() == Some(e@),
            },
    {
        if !same_text(self.schema.as_str(), VOICE_CLONE_PROMPT_V1_SCHEMA) {
            let mut text = "unsupported voice clone prompt schema: ".to_string();
            text.append(self.schema.as_str());
            return Err(Qwen3TtsError::InvalidInput(text));
        }
        if self.ref_spk_embedding.len() == 0 {
            return Err(
                Qwen3TtsError::InvalidInput(
                    "voice clone prompt ref_spk_embedding must not be empty".to_string(),
                ),
            );
        }
        match &self.ref_code {
            Some(tensor) => tensor.validate("voice clone prompt ref_code"),
            None => Ok(()),
        }
    }

    /// The embedding of the prompt's speaker.
    pub fn speaker_embedding(&self) -> (r: &Vec<Real32>)
        ensures
            *r == self.ref_spk_embedding,
    {
        &self.ref_spk_embedding
    }
}

/// A prompt with a fault is never handed out as JSON, and none is taken up. A prompt that is handed
/// out is taken up unchanged by whoever reads back what was written.
pub proof fn lemma_prompt_survives_json(
    prompt: VoiceClonePromptV1,
    encoded: Result<Seq<u8>, Seq<char>>,
    parsed: Result<VoiceClonePromptV1, Seq<char>>,
)
    ensures
        prompt.handed_out(encoded) is Ok <==> prompt.fault() is None && encoded is Ok,
        prompt.handed_out(encoded) is Ok && parsed == Ok::<_, Seq<char>>(prompt)
            ==> VoiceClonePromptV1::taken_up(parsed) == Ok::<_, ErrorModel>(prompt),
        VoiceClonePromptV1::taken_up(parsed) matches Ok(accepted) ==> accepted.fault() is None,
{
}

/// The reference take of a prompt: its codes, frame by frame.
#[derive(Debug)]
pub struct RefCode {
    pub frames: usize,
    pub codebooks: usize,
    pub values: Vec<i32>,
}

impl RefCode {
    /// Whether there are codes for all frames.
    pub open spec fn wf(&self) -> bool {
        self.frames * self.codebooks <= self.values@.len()
    }
}

/// What a synthesis reads of a voice clone prompt of the second version.
#[derive(Debug)]
pub struct VoiceClonePromptV2 {
    /// Whether the text is spoken in continuation of the reference take.
    pub icl_mode: bool,
    /// What is said in the reference take.
    pub ref_text: String,
    pub ref_code: Option<RefCode>,
    pub ref_spk_embedding: Vec<Real32>,
}

impl VoiceClonePromptV2 {
    /// Whether there are codes for all frames of the reference take.
    pub open spec fn wf(&self) -> bool {
        self.ref_code matches Some(code) ==> code.wf()
    }

    /// The embedding of the prompt's speaker.
    pub fn speaker_embedding(&self) -> (r: &Vec<Real32>)
        ensures
            *r == self.ref_spk_embedding,
    {
        &self.ref_spk_embedding
    }
}

/// The product of some numbers.
pub open spec fn product_of(shape: Seq<usize>) -> nat
    decreases shape.len(),
{
    if shape.len() == 0 {
        1
    } else {
        (product_of(shape.drop_last()) * shape.last()) as nat
    }
}

proof fn lemma_count_is_product(shape: Seq<usize>)
    ensures
        element_count(shape) matches Some(n) ==> n == product_of(shape),
        (forall|i: int| 0 <= i < shape.len() ==> #[trigger] shape[i] > 0) && product_of(shape)
            <= usize::MAX ==> element_count(shape) is Some && product_of(shape) > 0,
    decreases shape.len(),
{
    if shape.len() > 0 {
        let rest = shape.drop_last();
        lemma_count_is_product(rest);
        if forall|i: int| 0 <= i < shape.len() ==> #[trigger] shape[i] > 0 {
            assert forall|i: int| 0 <= i < rest.len() implies #[trigger] rest[i] > 0 by {
                assert(rest[i] == shape[i]);
            }
            assert(shape[shape.len() - 1] > 0);
            assert(product_of(shape) <= usize::MAX ==> product_of(rest) <= usize::MAX)
                by (nonlinear_arith)
                requires
                    product_of(shape) == product_of(rest) * shape.last(),
                    shape.last() > 0,
                    product_of(rest) >= 0,
            ;
            assert(product_of(rest) > 0 ==> product_of(shape) > 0) by (nonlinear_arith)
                requires
                    product_of(shape) == product_of(rest) * shape.last(),
                    shape.last() > 0,
            ;
        }
    }
}

/// A tensor is sound where its shape is not empty and it has as many elements as the product of its
/// dimensions; as long as no dimension is zero and the product can be counted, only there.
pub proof fn lemma_sound_tensors(
    tensor: PromptTensorI32,
    field_name: &str,
    r: Result<(), Qwen3TtsError>,
)
    requires
        call_ensures(PromptTensorI32::validate, (&tensor, field_name), r),
    ensures
        r is Ok ==> tensor.shape@.len() > 0 && tensor.values@.len() == product_of(tensor.shape@),
        (forall|i: int| 0 <= i < tensor.shape@.len() ==> #[trigger] tensor.shape@[i] > 0)
            && tensor.shape@.len() > 0 && tensor.values@.len() == product_of(tensor.shape@)
            && product_of(tensor.shape@) <= usize::MAX ==> r is Ok,
        tensor.shape@.len() == 0 ==> r is Err && r->Err_0@ == ErrorModel::InvalidInput(
            field_name@ + ".shape must not be empty"@,
        ),
        r is Err && tensor.shape@.len() > 0 ==> {
            ||| r->Err_0@ == ErrorModel::InvalidInput(
                field_name@ + ".shape overflows element count"@,
            )
            ||| r->Err_0@ == ErrorModel::InvalidInput(
                field_name@ + ".values length "@ + decimal(tensor.values@.len())
                    + " does not match shape product "@ + decimal(product_of(tensor.shape@)),
            )
        },
{
    lemma_count_is_product(tensor.shape@);
}

/// A prompt of the first version is sound where it names that version's schema, has a speaker, and
/// its reference take, where it has one, is sound. What is wrong with the schema is told first.
pub proof fn lemma_sound_prompts(
    prompt: VoiceClonePromptV1,
    r: Result<(), Qwen3TtsError>,
    take: PromptTensorI32,
    name: &str,
    of_take: Result<(), Qwen3TtsError>,
)
    requires
        call_ensures(VoiceClonePromptV1::validate, (&prompt,), r),
        name@ == "voice clone prompt ref_code"@,
        call_ensures(PromptTensorI32::validate, (&take, name), of_take),
    ensures
        ({
            let known = prompt.schema@ == "qwen3_tts.voice_clone_prompt.v1"@;
            let spoken = prompt.ref_spk_embedding@.len() > 0;
            &&& r is Ok ==> known && spoken
            &&& !known ==> r->Err_0@ == ErrorModel::InvalidInput(
                "unsupported voice clone prompt schema: "@ + prompt.schema@,
            )
            &&& known && !spoken ==> r->Err_0@ == ErrorModel::InvalidInput(
                "voice clone prompt ref_spk_embedding must not be empty"@,
            )
            &&& known && spoken && prompt.ref_code is None ==> r is Ok
            &&& known && spoken && prompt.ref_code == Some(take) ==> {
                &&& r is Ok <==> of_take is Ok
                &&& r is Err ==> r->Err_0@ == of_take->Err_0@
            }
        }),
{
}

/// Reading takes up exactly the sound prompts, as they are, and writing hands out exactly those. What
/// could not be read or written is told.
pub proof fn lemma_reading_and_writing(
    prompt: VoiceClonePromptV1,
    sound: Result<(), Qwen3TtsError>,
    read: Result<VoiceClonePromptV1, Qwen3TtsError>,
    why: String,
    unread: Result<VoiceClonePromptV1, Qwen3TtsError>,
    bytes: Vec<u8>,
    written: Result<Vec<u8>, Qwen3TtsError>,
    unwritten: Result<Vec<u8>, Qwen3TtsError>,
)
    requires
        call_ensures(VoiceClonePromptV1::validate, (&prompt,), sound),
        call_ensures(VoiceClonePromptV1::from_json_bytes, (Ok::<_, String>(prompt),), read),
        call_ensures(
            VoiceClonePromptV1::from_json_bytes,
            (Err::<VoiceClonePromptV1, _>(why),),
            unread,
        ),
        call_ensures(
            VoiceClonePromptV1::to_json_vec_pretty,
            (&prompt, Ok::<_, String>(bytes)),
            written,
        ),
        call_ensures(
            VoiceClonePromptV1::to_json_vec_pretty,
            (&prompt, Err::<Vec<u8>, _>(why)),
            unwritten,
        ),
    ensures
        sound is Ok ==> read == Ok::<_, Qwen3TtsError>(prompt),
        sound is Err ==> read is Err && read->Err_0@ == sound->Err_0@,
        sound is Ok ==> written is Ok && written->Ok_0@ == bytes@,
        sound is Err ==> written is Err && written->Err_0@ == sound->Err_0@,
        unread is Err && unread->Err_0@ == ErrorModel::InvalidInput(
            "invalid voice clone prompt json: "@ + why@,
        ),
        sound is Ok ==> unwritten is Err && unwritten->Err_0@ == ErrorModel::InvalidInput(
            "failed to encode voice clone prompt json: "@ + why@,
        ),
{
}

/// The speaker of a prompt is the one that it holds.
pub proof fn lemma_speaker_of_prompt(
    one: VoiceClonePromptV1,
    two: VoiceClonePromptV2,
    a: &Vec<Real32>,
    b: &Vec<Real32>,
)
    requires
        call_ensures(VoiceClonePromptV1::speaker_embedding, (&one,), a),
        call_ensures(VoiceClonePromptV2::speaker_embedding, (&two,), b),
    ensures
        a@ == one.ref_spk_embedding@,
        b@ == two.ref_spk_embedding@,
{
}

} // verus!
