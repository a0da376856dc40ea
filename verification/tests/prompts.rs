use qwen3_tts::error::Qwen3TtsError;
use qwen3_tts::real32::Real32;
use qwen3_tts::voice_clone_prompt::{PromptTensorI32, VoiceClonePromptV1, VOICE_CLONE_PROMPT_V1_SCHEMA};
use serde_json::{Number, Value};

fn message(error: Qwen3TtsError) -> String {
    match error {
        Qwen3TtsError::InvalidInput(text) => text,
        other => panic!("unexpected error: {other:?}"),
    }
}

fn optional_text(value: &Value, key: &str) -> Option<String> {
    value.get(key).and_then(|v| v.as_str()).map(|s| s.to_string())
}

fn flag(value: &Value, key: &str) -> bool {
    value.get(key).and_then(|v| v.as_bool()).unwrap_or(false)
}

fn read(value: &Value) -> VoiceClonePromptV1 {
    VoiceClonePromptV1 {
        schema: value["schema"].as_str().unwrap().to_string(),
        source: optional_text(value, "source"),
        model_id: optional_text(value, "model_id"),
        speaker_encoder_sample_rate_hz: value
            .get("speaker_encoder_sample_rate_hz")
            .and_then(|v| v.as_u64())
            .map(|n| n as u32),
        x_vector_only_mode: flag(value, "x_vector_only_mode"),
        icl_mode: flag(value, "icl_mode"),
        ref_text: optional_text(value, "ref_text"),
        ref_code: value.get("ref_code").filter(|v| !v.is_null()).map(|code| PromptTensorI32 {
            shape: code["shape"].as_array().unwrap().iter().map(|n| n.as_u64().unwrap() as usize).collect(),
            values: code["values"].as_array().unwrap().iter().map(|n| n.as_i64().unwrap() as i32).collect(),
        }),
        ref_spk_embedding: value["ref_spk_embedding"]
            .as_array()
            .unwrap()
            .iter()
            .map(|n| Real32::from_bits((n.as_f64().unwrap() as f32).to_bits()))
            .collect(),
    }
}

fn write(prompt: &VoiceClonePromptV1) -> Value {
    let mut map = serde_json::Map::new();
    let text = |t: &Option<String>| t.clone().map_or(Value::Null, Value::String);
    map.insert("schema".to_string(), Value::String(prompt.schema.clone()));
    map.insert("source".to_string(), text(&prompt.source));
    map.insert("model_id".to_string(), text(&prompt.model_id));
    if let Some(rate) = prompt.speaker_encoder_sample_rate_hz {
        map.insert("speaker_encoder_sample_rate_hz".to_string(), Value::Number(Number::from(rate)));
    }
    map.insert("x_vector_only_mode".to_string(), Value::Bool(prompt.x_vector_only_mode));
    map.insert("icl_mode".to_string(), Value::Bool(prompt.icl_mode));
    map.insert("ref_text".to_string(), text(&prompt.ref_text));
    if let Some(code) = &prompt.ref_code {
        let mut tensor = serde_json::Map::new();
        let shape = code.shape.iter().map(|n| Value::Number(Number::from(*n))).collect();
        let values = code.values.iter().map(|n| Value::Number(Number::from(*n))).collect();
        tensor.insert("shape".to_string(), Value::Array(shape));
        tensor.insert("values".to_string(), Value::Array(values));
        map.insert("ref_code".to_string(), Value::Object(tensor));
    }
    let embedding = prompt
        .ref_spk_embedding
        .iter()
        .map(|v| Value::Number(Number::from_f64(f32::from_bits(v.bits) as f64).unwrap()))
        .collect();
    map.insert("ref_spk_embedding".to_string(), Value::Array(embedding));
    Value::Object(map)
}

fn unit_prompt() -> VoiceClonePromptV1 {
    VoiceClonePromptV1 {
        schema: VOICE_CLONE_PROMPT_V1_SCHEMA.into(),
        source: Some("unit-test".into()),
        model_id: Some("Qwen/Qwen3-TTS-12Hz-0.6B-Base".into()),
        speaker_encoder_sample_rate_hz: Some(24_000),
        x_vector_only_mode: false,
        icl_mode: true,
        ref_text: Some("hello".into()),
        ref_code: Some(PromptTensorI32 {
            shape: vec![2, 3],
            values: vec![1, 2, 3, 4, 5, 6],
        }),
        ref_spk_embedding: [0.1f32, 0.2, 0.3, 0.4].iter().map(|v| Real32::from_bits(v.to_bits())).collect(),
    }
}

#[test]
fn parses_prompt_json() {
    let prompt = unit_prompt();
    let encoded = serde_json::to_vec_pretty(&write(&prompt)).map_err(|err| err.to_string());
    let json = prompt.to_json_vec_pretty(encoded).unwrap();
    let parsed = serde_json::from_slice::<Value>(&json).map(|v| read(&v)).map_err(|err| err.to_string());
    let parsed = VoiceClonePromptV1::from_json_bytes(parsed).unwrap();
    assert_eq!(parsed, prompt);
    assert_eq!(parsed.speaker_embedding(), prompt.speaker_embedding());
}

#[test]
fn rejects_bad_schema() {
    let prompt = br#"{
            "schema": "wrong.schema",
            "ref_spk_embedding": [0.1, 0.2]
        }"#;
    let parsed = serde_json::from_slice::<Value>(prompt).map(|v| read(&v)).map_err(|err| err.to_string());
    let err = VoiceClonePromptV1::from_json_bytes(parsed).unwrap_err();
    assert!(message(err).contains("unsupported voice clone prompt schema"));
}

#[test]
fn unreadable_and_unwritable_json_is_refused() {
    let err = VoiceClonePromptV1::from_json_bytes(Err("line 1".to_string())).unwrap_err();
    assert_eq!(message(err), "invalid voice clone prompt json: line 1");
    let err = unit_prompt().to_json_vec_pretty(Err("full".to_string())).unwrap_err();
    assert_eq!(message(err), "failed to encode voice clone prompt json: full");
}

#[test]
fn prompts_need_an_embedding() {
    let mut prompt = unit_prompt();
    prompt.ref_spk_embedding.clear();
    assert_eq!(
        message(prompt.validate().unwrap_err()),
        "voice clone prompt ref_spk_embedding must not be empty"
    );
    assert!(prompt.to_json_vec_pretty(Ok(vec![1])).is_err());
}

#[test]
fn tensors_must_match_their_shape() {
    let tensor = |shape: Vec<usize>, values: Vec<i32>| PromptTensorI32 { shape, values };
    assert!(tensor(vec![2, 0, 3], vec![]).validate("f").is_ok());
    assert_eq!(
        message(tensor(vec![], vec![]).validate("f").unwrap_err()),
        "f.shape must not be empty"
    );
    assert_eq!(
        message(tensor(vec![usize::MAX, 2, 0], vec![]).validate("f").unwrap_err()),
        "f.shape overflows element count"
    );
    assert!(tensor(vec![usize::MAX, 0, 2], vec![]).validate("f").is_ok());
    assert_eq!(
        message(tensor(vec![2, 3], vec![1]).validate("f").unwrap_err()),
        "f.values length 1 does not match shape product 6"
    );
    let mut prompt = unit_prompt();
    prompt.ref_code = Some(tensor(vec![], vec![]));
    assert_eq!(
        message(prompt.validate().unwrap_err()),
        "voice clone prompt ref_code.shape must not be empty"
    );
}
