use std::collections::HashSet;

use qwen3_tts::error::Qwen3TtsError;
use qwen3_tts::real32::Real32;
use qwen3_tts::vocoder::codebook::{codebook_index, normalize_codebook, ElementType};
use qwen3_tts::vocoder::config::{VocoderConfig, CODEBOOK_SIZE_KEY, NUM_CODEBOOKS_KEY, SAMPLE_RATE_KEY};
use qwen3_tts::vocoder::graph::{Dim, Graph, Leaf, Op};
use qwen3_tts::vocoder::network::Vocoder;
use qwen3_tts::vocoder::shape::{
    graph_metadata_mem_size, tensor_extents, tensor_metadata_size, transposed_trim,
};
use qwen3_tts::vocoder::tensors::{
    DecoderTensor, LayerTensor, ResidualTensor, UpsampleTensor, VocoderTensor,
};
use qwen3_tts::vocoder::weights::{
    admit_tensor, load_order, upload_order, TensorOutcome, VocoderWeights, METADATA_TENSORS,
};

fn outcomes(config: &VocoderConfig, missing: impl Fn(VocoderTensor) -> bool) -> Vec<TensorOutcome> {
    load_order((config.n_codebooks - 1) as usize, config.n_pre_tfm_layers as usize)
        .into_iter()
        .map(|t| {
            if missing(t) {
                TensorOutcome::Failed(Qwen3TtsError::MissingTensor(t.name()))
            } else {
                TensorOutcome::Ready
            }
        })
        .collect()
}

fn vocoder(missing: impl Fn(VocoderTensor) -> bool) -> Vocoder {
    let config = VocoderConfig::default();
    let vocoder = Vocoder::load_from_gguf(config, &outcomes(&config, missing)).ok().unwrap();
    assert!(vocoder.is_decodable());
    vocoder
}

#[test]
fn published_dimensions() {
    let c = VocoderConfig::default();
    assert_eq!((c.sample_rate, c.n_codebooks, c.codebook_size), (24_000, 16, 2_048));
    assert_eq!((c.codebook_dim, c.latent_dim, c.hidden_dim), (256, 1_024, 512));
    assert_eq!((c.n_pre_tfm_layers, c.n_heads, c.ffn_dim, c.decoder_dim), (8, 16, 1_024, 1_536));
    assert_eq!(f32::from_bits(c.rms_norm_eps.bits), 1e-5);
    assert_eq!(f32::from_bits(c.rope_theta.bits), 10_000.0);
    let d = c.with_metadata(16_000, 8, u32::MAX);
    assert_eq!((d.sample_rate, d.n_codebooks, d.codebook_size), (16_000, 8, -1));
    assert_eq!(d.latent_dim, 1_024);
    assert_eq!(SAMPLE_RATE_KEY, "qwen3-tts.tokenizer.sample_rate");
    assert_eq!(NUM_CODEBOOKS_KEY, "qwen3-tts.tokenizer.num_codebooks");
    assert_eq!(CODEBOOK_SIZE_KEY, "qwen3-tts.tokenizer.codebook_size");
}

#[test]
fn tensors_have_the_names_of_the_model_file() {
    assert_eq!(VocoderTensor::VqFirstCodebook.name(), "tok_dec.vq_first.0.codebook");
    assert_eq!(VocoderTensor::VqRestUsage(14).name(), "tok_dec.vq_rest.14.usage");
    assert_eq!(
        VocoderTensor::Layer(7, LayerTensor::AttnScale).name(),
        "tok_dec.pre_tfm.blk.7.attn_scale"
    );
    assert_eq!(
        VocoderTensor::Upsample(1, UpsampleTensor::Pwconv2B).name(),
        "tok_dec.upsample.1.pwconv2.bias"
    );
    assert_eq!(
        VocoderTensor::Residual(3, 4, ResidualTensor::Act2Alpha).name(),
        "tok_dec.dec.3.res.4.act2.alpha"
    );
    assert_eq!(VocoderTensor::Decoder(2, DecoderTensor::ConvTW).name(), "tok_dec.dec.2.conv_t.weight");
    assert_eq!(VocoderTensor::Dec6ConvB.name(), "tok_dec.dec.6.conv.bias");
}

#[test]
fn tensors_are_looked_up_and_uploaded_once_each() {
    let load = load_order(15, 8);
    let upload = upload_order(15, 8);
    assert_eq!(load.len(), 151 + 2 * 15 + 11 * 8);
    assert!(load.len() <= METADATA_TENSORS);
    let loaded: HashSet<String> = load.iter().map(|t| t.name()).collect();
    let uploaded: HashSet<String> = upload.iter().map(|t| t.name()).collect();
    assert_eq!(loaded.len(), load.len());
    assert_eq!(uploaded.len(), upload.len());
    assert_eq!(loaded, uploaded);
}

#[test]
fn optional_tensors_may_be_missing() {
    let full = vocoder(|_| false);
    assert_eq!(full.weights.uploads().len(), 269);
    let slim = vocoder(|t| t.is_optional());
    assert!(slim.weights.uploads().len() < 269);
    assert!(slim.weights.has(VocoderTensor::PreConvW));
    assert!(!slim.weights.has(VocoderTensor::PreConvB));
}

#[test]
fn the_first_fault_ends_loading() {
    let config = VocoderConfig::default();
    let mut list = outcomes(&config, |_| false);
    list[9] = TensorOutcome::Unallocated;
    list[20] = TensorOutcome::Failed(Qwen3TtsError::InvalidInput("later".to_string()));
    let order = load_order(15, 8);
    match VocoderWeights::load(&config, &list) {
        Err(Qwen3TtsError::InvalidTensor(name)) => assert_eq!(name, order[9].name()),
        _ => panic!("expected an error"),
    }
    list.truncate(10);
    assert!(matches!(VocoderWeights::load(&config, &list), Err(Qwen3TtsError::InvalidTensor(_))));
    let required = VocoderTensor::VqFirstOutputProj;
    let missing = TensorOutcome::Failed(Qwen3TtsError::MissingTensor(required.name()));
    assert!(matches!(admit_tensor(required, &missing), Err(Qwen3TtsError::MissingTensor(_))));
    assert!(matches!(admit_tensor(VocoderTensor::PreConvB, &missing), Ok(false)));
    assert!(matches!(admit_tensor(required, &TensorOutcome::Ready), Ok(true)));
}

#[test]
fn codebooks_are_paired_with_their_usage() {
    let pairs = vocoder(|t| matches!(t, VocoderTensor::VqRestUsage(1))).weights.codebooks();
    assert_eq!(pairs.len(), 16);
    assert_eq!(pairs[0], (VocoderTensor::VqFirstCodebook, Some(VocoderTensor::VqFirstUsage)));
    assert_eq!(pairs[1], (VocoderTensor::VqRestCodebook(0), Some(VocoderTensor::VqRestUsage(0))));
    assert_eq!(pairs[2], (VocoderTensor::VqRestCodebook(1), None));
}

#[test]
fn codebooks_are_normalised_by_element_type() {
    assert!(matches!(normalize_codebook(None, ElementType::Other, false), Ok(None)));
    assert!(matches!(
        normalize_codebook(Some(true), ElementType::F16, true),
        Ok(Some(ElementType::F16))
    ));
    assert!(matches!(
        normalize_codebook(Some(true), ElementType::F32, true),
        Ok(Some(ElementType::F32))
    ));
    let text = |r: Result<Option<ElementType>, Qwen3TtsError>| match r {
        Err(Qwen3TtsError::InvalidTensor(t)) => format!("invalid: {t}"),
        Err(Qwen3TtsError::UnsupportedTensorType(t)) => format!("unsupported: {t}"),
        _ => panic!("expected an error"),
    };
    assert_eq!(
        text(normalize_codebook(Some(false), ElementType::F16, true)),
        "invalid: codebook usage has no data"
    );
    assert_eq!(
        text(normalize_codebook(Some(true), ElementType::F16, false)),
        "invalid: f16 codebook has no data"
    );
    assert_eq!(
        text(normalize_codebook(Some(true), ElementType::F32, false)),
        "invalid: f32 codebook has no data"
    );
    assert_eq!(
        text(normalize_codebook(Some(true), ElementType::Other, true)),
        "unsupported: tok_dec codebook normalization"
    );
}

#[test]
fn codebook_indices_cover_the_codebook() {
    let mut seen = vec![false; 12];
    for row in 0..3 {
        for dim in 0..4 {
            seen[codebook_index(row, dim, 4, 3)] = true;
        }
    }
    assert!(seen.iter().all(|s| *s));
    assert_eq!(codebook_index(2, 1, 4, 3), 9);
}

#[test]
fn decoding_checks_the_codes() {
    let v = vocoder(|_| false);
    assert!(v.decode(&vec![1, 2, 3], 0).ok().unwrap().is_none());
    match v.decode(&vec![0; 31], 2) {
        Err(Qwen3TtsError::InvalidInput(text)) => assert_eq!(text, "vocoder codes shape is invalid"),
        _ => panic!("expected an error"),
    }
    // A vocoder that decodes nothing answers these all the same.
    let mut v = vocoder(|_| false);
    v.config.n_heads = 0;
    assert!(!v.is_decodable());
    assert!(v.decode(&vec![1], 0).ok().unwrap().is_none());
    assert!(v.decode(&vec![0; 31], 2).is_err());
}

#[test]
fn decoding_sorts_codes_by_codebook() {
    let v = vocoder(|_| false);
    let codes: Vec<i32> = (0..48).collect();
    let plan = v.decode(&codes, 3).ok().unwrap().unwrap();
    assert_eq!(plan.positions, vec![0, 1, 2]);
    assert_eq!(plan.codes.len(), 16);
    assert_eq!(plan.codes[0], vec![0, 16, 32]);
    assert_eq!(plan.codes[15], vec![15, 31, 47]);
}

#[test]
fn decoding_graphs_end_in_a_bounded_row() {
    let v = vocoder(|_| false);
    let plan = v.decode(&vec![0; 16], 1).ok().unwrap().unwrap();
    let output = plan.output;
    let nodes = plan.graph.into_nodes();
    assert!(nodes.len() <= qwen3_tts::vocoder::decode::GRAPH_NODES);
    assert_eq!(output, nodes.len() - 1);
    let flat = match &nodes[output] {
        Op::Cont(x) => *x,
        other => panic!("unexpected output {other:?}"),
    };
    let bounded = match &nodes[flat] {
        Op::Reshape1d(x, Dim::Extent(y, 0)) => {
            assert_eq!(x, y);
            *x
        }
        other => panic!("unexpected node {other:?}"),
    };
    assert!(matches!(&nodes[bounded], Op::Tanh(_)));
    let count = |f: &dyn Fn(&Op<usize>) -> bool| nodes.iter().filter(|op| f(op)).count();
    assert_eq!(count(&|op| matches!(op, Op::GetRows(_, _))), 16);
    assert_eq!(count(&|op| matches!(op, Op::SoftMax(_))), 8);
    assert_eq!(count(&|op| matches!(op, Op::ConvTranspose1d(_, _, _))), 6);
    assert_eq!(count(&|op| matches!(op, Op::Conv1dDepthwise(_, _))), 2);
    assert_eq!(count(&|op| matches!(op, Op::Input(Leaf::Codes(_)))), 16);
    assert_eq!(count(&|op| matches!(op, Op::Input(Leaf::Positions))), 1);
}

#[test]
fn missing_tensors_leave_their_steps_out() {
    let v = vocoder(|t| t.is_optional());
    let plan = v.decode(&vec![0; 16], 1).ok().unwrap().unwrap();
    let nodes = plan.graph.into_nodes();
    let has = |f: &dyn Fn(&Op<usize>) -> bool| nodes.iter().any(|op| f(op));
    assert!(!has(&|op| matches!(op, Op::Input(Leaf::Weight(VocoderTensor::PreConvB)))));
    assert!(!has(&|op| matches!(op, Op::Input(Leaf::Weight(VocoderTensor::Dec5SnakeAlpha)))));
}

#[test]
fn graphs_grow_node_by_node() {
    let mut g = Graph::new();
    let a = g.add_node(Op::Input(Leaf::Positions));
    let b = g.add_node(Op::Sqr(a));
    let c = Vocoder::apply_snake(&mut g, b, VocoderTensor::Dec5SnakeAlpha, VocoderTensor::Dec5SnakeBeta);
    assert_eq!((a, b), (0, 1));
    assert!(c > b);
    let d = Vocoder::apply_rms_norm(&mut g, c, VocoderTensor::PreTfmNormW, Real32::from_bits(0));
    let nodes = g.into_nodes();
    assert_eq!(d, nodes.len() - 1);
    assert!(matches!(&nodes[d], Op::Mul(_, _)));
}

#[test]
fn sizes() {
    assert_eq!(tensor_extents(&vec![]), [1, 1, 1, 1]);
    assert_eq!(tensor_extents(&vec![7, 3]), [7, 3, 1, 1]);
    assert_eq!(tensor_extents(&vec![1, 2, 3, 4]), [1, 2, 3, 4]);
    let t = transposed_trim(16, 8, 100, 4);
    assert_eq!((t.len, t.offset), (84, 32));
    assert_eq!(tensor_metadata_size(0, 400), 400);
    assert_eq!(tensor_metadata_size(3, 400), 1_200);
    assert_eq!(graph_metadata_mem_size(10, 400, 1_000), 1_048_576);
    assert_eq!(graph_metadata_mem_size(32_768, 368, 1_000), 1_000 + 368 * 32_768 * 16);
}
