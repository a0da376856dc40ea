//! Which tensors the published model files hold, and under which names.

use vstd::prelude::*;
#[allow(unused_imports)]
use crate::text::decimal;
#[allow(unused_imports)]
use crate::vocoder::tensors::{
    DecoderTensor, LayerTensor, ResidualTensor, UpsampleTensor, VocoderTensor,
};
#[allow(unused_imports)]
use crate::vocoder::weights::{
    fault, lemma_load_sequence_lists, lists, load_order, load_sequence, ready, TensorOutcome, VocoderWeights,
};

verus! {

/// Whether a tensor is looked up under a name, and under no other.
pub open spec fn named(t: VocoderTensor, name: Seq<char>) -> bool {
    forall|r: String| #[trigger] call_ensures(VocoderTensor::name, (t,), r) ==> r@ == name
}

/// The names of the tensors that there is one of.
pub proof fn lemma_single_names()
    ensures
        named(VocoderTensor::VqFirstOutputProj, "tok_dec.vq_first.output_proj.weight"@),
        named(VocoderTensor::VqFirstCodebook, "tok_dec.vq_first.0.codebook"@),
        named(VocoderTensor::VqFirstUsage, "tok_dec.vq_first.0.usage"@),
        named(VocoderTensor::VqRestOutputProj, "tok_dec.vq_rest.output_proj.weight"@),
        named(VocoderTensor::PreConvW, "tok_dec.pre_conv.weight"@),
        named(VocoderTensor::PreConvB, "tok_dec.pre_conv.bias"@),
        named(VocoderTensor::PreTfmInputProjW, "tok_dec.pre_tfm.input_proj.weight"@),
        named(VocoderTensor::PreTfmInputProjB, "tok_dec.pre_tfm.input_proj.bias"@),
        named(VocoderTensor::PreTfmNormW, "tok_dec.pre_tfm.norm.weight"@),
        named(VocoderTensor::PreTfmOutputProjW, "tok_dec.pre_tfm.output_proj.weight"@),
        named(VocoderTensor::PreTfmOutputProjB, "tok_dec.pre_tfm.output_proj.bias"@),
        named(VocoderTensor::Dec0ConvW, "tok_dec.dec.0.conv.weight"@),
        named(VocoderTensor::Dec0ConvB, "tok_dec.dec.0.conv.bias"@),
        named(VocoderTensor::Dec5SnakeAlpha, "tok_dec.dec.5.snake.alpha"@),
        named(VocoderTensor::Dec5SnakeBeta, "tok_dec.dec.5.snake.beta"@),
        named(VocoderTensor::Dec6ConvW, "tok_dec.dec.6.conv.weight"@),
        named(VocoderTensor::Dec6ConvB, "tok_dec.dec.6.conv.bias"@),
{
}

/// The names of the tensors of a codebook after the first.
pub proof fn lemma_codebook_names(i: usize)
    ensures
        named(
            VocoderTensor::VqRestCodebook(i),
            "tok_dec.vq_rest."@ + decimal(i as nat) + ".codebook"@,
        ),
        named(VocoderTensor::VqRestUsage(i), "tok_dec.vq_rest."@ + decimal(i as nat) + ".usage"@),
{
}

/// The names of the tensors of a transformer layer.
pub proof fn lemma_layer_names(i: usize)
    ensures
        named(
            VocoderTensor::Layer(i, LayerTensor::AttnNorm),
            "tok_dec.pre_tfm.blk."@ + decimal(i as nat) + "."@ + "attn_norm.weight"@,
        ),
        named(
            VocoderTensor::Layer(i, LayerTensor::AttnQ),
            "tok_dec.pre_tfm.blk."@ + decimal(i as nat) + "."@ + "attn_q.weight"@,
        ),
        named(
            VocoderTensor::Layer(i, LayerTensor::AttnK),
            "tok_dec.pre_tfm.blk."@ + decimal(i as nat) + "."@ + "attn_k.weight"@,
        ),
        named(
            VocoderTensor::Layer(i, LayerTensor::AttnV),
            "tok_dec.pre_tfm.blk."@ + decimal(i as nat) + "."@ + "attn_v.weight"@,
        ),
        named(
            VocoderTensor::Layer(i, LayerTensor::AttnOutput),
            "tok_dec.pre_tfm.blk."@ + decimal(i as nat) + "."@ + "attn_output.weight"@,
        ),
        named(
            VocoderTensor::Layer(i, LayerTensor::AttnScale),
            "tok_dec.pre_tfm.blk."@ + decimal(i as nat) + "."@ + "attn_scale"@,
        ),
        named(
            VocoderTensor::Layer(i, LayerTensor::FfnNorm),
            "tok_dec.pre_tfm.blk."@ + decimal(i as nat) + "."@ + "ffn_norm.weight"@,
        ),
        named(
            VocoderTensor::Layer(i, LayerTensor::FfnGate),
            "tok_dec.pre_tfm.blk."@ + decimal(i as nat) + "."@ + "ffn_gate.weight"@,
        ),
        named(
            VocoderTensor::Layer(i, LayerTensor::FfnUp),
            "tok_dec.pre_tfm.blk."@ + decimal(i as nat) + "."@ + "ffn_up.weight"@,
        ),
        named(
            VocoderTensor::Layer(i, LayerTensor::FfnDown),
            "tok_dec.pre_tfm.blk."@ + decimal(i as nat) + "."@ + "ffn_down.weight"@,
        ),
        named(
            VocoderTensor::Layer(i, LayerTensor::FfnScale),
            "tok_dec.pre_tfm.blk."@ + decimal(i as nat) + "."@ + "ffn_scale"@,
        ),
{
}

/// The names of the tensors of an upsampling block.
pub proof fn lemma_upsample_names(i: usize)
    ensures
        named(
            VocoderTensor::Upsample(i, UpsampleTensor::ConvW),
            "tok_dec.upsample."@ + decimal(i as nat) + "."@ + "conv.weight"@,
        ),
        named(
            VocoderTensor::Upsample(i, UpsampleTensor::ConvB),
            "tok_dec.upsample."@ + decimal(i as nat) + "."@ + "conv.bias"@,
        ),
        named(
            VocoderTensor::Upsample(i, UpsampleTensor::DwconvW),
            "tok_dec.upsample."@ + decimal(i as nat) + "."@ + "dwconv.weight"@,
        ),
        named(
            VocoderTensor::Upsample(i, UpsampleTensor::DwconvB),
            "tok_dec.upsample."@ + decimal(i as nat) + "."@ + "dwconv.bias"@,
        ),
        named(
            VocoderTensor::Upsample(i, UpsampleTensor::NormW),
            "tok_dec.upsample."@ + decimal(i as nat) + "."@ + "norm.weight"@,
        ),
        named(
            VocoderTensor::Upsample(i, UpsampleTensor::NormB),
            "tok_dec.upsample."@ + decimal(i as nat) + "."@ + "norm.bias"@,
        ),
        named(
            VocoderTensor::Upsample(i, UpsampleTensor::Pwconv1W),
            "tok_dec.upsample."@ + decimal(i as nat) + "."@ + "pwconv1.weight"@,
        ),
        named(
            VocoderTensor::Upsample(i, UpsampleTensor::Pwconv1B),
            "tok_dec.upsample."@ + decimal(i as nat) + "."@ + "pwconv1.bias"@,
        ),
        named(
            VocoderTensor::Upsample(i, UpsampleTensor::Pwconv2W),
            "tok_dec.upsample."@ + decimal(i as nat) + "."@ + "pwconv2.weight"@,
        ),
        named(
            VocoderTensor::Upsample(i, UpsampleTensor::Pwconv2B),
            "tok_dec.upsample."@ + decimal(i as nat) + "."@ + "pwconv2.bias"@,
        ),
        named(
            VocoderTensor::Upsample(i, UpsampleTensor::Gamma),
            "tok_dec.upsample."@ + decimal(i as nat) + "."@ + "gamma"@,
        ),
{
}

/// The names of the tensors of a residual unit of a decoder block.
pub proof fn lemma_residual_names(block: usize, unit: usize)
    ensures
        named(
            VocoderTensor::Residual(block, unit, ResidualTensor::Act1Alpha),
            "tok_dec.dec."@ + decimal(block as nat) + ".res."@ + decimal(unit as nat) + "."@ + "act1.alpha"@,
        ),
        named(
            VocoderTensor::Residual(block, unit, ResidualTensor::Act1Beta),
            "tok_dec.dec."@ + decimal(block as nat) + ".res."@ + decimal(unit as nat) + "."@ + "act1.beta"@,
        ),
        named(
            VocoderTensor::Residual(block, unit, ResidualTensor::Conv1W),
            "tok_dec.dec."@ + decimal(block as nat) + ".res."@ + decimal(unit as nat) + "."@ + "conv1.weight"@,
        ),
        named(
            VocoderTensor::Residual(block, unit, ResidualTensor::Conv1B),
            "tok_dec.dec."@ + decimal(block as nat) + ".res."@ + decimal(unit as nat) + "."@ + "conv1.bias"@,
        ),
        named(
            VocoderTensor::Residual(block, unit, ResidualTensor::Act2Alpha),
            "tok_dec.dec."@ + decimal(block as nat) + ".res."@ + decimal(unit as nat) + "."@ + "act2.alpha"@,
        ),
        named(
            VocoderTensor::Residual(block, unit, ResidualTensor::Act2Beta),
            "tok_dec.dec."@ + decimal(block as nat) + ".res."@ + decimal(unit as nat) + "."@ + "act2.beta"@,
        ),
        named(
            VocoderTensor::Residual(block, unit, ResidualTensor::Conv2W),
            "tok_dec.dec."@ + decimal(block as nat) + ".res."@ + decimal(unit as nat) + "."@ + "conv2.weight"@,
        ),
        named(
            VocoderTensor::Residual(block, unit, ResidualTensor::Conv2B),
            "tok_dec.dec."@ + decimal(block as nat) + ".res."@ + decimal(unit as nat) + "."@ + "conv2.bias"@,
        ),
{
}

/// The names of the tensors of a decoder block, its residual units apart.
pub proof fn lemma_decoder_names(block: usize)
    ensures
        named(
            VocoderTensor::Decoder(block, DecoderTensor::SnakeAlpha),
            "tok_dec.dec."@ + decimal(block as nat) + "."@ + "snake.alpha"@,
        ),
        named(
            VocoderTensor::Decoder(block, DecoderTensor::SnakeBeta),
            "tok_dec.dec."@ + decimal(block as nat) + "."@ + "snake.beta"@,
        ),
        named(
            VocoderTensor::Decoder(block, DecoderTensor::ConvTW),
            "tok_dec.dec."@ + decimal(block as nat) + "."@ + "conv_t.weight"@,
        ),
        named(
            VocoderTensor::Decoder(block, DecoderTensor::ConvTB),
            "tok_dec.dec."@ + decimal(block as nat) + "."@ + "conv_t.bias"@,
        ),
{
}

/// What is looked up for `rest` codebooks after the first and `count` transformer layers: each of
/// these tensors, and the two upsampling blocks and four decoder blocks of three residual units each.
pub proof fn lemma_what_is_looked_up(rest: usize, count: usize, order: Vec<VocoderTensor>)
    requires
        call_ensures(load_order, (rest, count), order),
    ensures
        order@.no_duplicates(),
        order@.contains(VocoderTensor::VqFirstOutputProj),
        order@.contains(VocoderTensor::VqFirstCodebook),
        order@.contains(VocoderTensor::VqFirstUsage),
        order@.contains(VocoderTensor::VqRestOutputProj),
        order@.contains(VocoderTensor::PreConvW),
        order@.contains(VocoderTensor::PreConvB),
        order@.contains(VocoderTensor::PreTfmInputProjW),
        order@.contains(VocoderTensor::PreTfmInputProjB),
        order@.contains(VocoderTensor::PreTfmNormW),
        order@.contains(VocoderTensor::PreTfmOutputProjW),
        order@.contains(VocoderTensor::PreTfmOutputProjB),
        order@.contains(VocoderTensor::Dec0ConvW),
        order@.contains(VocoderTensor::Dec0ConvB),
        order@.contains(VocoderTensor::Dec5SnakeAlpha),
        order@.contains(VocoderTensor::Dec5SnakeBeta),
        order@.contains(VocoderTensor::Dec6ConvW),
        order@.contains(VocoderTensor::Dec6ConvB),
        forall|i: usize| #[trigger] order@.contains(VocoderTensor::VqRestCodebook(i)) <==> i < rest,
        forall|i: usize| #[trigger] order@.contains(VocoderTensor::VqRestUsage(i)) <==> i < rest,
        forall|i: usize, part: LayerTensor| #[trigger]
            order@.contains(VocoderTensor::Layer(i, part)) <==> i < count,
        forall|i: usize, part: UpsampleTensor| #[trigger]
            order@.contains(VocoderTensor::Upsample(i, part)) <==> i < 2,
        forall|block: usize, unit: usize, part: ResidualTensor| #[trigger]
            order@.contains(VocoderTensor::Residual(block, unit, part)) <==> 1 <= block <= 4 && 2
                <= unit <= 4,
        forall|block: usize, part: DecoderTensor| #[trigger]
            order@.contains(VocoderTensor::Decoder(block, part)) <==> 1 <= block <= 4,
{
    lemma_load_sequence_lists(rest as nat, count as nat);
}

/// The tensors that the vocoder works without: usage counts, biases, scales and gains, activations,
/// the transformer's last normalisation, and the depthwise convolution and the normalisation of an
/// upsampling block. All others have to be there.
pub proof fn lemma_what_may_be_missing(t: VocoderTensor, r: bool)
    requires
        call_ensures(VocoderTensor::is_optional, (t,), r),
    ensures
        r == match t {
            VocoderTensor::VqFirstUsage | VocoderTensor::VqRestUsage(_) => true,
            VocoderTensor::PreConvB
            | VocoderTensor::PreTfmInputProjB
            | VocoderTensor::PreTfmOutputProjB
            | VocoderTensor::Dec0ConvB
            | VocoderTensor::Dec6ConvB => true,
            VocoderTensor::PreTfmNormW => true,
            VocoderTensor::Dec5SnakeAlpha | VocoderTensor::Dec5SnakeBeta => true,
            VocoderTensor::Layer(_, LayerTensor::AttnScale)
            | VocoderTensor::Layer(_, LayerTensor::FfnScale) => true,
            VocoderTensor::Upsample(_, UpsampleTensor::ConvB)
            | VocoderTensor::Upsample(_, UpsampleTensor::DwconvW)
            | VocoderTensor::Upsample(_, UpsampleTensor::DwconvB)
            | VocoderTensor::Upsample(_, UpsampleTensor::NormW)
            | VocoderTensor::Upsample(_, UpsampleTensor::NormB)
            | VocoderTensor::Upsample(_, UpsampleTensor::Pwconv1B)
            | VocoderTensor::Upsample(_, UpsampleTensor::Pwconv2B)
            | VocoderTensor::Upsample(_, UpsampleTensor::Gamma) => true,
            VocoderTensor::Residual(_, _, ResidualTensor::Conv1W)
            | VocoderTensor::Residual(_, _, ResidualTensor::Conv2W) => false,
            VocoderTensor::Residual(_, _, _) => true,
            VocoderTensor::Decoder(_, DecoderTensor::ConvTW) => false,
            VocoderTensor::Decoder(_, _) => true,
            _ => false,
        },
{
}

/// A vocoder loads if and only if each look-up finds its tensor, or misses one that the vocoder works
/// without; it then holds the tensors that were found, and uploads each of them once.
pub proof fn lemma_found_tensors_are_held(
    config: crate::vocoder::config::VocoderConfig,
    order: Vec<VocoderTensor>,
    outcomes: Vec<TensorOutcome>,
    r: Result<VocoderWeights, crate::error::Qwen3TtsError>,
)
    requires
        config.n_codebooks >= 1,
        config.n_pre_tfm_layers >= 0,
        call_ensures(
            load_order,
            ((config.n_codebooks - 1) as usize, config.n_pre_tfm_layers as usize),
            order,
        ),
        outcomes@.len() == order@.len(),
        call_ensures(VocoderWeights::load, (&config, &outcomes), r),
    ensures
        r is Ok <==> forall|i: int|
            0 <= i < order@.len() ==> ((#[trigger] outcomes@[i]) is Ready || (outcomes@[i] matches
                TensorOutcome::Failed(e) && e is MissingTensor && order@[i].optional())),
        r matches Ok(w) ==> forall|i: int|
            0 <= i < order@.len() ==> (w.holds(#[trigger] order@[i]) <==> outcomes@[i] is Ready),
{
    let seen = load_sequence((config.n_codebooks - 1) as nat, config.n_pre_tfm_layers as nat);
    assert(order@ == seen);
    assert forall|i: int| 0 <= i < order@.len() implies (fault(order@[i], #[trigger] outcomes@[i])
        is None <==> (outcomes@[i] is Ready || (outcomes@[i] matches TensorOutcome::Failed(e)
        && e is MissingTensor && order@[i].optional()))) by {}
    lemma_load_sequence_lists((config.n_codebooks - 1) as nat, config.n_pre_tfm_layers as nat);
    if r is Ok {
        lemma_ready_holds(seen, outcomes@);
        assert forall|i: int| 0 <= i < order@.len() implies (outcomes@[i]) is Ready || (
        outcomes@[i] matches TensorOutcome::Failed(e) && e is MissingTensor
            && order@[i].optional()) by {
            assert(fault(seen[i], outcomes@[i]) is None);
        }
    } else {
        let e = r->Err_0@;
        let i = choose|i: int|
            {
                &&& 0 <= i < outcomes@.len()
                &&& fault(#[trigger] seen[i], outcomes@[i]) == Some(e)
                &&& forall|j: int| 0 <= j < i ==> fault(#[trigger] seen[j], outcomes@[j]) is None
            };
        assert(fault(order@[i], outcomes@[i]) is Some);
    }
}

/// Of distinct tensors exactly those are ready whose look-ups ended well.
proof fn lemma_ready_holds(order: Seq<VocoderTensor>, outcomes: Seq<TensorOutcome>)
    requires
        order.len() == outcomes.len(),
        order.no_duplicates(),
    ensures
        forall|i: int|
            0 <= i < order.len() ==> (ready(order, outcomes).contains(#[trigger] order[i])
                <==> outcomes[i] is Ready),
        forall|t: VocoderTensor| ready(order, outcomes).contains(t) ==> order.contains(t),
    decreases order.len(),
{
    if order.len() > 0 {
        let a = order.drop_last();
        let b = outcomes.drop_last();
        let n = order.len() - 1;
        assert(a.no_duplicates());
        lemma_ready_holds(a, b);
        let before = ready(a, b);
        let all = ready(order, outcomes);
        assert forall|t: VocoderTensor| all.contains(t) <==> (before.contains(t) || (
        outcomes.last() is Ready && t == order.last())) by {
            if outcomes.last() is Ready {
                assert(all == before.push(order.last()));
                if before.contains(t) {
                    let k = choose|k: int| 0 <= k < before.len() && before[k] == t;
                    assert(all[k] == t);
                }
                assert(all[before.len() as int] == order.last());
            }
        }
        assert forall|t: VocoderTensor| all.contains(t) implies order.contains(t) by {
            if before.contains(t) {
                assert(a.contains(t));
                let k = choose|k: int| 0 <= k < a.len() && a[k] == t;
                assert(order[k] == t);
            } else {
                assert(order[n] == t);
            }
        }
        assert forall|i: int| 0 <= i < order.len() implies (all.contains(#[trigger] order[i])
            <==> outcomes[i] is Ready) by {
            if i < n {
                assert(a[i] == order[i] && b[i] == outcomes[i]);
                assert(order[i] != order[n]);
            } else {
                if before.contains(order[n]) {
                    assert(a.contains(order[n]));
                    let k = choose|k: int| 0 <= k < a.len() && a[k] == order[n];
                    assert(order[k] == order[n]);
                }
            }
        }
    }
}

} // verus!
