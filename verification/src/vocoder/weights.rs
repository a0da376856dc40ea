//! Which tensors the vocoder loads, in which order, and in which order it uploads them.

use vstd::prelude::*;
use crate::error::Qwen3TtsError;
use crate::vocoder::config::VocoderConfig;
use crate::vocoder::network::Vocoder;
use crate::vocoder::tensors::{
    DecoderTensor, LayerTensor, ResidualTensor, UpsampleTensor, VocoderTensor,
};
#[allow(unused_imports)]
use crate::error::ErrorModel;

verus! {

/// The tensors of the vector quantiser that come before the codebooks after the first.
pub open spec fn quantiser_head() -> Seq<VocoderTensor> {
    seq![
        VocoderTensor::VqFirstOutputProj,
        VocoderTensor::VqFirstCodebook,
        VocoderTensor::VqFirstUsage,
        VocoderTensor::VqRestOutputProj,
    ]
}

/// The tensors of the first `rest` codebooks after the first one.
pub open spec fn quantiser_rest(rest: nat) -> Seq<VocoderTensor>
    decreases rest,
{
    if rest == 0 {
        Seq::empty()
    } else {
        quantiser_rest((rest - 1) as nat) + seq![
            VocoderTensor::VqRestCodebook((rest - 1) as usize),
            VocoderTensor::VqRestUsage((rest - 1) as usize),
        ]
    }
}

/// The tensors between the quantiser and the transformer layers.
pub open spec fn pre_stage() -> Seq<VocoderTensor> {
    seq![
        VocoderTensor::PreConvW,
        VocoderTensor::PreConvB,
        VocoderTensor::PreTfmInputProjW,
        VocoderTensor::PreTfmInputProjB,
        VocoderTensor::PreTfmNormW,
        VocoderTensor::PreTfmOutputProjW,
        VocoderTensor::PreTfmOutputProjB,
    ]
}

/// The tensors of one transformer layer.
pub open spec fn layer(i: usize) -> Seq<VocoderTensor> {
    seq![
        VocoderTensor::Layer(i, LayerTensor::AttnNorm),
        VocoderTensor::Layer(i, LayerTensor::AttnQ),
        VocoderTensor::Layer(i, LayerTensor::AttnK),
        VocoderTensor::Layer(i, LayerTensor::AttnV),
        VocoderTensor::Layer(i, LayerTensor::AttnOutput),
        VocoderTensor::Layer(i, LayerTensor::AttnScale),
        VocoderTensor::Layer(i, LayerTensor::FfnNorm),
        VocoderTensor::Layer(i, LayerTensor::FfnGate),
        VocoderTensor::Layer(i, LayerTensor::FfnUp),
        VocoderTensor::Layer(i, LayerTensor::FfnDown),
        VocoderTensor::Layer(i, LayerTensor::FfnScale),
    ]
}

/// The tensors of the first `count` transformer layers.
pub open spec fn layers(count: nat) -> Seq<VocoderTensor>
    decreases count,
{
    if count == 0 {
        Seq::empty()
    } else {
        layers((count - 1) as nat) + layer((count - 1) as usize)
    }
}

/// The tensors of one upsampling block.
pub open spec fn upsample(i: usize) -> Seq<VocoderTensor> {
    seq![
        VocoderTensor::Upsample(i, UpsampleTensor::ConvW),
        VocoderTensor::Upsample(i, UpsampleTensor::ConvB),
        VocoderTensor::Upsample(i, UpsampleTensor::DwconvW),
        VocoderTensor::Upsample(i, UpsampleTensor::DwconvB),
        VocoderTensor::Upsample(i, UpsampleTensor::NormW),
        VocoderTensor::Upsample(i, UpsampleTensor::NormB),
        VocoderTensor::Upsample(i, UpsampleTensor::Pwconv1W),
        VocoderTensor::Upsample(i, UpsampleTensor::Pwconv1B),
        VocoderTensor::Upsample(i, UpsampleTensor::Pwconv2W),
        VocoderTensor::Upsample(i, UpsampleTensor::Pwconv2B),
        VocoderTensor::Upsample(i, UpsampleTensor::Gamma),
    ]
}

/// The tensors of the decoder's first convolution.
pub open spec fn decoder_entry() -> Seq<VocoderTensor> {
    seq![VocoderTensor::Dec0ConvW, VocoderTensor::Dec0ConvB]
}

/// The tensors of one residual unit.
pub open spec fn residual(block: usize, unit: usize) -> Seq<VocoderTensor> {
    seq![
        VocoderTensor::Residual(block, unit, ResidualTensor::Act1Alpha),
        VocoderTensor::Residual(block, unit, ResidualTensor::Act1Beta),
        VocoderTensor::Residual(block, unit, ResidualTensor::Conv1W),
        VocoderTensor::Residual(block, unit, ResidualTensor::Conv1B),
        VocoderTensor::Residual(block, unit, ResidualTensor::Act2Alpha),
        VocoderTensor::Residual(block, unit, ResidualTensor::Act2Beta),
        VocoderTensor::Residual(block, unit, ResidualTensor::Conv2W),
        VocoderTensor::Residual(block, unit, ResidualTensor::Conv2B),
    ]
}

/// The tensors of the three residual units of a decoder block.
pub open spec fn residuals(block: usize) -> Seq<VocoderTensor> {
    residual(block, 2) + residual(block, 3) + residual(block, 4)
}

/// The tensors of a decoder block, its residual units apart.
pub open spec fn decoder_frame(block: usize) -> Seq<VocoderTensor> {
    seq![
        VocoderTensor::Decoder(block, DecoderTensor::SnakeAlpha),
        VocoderTensor::Decoder(block, DecoderTensor::SnakeBeta),
        VocoderTensor::Decoder(block, DecoderTensor::ConvTW),
        VocoderTensor::Decoder(block, DecoderTensor::ConvTB),
    ]
}

/// The tensors of the first `count` decoder blocks in the order in which they are looked up.
pub open spec fn decoder_blocks_loaded(count: nat) -> Seq<VocoderTensor>
    decreases count,
{
    if count == 0 {
        Seq::empty()
    } else {
        decoder_blocks_loaded((count - 1) as nat) + (residuals(count as usize) + decoder_frame(
            count as usize,
        ))
    }
}

/// The tensors of the first `count` decoder blocks in the order in which they are uploaded.
pub open spec fn decoder_blocks_uploaded(count: nat) -> Seq<VocoderTensor>
    decreases count,
{
    if count == 0 {
        Seq::empty()
    } else {
        decoder_blocks_uploaded((count - 1) as nat) + (decoder_frame(count as usize) + residuals(
            count as usize,
        ))
    }
}

/// The tensors that come after the decoder blocks.
pub open spec fn decoder_exit() -> Seq<VocoderTensor> {
    seq![
        VocoderTensor::Dec5SnakeAlpha,
        VocoderTensor::Dec5SnakeBeta,
        VocoderTensor::Dec6ConvW,
        VocoderTensor::Dec6ConvB,
    ]
}

/// The order in which the tensors are looked up: `rest` codebooks after the first one and `count`
/// transformer layers.
pub open spec fn load_sequence(rest: nat, count: nat) -> Seq<VocoderTensor> {
    quantiser_head() + quantiser_rest(rest) + pre_stage() + layers(count) + upsample(0) + upsample(
        1,
    ) + decoder_entry() + decoder_blocks_loaded(4) + decoder_exit()
}

/// The order in which the tensors' contents are uploaded.
pub open spec fn upload_sequence(rest: nat, count: nat) -> Seq<VocoderTensor> {
    quantiser_head() + pre_stage() + decoder_entry() + decoder_exit() + quantiser_rest(rest)
        + layers(count) + upsample(0) + upsample(1) + decoder_blocks_uploaded(4)
}

/// Whether a tensor is one of a vocoder with `rest` codebooks after the first one and `count`
/// transformer layers.
pub open spec fn belongs(t: VocoderTensor, rest: nat, count: nat) -> bool {
    match t {
        VocoderTensor::VqRestCodebook(i) | VocoderTensor::VqRestUsage(i) => i < rest,
        VocoderTensor::Layer(i, _) => i < count,
        VocoderTensor::Upsample(i, _) => i < 2,
        VocoderTensor::Residual(b, r, _) => 1 <= b <= 4 && 2 <= r <= 4,
        VocoderTensor::Decoder(b, _) => 1 <= b <= 4,
        _ => true,
    }
}

/// Whether a sequence holds each tensor that satisfies `p` exactly once, and no other.
pub open spec fn lists(s: Seq<VocoderTensor>, p: spec_fn(VocoderTensor) -> bool) -> bool {
    s.no_duplicates() && forall|t: VocoderTensor| #[trigger] s.contains(t) <==> p(t)
}

proof fn lemma_lists_concat(
    a: Seq<VocoderTensor>,
    b: Seq<VocoderTensor>,
    p: spec_fn(VocoderTensor) -> bool,
    q: spec_fn(VocoderTensor) -> bool,
)
    requires
        lists(a, p),
        lists(b, q),
        forall|t: VocoderTensor| !(#[trigger] p(t) && q(t)),
    ensures
        lists(a + b, |t: VocoderTensor| p(t) || q(t)),
{
    let s = a + b;
    assert forall|i: int, j: int| 0 <= i < s.len() && 0 <= j < s.len() && i != j implies s[i]
        != s[j] by {
        if i < a.len() {
            assert(a.contains(a[i]));
        } else {
            assert(b.contains(b[i - a.len()]));
        }
        if j < a.len() {
            assert(a.contains(a[j]));
        } else {
            assert(b.contains(b[j - a.len()]));
        }
    }
    assert forall|t: VocoderTensor| #[trigger] s.contains(t) <==> (p(t) || q(t)) by {
        if s.contains(t) {
            let k = choose|k: int| 0 <= k < s.len() && s[k] == t;
            if k < a.len() {
                assert(a.contains(a[k]));
            } else {
                assert(b.contains(b[k - a.len()]));
            }
        }
        if p(t) {
            assert(a.contains(t));
            let k = choose|k: int| 0 <= k < a.len() && a[k] == t;
            assert(s[k] == t);
        }
        if q(t) {
            assert(b.contains(t));
            let k = choose|k: int| 0 <= k < b.len() && b[k] == t;
            assert(s[k + a.len()] == t);
        }
    }
}

proof fn lemma_layer_lists(i: usize)
    ensures
        lists(layer(i), |t: VocoderTensor| t matches VocoderTensor::Layer(k, _) && k == i),
{
    let s = layer(i);
    assert forall|t: VocoderTensor| #[trigger] s.contains(t)
        <==> (t matches VocoderTensor::Layer(k, _) && k == i) by {
        assert(s[0] == VocoderTensor::Layer(i, LayerTensor::AttnNorm));
        assert(s[1] == VocoderTensor::Layer(i, LayerTensor::AttnQ));
        assert(s[2] == VocoderTensor::Layer(i, LayerTensor::AttnK));
        assert(s[3] == VocoderTensor::Layer(i, LayerTensor::AttnV));
        assert(s[4] == VocoderTensor::Layer(i, LayerTensor::AttnOutput));
        assert(s[5] == VocoderTensor::Layer(i, LayerTensor::AttnScale));
        assert(s[6] == VocoderTensor::Layer(i, LayerTensor::FfnNorm));
        assert(s[7] == VocoderTensor::Layer(i, LayerTensor::FfnGate));
        assert(s[8] == VocoderTensor::Layer(i, LayerTensor::FfnUp));
        assert(s[9] == VocoderTensor::Layer(i, LayerTensor::FfnDown));
        assert(s[10] == VocoderTensor::Layer(i, LayerTensor::FfnScale));
    }
}

proof fn lemma_upsample_lists(i: usize)
    ensures
        lists(upsample(i), |t: VocoderTensor| t matches VocoderTensor::Upsample(k, _) && k == i),
{
    let s = upsample(i);
    assert forall|t: VocoderTensor| #[trigger] s.contains(t)
        <==> (t matches VocoderTensor::Upsample(k, _) && k == i) by {
        assert(s[0] == VocoderTensor::Upsample(i, UpsampleTensor::ConvW));
        assert(s[1] == VocoderTensor::Upsample(i, UpsampleTensor::ConvB));
        assert(s[2] == VocoderTensor::Upsample(i, UpsampleTensor::DwconvW));
        assert(s[3] == VocoderTensor::Upsample(i, UpsampleTensor::DwconvB));
        assert(s[4] == VocoderTensor::Upsample(i, UpsampleTensor::NormW));
        assert(s[5] == VocoderTensor::Upsample(i, UpsampleTensor::NormB));
        assert(s[6] == VocoderTensor::Upsample(i, UpsampleTensor::Pwconv1W));
        assert(s[7] == VocoderTensor::Upsample(i, UpsampleTensor::Pwconv1B));
        assert(s[8] == VocoderTensor::Upsample(i, UpsampleTensor::Pwconv2W));
        assert(s[9] == VocoderTensor::Upsample(i, UpsampleTensor::Pwconv2B));
        assert(s[10] == VocoderTensor::Upsample(i, UpsampleTensor::Gamma));
    }
}

proof fn lemma_residual_lists(b: usize, r: usize)
    ensures
        lists(residual(b, r), |t: VocoderTensor|
            t matches VocoderTensor::Residual(k, l, _) && k == b && l == r),
{
    let s = residual(b, r);
    assert forall|t: VocoderTensor| #[trigger] s.contains(t)
        <==> (t matches VocoderTensor::Residual(k, l, _) && k == b && l == r) by {
        assert(s[0] == VocoderTensor::Residual(b, r, ResidualTensor::Act1Alpha));
        assert(s[1] == VocoderTensor::Residual(b, r, ResidualTensor::Act1Beta));
        assert(s[2] == VocoderTensor::Residual(b, r, ResidualTensor::Conv1W));
        assert(s[3] == VocoderTensor::Residual(b, r, ResidualTensor::Conv1B));
        assert(s[4] == VocoderTensor::Residual(b, r, ResidualTensor::Act2Alpha));
        assert(s[5] == VocoderTensor::Residual(b, r, ResidualTensor::Act2Beta));
        assert(s[6] == VocoderTensor::Residual(b, r, ResidualTensor::Conv2W));
        assert(s[7] == VocoderTensor::Residual(b, r, ResidualTensor::Conv2B));
    }
}

proof fn lemma_decoder_frame_lists(b: usize)
    ensures
        lists(decoder_frame(b), |t: VocoderTensor|
            t matches VocoderTensor::Decoder(k, _) && k == b),
{
    let s = decoder_frame(b);
    assert forall|t: VocoderTensor| #[trigger] s.contains(t)
        <==> (t matches VocoderTensor::Decoder(k, _) && k == b) by {
        assert(s[0] == VocoderTensor::Decoder(b, DecoderTensor::SnakeAlpha));
        assert(s[1] == VocoderTensor::Decoder(b, DecoderTensor::SnakeBeta));
        assert(s[2] == VocoderTensor::Decoder(b, DecoderTensor::ConvTW));
        assert(s[3] == VocoderTensor::Decoder(b, DecoderTensor::ConvTB));
    }
}

proof fn lemma_quantiser_head_lists()
    ensures
        lists(quantiser_head(), |t: VocoderTensor|
            t == VocoderTensor::VqFirstOutputProj
            || t == VocoderTensor::VqFirstCodebook
            || t == VocoderTensor::VqFirstUsage
            || t == VocoderTensor::VqRestOutputProj),
{
    let s = quantiser_head();
    assert forall|t: VocoderTensor| #[trigger] s.contains(t)
        <==> (t == VocoderTensor::VqFirstOutputProj
        || t == VocoderTensor::VqFirstCodebook
        || t == VocoderTensor::VqFirstUsage
        || t == VocoderTensor::VqRestOutputProj) by {
        assert(s[0] == VocoderTensor::VqFirstOutputProj);
        assert(s[1] == VocoderTensor::VqFirstCodebook);
        assert(s[2] == VocoderTensor::VqFirstUsage);
        assert(s[3] == VocoderTensor::VqRestOutputProj);
    }
}

proof fn lemma_pre_stage_lists()
    ensures
        lists(pre_stage(), |t: VocoderTensor|
            t == VocoderTensor::PreConvW
            || t == VocoderTensor::PreConvB
            || t == VocoderTensor::PreTfmInputProjW
            || t == VocoderTensor::PreTfmInputProjB
            || t == VocoderTensor::PreTfmNormW
            || t == VocoderTensor::PreTfmOutputProjW
            || t == VocoderTensor::PreTfmOutputProjB),
{
    let s = pre_stage();
    assert forall|t: VocoderTensor| #[trigger] s.contains(t)
        <==> (t == VocoderTensor::PreConvW
        || t == VocoderTensor::PreConvB
        || t == VocoderTensor::PreTfmInputProjW
        || t == VocoderTensor::PreTfmInputProjB
        || t == VocoderTensor::PreTfmNormW
        || t == VocoderTensor::PreTfmOutputProjW
        || t == VocoderTensor::PreTfmOutputProjB) by {
        assert(s[0] == VocoderTensor::PreConvW);
        assert(s[1] == VocoderTensor::PreConvB);
        assert(s[2] == VocoderTensor::PreTfmInputProjW);
        assert(s[3] == VocoderTensor::PreTfmInputProjB);
        assert(s[4] == VocoderTensor::PreTfmNormW);
        assert(s[5] == VocoderTensor::PreTfmOutputProjW);
        assert(s[6] == VocoderTensor::PreTfmOutputProjB);
    }
}

proof fn lemma_decoder_entry_lists()
    ensures
        lists(decoder_entry(), |t: VocoderTensor|
            t == VocoderTensor::Dec0ConvW
            || t == VocoderTensor::Dec0ConvB),
{
    let s = decoder_entry();
    assert forall|t: VocoderTensor| #[trigger] s.contains(t)
        <==> (t == VocoderTensor::Dec0ConvW
        || t == VocoderTensor::Dec0ConvB) by {
        assert(s[0] == VocoderTensor::Dec0ConvW);
        assert(s[1] == VocoderTensor::Dec0ConvB);
    }
}

proof fn lemma_decoder_exit_lists()
    ensures
        lists(decoder_exit(), |t: VocoderTensor|
            t == VocoderTensor::Dec5SnakeAlpha
            || t == VocoderTensor::Dec5SnakeBeta
            || t == VocoderTensor::Dec6ConvW
            || t == VocoderTensor::Dec6ConvB),
{
    let s = decoder_exit();
    assert forall|t: VocoderTensor| #[trigger] s.contains(t)
        <==> (t == VocoderTensor::Dec5SnakeAlpha
        || t == VocoderTensor::Dec5SnakeBeta
        || t == VocoderTensor::Dec6ConvW
        || t == VocoderTensor::Dec6ConvB) by {
        assert(s[0] == VocoderTensor::Dec5SnakeAlpha);
        assert(s[1] == VocoderTensor::Dec5SnakeBeta);
        assert(s[2] == VocoderTensor::Dec6ConvW);
        assert(s[3] == VocoderTensor::Dec6ConvB);
    }
}

proof fn lemma_lists_as(
    s: Seq<VocoderTensor>,
    p: spec_fn(VocoderTensor) -> bool,
    q: spec_fn(VocoderTensor) -> bool,
)
    requires
        lists(s, p),
        forall|t: VocoderTensor| #[trigger] p(t) == q(t),
    ensures
        lists(s, q),
{
    assert forall|t: VocoderTensor| #[trigger] s.contains(t) <==> q(t) by {
        assert(p(t) == q(t));
    }
}

proof fn lemma_quantiser_rest_lists(rest: nat)
    requires
        rest <= usize::MAX,
    ensures
        lists(
            quantiser_rest(rest),
            |t: VocoderTensor|
                match t {
                    VocoderTensor::VqRestCodebook(k) | VocoderTensor::VqRestUsage(k) => k < rest,
                    _ => false,
                },
        ),
    decreases rest,
{
    let goal = |t: VocoderTensor|
        match t {
            VocoderTensor::VqRestCodebook(k) | VocoderTensor::VqRestUsage(k) => k < rest,
            _ => false,
        };
    if rest == 0 {
        assert(lists(quantiser_rest(0), goal));
    } else {
        let below = (rest - 1) as nat;
        let i = below as usize;
        lemma_quantiser_rest_lists(below);
        let p = |t: VocoderTensor|
            match t {
                VocoderTensor::VqRestCodebook(k) | VocoderTensor::VqRestUsage(k) => k < below,
                _ => false,
            };
        let q = |t: VocoderTensor|
            t == VocoderTensor::VqRestCodebook(i) || t == VocoderTensor::VqRestUsage(i);
        let tail = seq![VocoderTensor::VqRestCodebook(i), VocoderTensor::VqRestUsage(i)];
        assert(lists(tail, q)) by {
            assert forall|t: VocoderTensor| #[trigger] tail.contains(t) <==> q(t) by {
                assert(tail[0] == VocoderTensor::VqRestCodebook(i));
                assert(tail[1] == VocoderTensor::VqRestUsage(i));
            }
        }
        lemma_lists_concat(quantiser_rest(below), tail, p, q);
        lemma_lists_as(quantiser_rest(rest), |t: VocoderTensor| p(t) || q(t), goal);
    }
}

proof fn lemma_layers_lists(count: nat)
    requires
        count <= usize::MAX,
    ensures
        lists(layers(count), |t: VocoderTensor| t matches VocoderTensor::Layer(k, _) && k < count),
    decreases count,
{
    let goal = |t: VocoderTensor| t matches VocoderTensor::Layer(k, _) && k < count;
    if count == 0 {
        assert(lists(layers(0), goal));
    } else {
        let below = (count - 1) as nat;
        let i = below as usize;
        lemma_layers_lists(below);
        lemma_layer_lists(i);
        let p = |t: VocoderTensor| t matches VocoderTensor::Layer(k, _) && k < below;
        let q = |t: VocoderTensor| t matches VocoderTensor::Layer(k, _) && k == i;
        lemma_lists_concat(layers(below), layer(i), p, q);
        lemma_lists_as(layers(count), |t: VocoderTensor| p(t) || q(t), goal);
    }
}

proof fn lemma_residuals_lists(b: usize)
    ensures
        lists(
            residuals(b),
            |t: VocoderTensor|
                t matches VocoderTensor::Residual(k, l, _) && k == b && 2 <= l <= 4,
        ),
{
    let p = |t: VocoderTensor| t matches VocoderTensor::Residual(k, l, _) && k == b && l == 2;
    let q = |t: VocoderTensor| t matches VocoderTensor::Residual(k, l, _) && k == b && l == 3;
    let r = |t: VocoderTensor| t matches VocoderTensor::Residual(k, l, _) && k == b && l == 4;
    lemma_residual_lists(b, 2);
    lemma_residual_lists(b, 3);
    lemma_residual_lists(b, 4);
    lemma_lists_concat(residual(b, 2), residual(b, 3), p, q);
    let pq = |t: VocoderTensor| p(t) || q(t);
    lemma_lists_concat(residual(b, 2) + residual(b, 3), residual(b, 4), pq, r);
    lemma_lists_as(
        residuals(b),
        |t: VocoderTensor| pq(t) || r(t),
        |t: VocoderTensor| t matches VocoderTensor::Residual(k, l, _) && k == b && 2 <= l <= 4,
    );
}

/// Whether a tensor is one of the first `count` decoder blocks.
spec fn in_decoder_blocks(t: VocoderTensor, count: nat) -> bool {
    match t {
        VocoderTensor::Residual(b, r, _) => 1 <= b <= count && 2 <= r <= 4,
        VocoderTensor::Decoder(b, _) => 1 <= b <= count,
        _ => false,
    }
}

proof fn lemma_decoder_blocks_list(count: nat)
    requires
        count <= usize::MAX,
    ensures
        lists(decoder_blocks_loaded(count), |t: VocoderTensor| in_decoder_blocks(t, count)),
        lists(decoder_blocks_uploaded(count), |t: VocoderTensor| in_decoder_blocks(t, count)),
    decreases count,
{
    let goal = |t: VocoderTensor| in_decoder_blocks(t, count);
    if count == 0 {
        assert(lists(decoder_blocks_loaded(0), goal));
        assert(lists(decoder_blocks_uploaded(0), goal));
    } else {
        let below = (count - 1) as nat;
        let b = count as usize;
        lemma_decoder_blocks_list(below);
        lemma_residuals_lists(b);
        lemma_decoder_frame_lists(b);
        let p = |t: VocoderTensor|
            t matches VocoderTensor::Residual(k, l, _) && k == b && 2 <= l <= 4;
        let q = |t: VocoderTensor| t matches VocoderTensor::Decoder(k, _) && k == b;
        let before = |t: VocoderTensor| in_decoder_blocks(t, below);
        lemma_lists_concat(residuals(b), decoder_frame(b), p, q);
        let pq = |t: VocoderTensor| p(t) || q(t);
        lemma_lists_concat(decoder_blocks_loaded(below), residuals(b) + decoder_frame(b), before, pq);
        lemma_lists_as(decoder_blocks_loaded(count), |t: VocoderTensor| before(t) || pq(t), goal);
        lemma_lists_concat(decoder_frame(b), residuals(b), q, p);
        let qp = |t: VocoderTensor| q(t) || p(t);
        lemma_lists_concat(
            decoder_blocks_uploaded(below),
            decoder_frame(b) + residuals(b),
            before,
            qp,
        );
        lemma_lists_as(decoder_blocks_uploaded(count), |t: VocoderTensor| before(t) || qp(t), goal);
    }
}

/// Every tensor of the vocoder is looked up exactly once, and no other tensor is.
pub proof fn lemma_load_sequence_lists(rest: nat, count: nat)
    requires
        rest <= usize::MAX,
        count <= usize::MAX,
    ensures
        lists(load_sequence(rest, count), |t: VocoderTensor| belongs(t, rest, count)),
{
    let head = |t: VocoderTensor|
        t == VocoderTensor::VqFirstOutputProj || t == VocoderTensor::VqFirstCodebook || t
            == VocoderTensor::VqFirstUsage || t == VocoderTensor::VqRestOutputProj;
    let quant = |t: VocoderTensor|
        match t {
            VocoderTensor::VqRestCodebook(k) | VocoderTensor::VqRestUsage(k) => k < rest,
            _ => false,
        };
    let pre = |t: VocoderTensor|
        t == VocoderTensor::PreConvW || t == VocoderTensor::PreConvB || t
            == VocoderTensor::PreTfmInputProjW || t == VocoderTensor::PreTfmInputProjB || t
            == VocoderTensor::PreTfmNormW || t == VocoderTensor::PreTfmOutputProjW || t
            == VocoderTensor::PreTfmOutputProjB;
    let lay = |t: VocoderTensor| t matches VocoderTensor::Layer(k, _) && k < count;
    let up0 = |t: VocoderTensor| t matches VocoderTensor::Upsample(k, _) && k == 0;
    let up1 = |t: VocoderTensor| t matches VocoderTensor::Upsample(k, _) && k == 1;
    let entry = |t: VocoderTensor| t == VocoderTensor::Dec0ConvW || t == VocoderTensor::Dec0ConvB;
    let blocks = |t: VocoderTensor| in_decoder_blocks(t, 4);
    let exit = |t: VocoderTensor|
        t == VocoderTensor::Dec5SnakeAlpha || t == VocoderTensor::Dec5SnakeBeta || t
            == VocoderTensor::Dec6ConvW || t == VocoderTensor::Dec6ConvB;
    lemma_quantiser_head_lists();
    lemma_quantiser_rest_lists(rest);
    lemma_pre_stage_lists();
    lemma_layers_lists(count);
    lemma_upsample_lists(0);
    lemma_upsample_lists(1);
    lemma_decoder_entry_lists();
    lemma_decoder_blocks_list(4);
    lemma_decoder_exit_lists();
    let s1 = quantiser_head() + quantiser_rest(rest);
    let p1 = |t: VocoderTensor| head(t) || quant(t);
    lemma_lists_concat(quantiser_head(), quantiser_rest(rest), head, quant);
    let s2 = s1 + pre_stage();
    let p2 = |t: VocoderTensor| p1(t) || pre(t);
    lemma_lists_concat(s1, pre_stage(), p1, pre);
    let s3 = s2 + layers(count);
    let p3 = |t: VocoderTensor| p2(t) || lay(t);
    lemma_lists_concat(s2, layers(count), p2, lay);
    let s4 = s3 + upsample(0);
    let p4 = |t: VocoderTensor| p3(t) || up0(t);
    lemma_lists_concat(s3, upsample(0), p3, up0);
    let s5 = s4 + upsample(1);
    let p5 = |t: VocoderTensor| p4(t) || up1(t);
    lemma_lists_concat(s4, upsample(1), p4, up1);
    let s6 = s5 + decoder_entry();
    let p6 = |t: VocoderTensor| p5(t) || entry(t);
    lemma_lists_concat(s5, decoder_entry(), p5, entry);
    let s7 = s6 + decoder_blocks_loaded(4);
    let p7 = |t: VocoderTensor| p6(t) || blocks(t);
    lemma_lists_concat(s6, decoder_blocks_loaded(4), p6, blocks);
    let p8 = |t: VocoderTensor| p7(t) || exit(t);
    lemma_lists_concat(s7, decoder_exit(), p7, exit);
    lemma_lists_as(
        load_sequence(rest, count),
        p8,
        |t: VocoderTensor| belongs(t, rest, count),
    );
}

/// Every tensor of the vocoder is uploaded exactly once, and no other tensor is.
pub proof fn lemma_upload_sequence_lists(rest: nat, count: nat)
    requires
        rest <= usize::MAX,
        count <= usize::MAX,
    ensures
        lists(upload_sequence(rest, count), |t: VocoderTensor| belongs(t, rest, count)),
{
    let head = |t: VocoderTensor|
        t == VocoderTensor::VqFirstOutputProj || t == VocoderTensor::VqFirstCodebook || t
            == VocoderTensor::VqFirstUsage || t == VocoderTensor::VqRestOutputProj;
    let quant = |t: VocoderTensor|
        match t {
            VocoderTensor::VqRestCodebook(k) | VocoderTensor::VqRestUsage(k) => k < rest,
            _ => false,
        };
    let pre = |t: VocoderTensor|
        t == VocoderTensor::PreConvW || t == VocoderTensor::PreConvB || t
            == VocoderTensor::PreTfmInputProjW || t == VocoderTensor::PreTfmInputProjB || t
            == VocoderTensor::PreTfmNormW || t == VocoderTensor::PreTfmOutputProjW || t
            == VocoderTensor::PreTfmOutputProjB;
    let lay = |t: VocoderTensor| t matches VocoderTensor::Layer(k, _) && k < count;
    let up0 = |t: VocoderTensor| t matches VocoderTensor::Upsample(k, _) && k == 0;
    let up1 = |t: VocoderTensor| t matches VocoderTensor::Upsample(k, _) && k == 1;
    let entry = |t: VocoderTensor| t == VocoderTensor::Dec0ConvW || t == VocoderTensor::Dec0ConvB;
    let blocks = |t: VocoderTensor| in_decoder_blocks(t, 4);
    let exit = |t: VocoderTensor|
        t == VocoderTensor::Dec5SnakeAlpha || t == VocoderTensor::Dec5SnakeBeta || t
            == VocoderTensor::Dec6ConvW || t == VocoderTensor::Dec6ConvB;
    lemma_quantiser_head_lists();
    lemma_quantiser_rest_lists(rest);
    lemma_pre_stage_lists();
    lemma_layers_lists(count);
    lemma_upsample_lists(0);
    lemma_upsample_lists(1);
    lemma_decoder_entry_lists();
    lemma_decoder_blocks_list(4);
    lemma_decoder_exit_lists();
    let s1 = quantiser_head() + pre_stage();
    let p1 = |t: VocoderTensor| head(t) || pre(t);
    lemma_lists_concat(quantiser_head(), pre_stage(), head, pre);
    let s2 = s1 + decoder_entry();
    let p2 = |t: VocoderTensor| p1(t) || entry(t);
    lemma_lists_concat(s1, decoder_entry(), p1, entry);
    let s3 = s2 + decoder_exit();
    let p3 = |t: VocoderTensor| p2(t) || exit(t);
    lemma_lists_concat(s2, decoder_exit(), p2, exit);
    let s4 = s3 + quantiser_rest(rest);
    let p4 = |t: VocoderTensor| p3(t) || quant(t);
    lemma_lists_concat(s3, quantiser_rest(rest), p3, quant);
    let s5 = s4 + layers(count);
    let p5 = |t: VocoderTensor| p4(t) || lay(t);
    lemma_lists_concat(s4, layers(count), p4, lay);
    let s6 = s5 + upsample(0);
    let p6 = |t: VocoderTensor| p5(t) || up0(t);
    lemma_lists_concat(s5, upsample(0), p5, up0);
    let s7 = s6 + upsample(1);
    let p7 = |t: VocoderTensor| p6(t) || up1(t);
    lemma_lists_concat(s6, upsample(1), p6, up1);
    let p8 = |t: VocoderTensor| p7(t) || blocks(t);
    lemma_lists_concat(s7, decoder_blocks_uploaded(4), p7, blocks);
    lemma_lists_as(
        upload_sequence(rest, count),
        p8,
        |t: VocoderTensor| belongs(t, rest, count),
    );
}

fn push_quantiser_head(list: &mut Vec<VocoderTensor>)
    ensures
        final(list)@ == old(list)@ + quantiser_head(),
{
    list.push(VocoderTensor::VqFirstOutputProj);
    list.push(VocoderTensor::VqFirstCodebook);
    list.push(VocoderTensor::VqFirstUsage);
    list.push(VocoderTensor::VqRestOutputProj);
    assert(list@ == old(list)@ + quantiser_head());
}

fn push_pre_stage(list: &mut Vec<VocoderTensor>)
    ensures
        final(list)@ == old(list)@ + pre_stage(),
{
    list.push(VocoderTensor::PreConvW);
    list.push(VocoderTensor::PreConvB);
    list.push(VocoderTensor::PreTfmInputProjW);
    list.push(VocoderTensor::PreTfmInputProjB);
    list.push(VocoderTensor::PreTfmNormW);
    list.push(VocoderTensor::PreTfmOutputProjW);
    list.push(VocoderTensor::PreTfmOutputProjB);
    assert(list@ == old(list)@ + pre_stage());
}

fn push_layer(list: &mut Vec<VocoderTensor>, i: usize)
    ensures
        final(list)@ == old(list)@ + layer(i),
{
    list.push(VocoderTensor::Layer(i, LayerTensor::AttnNorm));
    list.push(VocoderTensor::Layer(i, LayerTensor::AttnQ));
    list.push(VocoderTensor::Layer(i, LayerTensor::AttnK));
    list.push(VocoderTensor::Layer(i, LayerTensor::AttnV));
    list.push(VocoderTensor::Layer(i, LayerTensor::AttnOutput));
    list.push(VocoderTensor::Layer(i, LayerTensor::AttnScale));
    list.push(VocoderTensor::Layer(i, LayerTensor::FfnNorm));
    list.push(VocoderTensor::Layer(i, LayerTensor::FfnGate));
    list.push(VocoderTensor::Layer(i, LayerTensor::FfnUp));
    list.push(VocoderTensor::Layer(i, LayerTensor::FfnDown));
    list.push(VocoderTensor::Layer(i, LayerTensor::FfnScale));
    assert(list@ == old(list)@ + layer(i));
}

fn push_upsample(list: &mut Vec<VocoderTensor>, i: usize)
    ensures
        final(list)@ == old(list)@ + upsample(i),
{
    list.push(VocoderTensor::Upsample(i, UpsampleTensor::ConvW));
    list.push(VocoderTensor::Upsample(i, UpsampleTensor::ConvB));
    list.push(VocoderTensor::Upsample(i, UpsampleTensor::DwconvW));
    list.push(VocoderTensor::Upsample(i, UpsampleTensor::DwconvB));
    list.push(VocoderTensor::Upsample(i, UpsampleTensor::NormW));
    list.push(VocoderTensor::Upsample(i, UpsampleTensor::NormB));
    list.push(VocoderTensor::Upsample(i, UpsampleTensor::Pwconv1W));
    list.push(VocoderTensor::Upsample(i, UpsampleTensor::Pwconv1B));
    list.push(VocoderTensor::Upsample(i, UpsampleTensor::Pwconv2W));
    list.push(VocoderTensor::Upsample(i, UpsampleTensor::Pwconv2B));
    list.push(VocoderTensor::Upsample(i, UpsampleTensor::Gamma));
    assert(list@ == old(list)@ + upsample(i));
}

fn push_decoder_entry(list: &mut Vec<VocoderTensor>)
    ensures
        final(list)@ == old(list)@ + decoder_entry(),
{
    list.push(VocoderTensor::Dec0ConvW);
    list.push(VocoderTensor::Dec0ConvB);
    assert(list@ == old(list)@ + decoder_entry());
}

fn push_residual(list: &mut Vec<VocoderTensor>, block: usize, unit: usize)
    ensures
        final(list)@ == old(list)@ + residual(block, unit),
{
    list.push(VocoderTensor::Residual(block, unit, ResidualTensor::Act1Alpha));
    list.push(VocoderTensor::Residual(block, unit, ResidualTensor::Act1Beta));
    list.push(VocoderTensor::Residual(block, unit, ResidualTensor::Conv1W));
    list.push(VocoderTensor::Residual(block, unit, ResidualTensor::Conv1B));
    list.push(VocoderTensor::Residual(block, unit, ResidualTensor::Act2Alpha));
    list.push(VocoderTensor::Residual(block, unit, ResidualTensor::Act2Beta));
    list.push(VocoderTensor::Residual(block, unit, ResidualTensor::Conv2W));
    list.push(VocoderTensor::Residual(block, unit, ResidualTensor::Conv2B));
    assert(list@ == old(list)@ + residual(block, unit));
}

fn push_decoder_frame(list: &mut Vec<VocoderTensor>, block: usize)
    ensures
        final(list)@ == old(list)@ + decoder_frame(block),
{
    list.push(VocoderTensor::Decoder(block, DecoderTensor::SnakeAlpha));
    list.push(VocoderTensor::Decoder(block, DecoderTensor::SnakeBeta));
    list.push(VocoderTensor::Decoder(block, DecoderTensor::ConvTW));
    list.push(VocoderTensor::Decoder(block, DecoderTensor::ConvTB));
    assert(list@ == old(list)@ + decoder_frame(block));
}

fn push_decoder_exit(list: &mut Vec<VocoderTensor>)
    ensures
        final(list)@ == old(list)@ + decoder_exit(),
{
    list.push(VocoderTensor::Dec5SnakeAlpha);
    list.push(VocoderTensor::Dec5SnakeBeta);
    list.push(VocoderTensor::Dec6ConvW);
    list.push(VocoderTensor::Dec6ConvB);
    assert(list@ == old(list)@ + decoder_exit());
}

fn push_quantiser_rest(list: &mut Vec<VocoderTensor>, rest: usize)
    ensures
        final(list)@ == old(list)@ + quantiser_rest(rest as nat),
{
    let ghost before = list@;
    let mut i: usize = 0;
    assert(list@ == before + quantiser_rest(0));
    while i < rest
        invariant
            i <= rest,
            list@ == before + quantiser_rest(i as nat),
        decreases rest - i,
    {
        list.push(VocoderTensor::VqRestCodebook(i));
        list.push(VocoderTensor::VqRestUsage(i));
        i += 1;
        assert(list@ == before + quantiser_rest(i as nat));
    }
}

fn push_layers(list: &mut Vec<VocoderTensor>, count: usize)
    ensures
        final(list)@ == old(list)@ + layers(count as nat),
{
    let ghost before = list@;
    let mut i: usize = 0;
    assert(list@ == before + layers(0));
    while i < count
        invariant
            i <= count,
            list@ == before + layers(i as nat),
        decreases count - i,
    {
        push_layer(list, i);
        i += 1;
        assert(list@ == before + layers(i as nat));
    }
}

fn push_residuals(list: &mut Vec<VocoderTensor>, block: usize)
    ensures
        final(list)@ == old(list)@ + residuals(block),
{
    push_residual(list, block, 2);
    push_residual(list, block, 3);
    push_residual(list, block, 4);
    assert(list@ == old(list)@ + residuals(block));
}

/// The order in which the tensors are looked up.
pub fn load_order(rest: usize, count: usize) -> (list: Vec<VocoderTensor>)
    ensures
        list@ == load_sequence(rest as nat, count as nat),
{
    let mut list: Vec<VocoderTensor> = Vec::new();
    push_quantiser_head(&mut list);
    push_quantiser_rest(&mut list, rest);
    push_pre_stage(&mut list);
    push_layers(&mut list, count);
    push_upsample(&mut list, 0);
    push_upsample(&mut list, 1);
    push_decoder_entry(&mut list);
    let ghost before = list@;
    let mut block: usize = 0;
    assert(list@ == before + decoder_blocks_loaded(0));
    while block < 4
        invariant
            block <= 4,
            list@ == before + decoder_blocks_loaded(block as nat),
        decreases 4 - block,
    {
        block += 1;
        push_residuals(&mut list, block);
        push_decoder_frame(&mut list, block);
        assert(list@ == before + decoder_blocks_loaded(block as nat));
    }
    push_decoder_exit(&mut list);
    assert(list@ == load_sequence(rest as nat, count as nat));
    list
}

/// The order in which the tensors' contents are uploaded, were all of them there.
pub fn upload_order(rest: usize, count: usize) -> (list: Vec<VocoderTensor>)
    ensures
        list@ == upload_sequence(rest as nat, count as nat),
{
    let mut list: Vec<VocoderTensor> = Vec::new();
    push_quantiser_head(&mut list);
    push_pre_stage(&mut list);
    push_decoder_entry(&mut list);
    push_decoder_exit(&mut list);
    push_quantiser_rest(&mut list, rest);
    push_layers(&mut list, count);
    push_upsample(&mut list, 0);
    push_upsample(&mut list, 1);
    let ghost before = list@;
    let mut block: usize = 0;
    assert(list@ == before + decoder_blocks_uploaded(0));
    while block < 4
        invariant
            block <= 4,
            list@ == before + decoder_blocks_uploaded(block as nat),
        decreases 4 - block,
    {
        block += 1;
        push_decoder_frame(&mut list, block);
        push_residuals(&mut list, block);
        assert(list@ == before + decoder_blocks_uploaded(block as nat));
    }
    assert(list@ == upload_sequence(rest as nat, count as nat));
    list
}

/// The number of tensors for which the vocoder reserves metadata.
pub const METADATA_TENSORS: usize = 320;

/// How many tensors the vocoder looks up.
pub proof fn lemma_load_sequence_len(rest: nat, count: nat)
    ensures
        load_sequence(rest, count).len() == 151 + 2 * rest + 11 * count,
{
    lemma_quantiser_rest_len(rest);
    lemma_layers_len(count);
    reveal_with_fuel(decoder_blocks_loaded, 5);
}

proof fn lemma_quantiser_rest_len(rest: nat)
    ensures
        quantiser_rest(rest).len() == 2 * rest,
    decreases rest,
{
    if rest > 0 {
        lemma_quantiser_rest_len((rest - 1) as nat);
    }
}

proof fn lemma_layers_len(count: nat)
    ensures
        layers(count).len() == 11 * count,
    decreases count,
{
    if count > 0 {
        lemma_layers_len((count - 1) as nat);
    }
}

/// The tensors of the published checkpoints fit in the reserved metadata.
pub proof fn lemma_published_tensors_fit()
    ensures
        ({
            let config = VocoderConfig::published();
            load_sequence((config.n_codebooks - 1) as nat, config.n_pre_tfm_layers as nat).len()
                <= METADATA_TENSORS
        }),
{
    lemma_load_sequence_len(15, 8);
}

/// What came of looking a tensor up in the model file and allocating it.
pub enum TensorOutcome {
    /// The tensor was found and allocated.
    Ready,
    /// The look-up was refused.
    Failed(Qwen3TtsError),
    /// The tensor was found, and could not be allocated.
    Unallocated,
}

/// The error that a look-up's outcome amounts to. A tensor that the vocoder works without may be
/// missing.
pub open spec fn fault(t: VocoderTensor, outcome: TensorOutcome) -> Option<ErrorModel> {
    match outcome {
        TensorOutcome::Ready => None,
        TensorOutcome::Failed(e) => if t.optional() && e is MissingTensor {
            None
        } else {
            Some(e@)
        },
        TensorOutcome::Unallocated => Some(ErrorModel::InvalidTensor(t.spec_name())),
    }
}

/// Whether some outcomes settle a load: there is one for each tensor of the load order, or they stop
/// early and one of them amounts to an error.
pub open spec fn settled(order: Seq<VocoderTensor>, outcomes: Seq<TensorOutcome>) -> bool {
    &&& outcomes.len() <= order.len()
    &&& outcomes.len() < order.len() ==> exists|i: int|
        0 <= i < outcomes.len() && fault(#[trigger] order[i], outcomes[i]) is Some
}

/// The tensors whose look-ups ended well, in order.
pub open spec fn ready(order: Seq<VocoderTensor>, outcomes: Seq<TensorOutcome>) -> Seq<
    VocoderTensor,
>
    decreases order.len(),
{
    if order.len() == 0 {
        Seq::empty()
    } else {
        let before = ready(order.drop_last(), outcomes.drop_last());
        if outcomes.last() is Ready {
            before.push(order.last())
        } else {
            before
        }
    }
}

/// Decides what a look-up's outcome means for the vocoder: whether the tensor is there, or why
/// loading ends.
pub fn admit_tensor(t: VocoderTensor, outcome: &TensorOutcome) -> (r: Result<bool, Qwen3TtsError>)
    ensures
        match r {
            Ok(there) => fault(t, *outcome) is None && there == (*outcome is Ready),
            Err(e) => fault(t, *outcome) == Some(e@),
        },
{
    match outcome {
        TensorOutcome::Ready => Ok(true),
        TensorOutcome::Failed(e) => {
            let missing = match e {
                Qwen3TtsError::MissingTensor(_) => true,
                _ => false,
            };
            if missing && t.is_optional() {
                Ok(false)
            } else {
                Err(e.copied())
            }
        },
        TensorOutcome::Unallocated => Err(Qwen3TtsError::InvalidTensor(t.name())),
    }
}

/// The loaded tensors of a vocoder.
pub struct VocoderWeights {
    /// The number of codebooks after the first one.
    pub rest: usize,
    /// The number of transformer layers.
    pub count: usize,
    /// The loaded tensors, in the order in which they were looked up.
    pub loaded: Vec<VocoderTensor>,
}

impl VocoderWeights {
    /// Only the vocoder's own tensors are loaded, each once, and all that it cannot do without.
    pub open spec fn wf(self) -> bool {
        &&& self.loaded@.no_duplicates()
        &&& forall|t: VocoderTensor|
            self.loaded@.contains(t) ==> belongs(t, self.rest as nat, self.count as nat)
        &&& forall|t: VocoderTensor|
            #![trigger self.loaded@.contains(t)]
            belongs(t, self.rest as nat, self.count as nat) && !t.optional()
                ==> self.loaded@.contains(t)
    }

    /// Whether a tensor is loaded.
    pub open spec fn holds(self, t: VocoderTensor) -> bool {
        self.loaded@.contains(t)
    }

    /// The vocoder's tensors, given what came of the look-ups of the load order. The first outcome
    /// that amounts to an error ends the loading with it, and no look-up behind it is needed.
    pub fn load(config: &VocoderConfig, outcomes: &Vec<TensorOutcome>) -> (r: Result<
        VocoderWeights,
        Qwen3TtsError,
    >)
        requires
            config.countable(),
            settled(
                load_sequence((config.n_codebooks - 1) as nat, config.n_pre_tfm_layers as nat),
                outcomes@,
            ),
        ensures
            ({
                let order = load_sequence(
                    (config.n_codebooks - 1) as nat,
                    config.n_pre_tfm_layers as nat,
                );
                match r {
                    Ok(w) => {
                        &&& outcomes@.len() == order.len()
                        &&& forall|i: int|
                            0 <= i < order.len() ==> fault(#[trigger] order[i], outcomes@[i]) is None
                        &&& w.rest == config.n_codebooks - 1
                        &&& w.count == config.n_pre_tfm_layers
                        &&& w.loaded@ == ready(order, outcomes@)
                        &&& w.wf()
                    },
                    Err(e) => exists|i: int|
                        {
                            &&& 0 <= i < outcomes@.len()
                            &&& fault(#[trigger] order[i], outcomes@[i]) == Some(e@)
                            &&& forall|j: int|
                                0 <= j < i ==> fault(#[trigger] order[j], outcomes@[j]) is None
                        },
                }
            }),
    {
        let rest: usize = (config.n_codebooks - 1) as usize;
        let count: usize = config.n_pre_tfm_layers as usize;
        let order = load_order(rest, count);
        let mut loaded: Vec<VocoderTensor> = Vec::new();
        let mut i: usize = 0;
        while i < order.len()
            invariant
                i <= order@.len(),
                order@ == load_sequence(rest as nat, count as nat),
                settled(order@, outcomes@),
                rest == config.n_codebooks - 1,
                count == config.n_pre_tfm_layers,
                forall|j: int| 0 <= j < i ==> fault(#[trigger] order@[j], outcomes@[j]) is None,
                loaded@ == ready(order@.take(i as int), outcomes@.take(i as int)),
            decreases order@.len() - i,
        {
            assert(i < outcomes@.len()) by {
                if outcomes@.len() < order@.len() {
                    let k = choose|k: int|
                        0 <= k < outcomes@.len() && fault(#[trigger] order@[k], outcomes@[k]) is Some;
                    assert(!(k < i));
                }
            }
            match admit_tensor(order[i], &outcomes[i]) {
                Ok(there) => {
                    assert(order@.take(i + 1).drop_last() == order@.take(i as int));
                    assert(outcomes@.take(i + 1).drop_last() == outcomes@.take(i as int));
                    if there {
                        loaded.push(order[i]);
                    }
                },
                Err(e) => {
                    assert(fault(order@[i as int], outcomes@[i as int]) == Some(e@));
                    return Err(e);
                },
            }
            i += 1;
        }
        assert(order@.take(i as int) == order@);
        assert(outcomes@.len() == order@.len()) by {
            if outcomes@.len() < order@.len() {
                let k = choose|k: int|
                    0 <= k < outcomes@.len() && fault(#[trigger] order@[k], outcomes@[k]) is Some;
                assert(!(k < i));
            }
        }
        assert(outcomes@.take(i as int) == outcomes@);
        proof {
            lemma_load_sequence_lists(rest as nat, count as nat);
            lemma_ready(order@, outcomes@);
            assert forall|t: VocoderTensor|
                #![trigger loaded@.contains(t)]
                belongs(t, rest as nat, count as nat) && !t.optional() implies loaded@.contains(
                t,
            ) by {
                assert(order@.contains(t));
                let k = choose|k: int| 0 <= k < order@.len() && order@[k] == t;
                assert(fault(order@[k], outcomes@[k]) is None);
                assert(outcomes@[k] is Ready);
            }
            assert forall|t: VocoderTensor| loaded@.contains(t) implies belongs(
                t,
                rest as nat,
                count as nat,
            ) by {
                assert(order@.contains(t));
            }
        }
        Ok(VocoderWeights { rest, count, loaded })
    }

    /// Whether a tensor is loaded.
    pub fn has(&self, t: VocoderTensor) -> (r: bool)
        ensures
            r == self.holds(t),
    {
        let mut i: usize = 0;
        while i < self.loaded.len()
            invariant
                i <= self.loaded@.len(),
                forall|j: int| 0 <= j < i ==> self.loaded@[j] != t,
            decreases self.loaded@.len() - i,
        {
            if self.loaded[i] == t {
                assert(self.loaded@[i as int] == t);
                return true;
            }
            i += 1;
        }
        false
    }

    /// The loaded tensors in the order in which their contents are uploaded: each exactly once.
    pub fn uploads(&self) -> (list: Vec<VocoderTensor>)
        requires
            self.wf(),
        ensures
            list@ == upload_sequence(self.rest as nat, self.count as nat).filter(
                |t: VocoderTensor| self.holds(t),
            ),
            lists(list@, |t: VocoderTensor| self.holds(t)),
    {
        let order = upload_order(self.rest, self.count);
        let ghost keep = |t: VocoderTensor| self.holds(t);
        let mut list: Vec<VocoderTensor> = Vec::new();
        let mut i: usize = 0;
        proof {
            reveal(Seq::filter);
        }
        while i < order.len()
            invariant
                i <= order@.len(),
                keep == (|t: VocoderTensor| self.holds(t)),
                list@ == order@.take(i as int).filter(keep),
            decreases order@.len() - i,
        {
            proof {
                reveal(Seq::filter);
                assert(order@.take(i + 1).drop_last() == order@.take(i as int));
            }
            if self.has(order[i]) {
                list.push(order[i]);
            }
            i += 1;
        }
        assert(order@.take(i as int) == order@);
        proof {
            lemma_upload_sequence_lists(self.rest as nat, self.count as nat);
            lemma_filter_lists(
                order@,
                |t: VocoderTensor| belongs(t, self.rest as nat, self.count as nat),
                keep,
            );
            lemma_lists_as(
                list@,
                |t: VocoderTensor|
                    belongs(t, self.rest as nat, self.count as nat) && keep(t),
                keep,
            );
        }
        list
    }
}

proof fn lemma_ready(order: Seq<VocoderTensor>, outcomes: Seq<TensorOutcome>)
    requires
        order.len() == outcomes.len(),
        order.no_duplicates(),
    ensures
        ready(order, outcomes).no_duplicates(),
        forall|t: VocoderTensor|
            ready(order, outcomes).contains(t) ==> #[trigger] order.contains(t),
        forall|i: int|
            #![trigger order[i]]
            0 <= i < order.len() && outcomes[i] is Ready ==> ready(order, outcomes).contains(order[i]),
    decreases order.len(),
{
    if order.len() > 0 {
        let o = order.drop_last();
        let c = outcomes.drop_last();
        let before = ready(o, c);
        let after = ready(order, outcomes);
        lemma_ready(o, c);
        assert forall|t: VocoderTensor| after.contains(t) implies #[trigger] order.contains(t) by {
            let k = choose|k: int| 0 <= k < after.len() && after[k] == t;
            if k < before.len() {
                assert(before.contains(t));
                assert(o.contains(t));
                let l = choose|l: int| 0 <= l < o.len() && o[l] == t;
                assert(order[l] == t);
            } else {
                assert(order[order.len() - 1] == t);
            }
        }
        assert(after.no_duplicates()) by {
            if outcomes.last() is Ready {
                assert forall|k: int| 0 <= k < before.len() implies before[k] != order.last() by {
                    assert(before.contains(before[k]));
                    assert(o.contains(before[k]));
                    let l = choose|l: int| 0 <= l < o.len() && o[l] == before[k];
                    assert(order[l] == before[k]);
                }
            }
        }
        assert forall|i: int|
            #![trigger order[i]]
            0 <= i < order.len() && outcomes[i] is Ready implies after.contains(order[i]) by {
            if i < o.len() {
                assert(o[i] == order[i]);
                assert(before.contains(o[i]));
                let l = choose|l: int| 0 <= l < before.len() && before[l] == o[i];
                assert(after[l] == order[i]);
            } else {
                assert(after[after.len() - 1] == order[i]);
            }
        }
    }
}

proof fn lemma_filter_lists(
    s: Seq<VocoderTensor>,
    p: spec_fn(VocoderTensor) -> bool,
    keep: spec_fn(VocoderTensor) -> bool,
)
    requires
        lists(s, p),
    ensures
        lists(s.filter(keep), |t: VocoderTensor| p(t) && keep(t)),
{
    lemma_filter_distinct(s, keep);
    let f = s.filter(keep);
    assert forall|t: VocoderTensor| #[trigger] f.contains(t) <==> (p(t) && keep(t)) by {
        if f.contains(t) {
            let k = choose|k: int| 0 <= k < f.len() && f[k] == t;
            s.lemma_filter_pred(keep, k);
            s.lemma_filter_contains_rev(keep, t);
        }
        if p(t) && keep(t) {
            assert(s.contains(t));
            let k = choose|k: int| 0 <= k < s.len() && s[k] == t;
            s.lemma_filter_contains(keep, k);
        }
    }
}

proof fn lemma_filter_distinct(s: Seq<VocoderTensor>, keep: spec_fn(VocoderTensor) -> bool)
    requires
        s.no_duplicates(),
    ensures
        s.filter(keep).no_duplicates(),
    decreases s.len(),
{
    reveal(Seq::filter);
    if s.len() > 0 {
        let o = s.drop_last();
        lemma_filter_distinct(o, keep);
        assert forall|k: int| 0 <= k < o.filter(keep).len() implies o.filter(keep)[k]
            != s.last() by {
            let t = o.filter(keep)[k];
            assert(o.filter(keep).contains(t));
            o.lemma_filter_contains_rev(keep, t);
            let l = choose|l: int| 0 <= l < o.len() && o[l] == t;
            assert(s[l] == t);
        }
    }
}

impl Vocoder {
    /// The vocoder of the given dimensions, given what came of each look-up of the load order.
    pub fn load_from_gguf(config: VocoderConfig, outcomes: &Vec<TensorOutcome>) -> (r: Result<
        Vocoder,
        Qwen3TtsError,
    >)
        requires
            config.countable(),
            settled(
                load_sequence((config.n_codebooks - 1) as nat, config.n_pre_tfm_layers as nat),
                outcomes@,
            ),
        ensures
            ({
                let order = load_sequence(
                    (config.n_codebooks - 1) as nat,
                    config.n_pre_tfm_layers as nat,
                );
                match r {
                    Ok(v) => {
                        &&& outcomes@.len() == order.len()
                        &&& forall|i: int|
                            0 <= i < order.len() ==> fault(#[trigger] order[i], outcomes@[i]) is None
                        &&& v.config == config
                        &&& v.weights.rest == config.n_codebooks - 1
                        &&& v.weights.count == config.n_pre_tfm_layers
                        &&& v.weights.loaded@ == ready(order, outcomes@)
                        &&& v.weights.wf()
                    },
                    Err(e) => exists|i: int|
                        {
                            &&& 0 <= i < outcomes@.len()
                            &&& fault(#[trigger] order[i], outcomes@[i]) == Some(e@)
                            &&& forall|j: int|
                                0 <= j < i ==> fault(#[trigger] order[j], outcomes@[j]) is None
                        },
                }
            }),
    {
        match VocoderWeights::load(&config, outcomes) {
            Ok(weights) => Ok(Vocoder { config, weights }),
            Err(e) => Err(e),
        }
    }
}

} // verus!
