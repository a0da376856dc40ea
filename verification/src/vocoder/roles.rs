//! What each loaded tensor is for in the network.

use vstd::prelude::*;
#[allow(unused_imports)]
use crate::real32::Real32;
#[allow(unused_imports)]
use crate::vocoder::audio::published_dimensions;
#[allow(unused_imports)]
use crate::vocoder::config::VocoderConfig;
#[allow(unused_imports)]
use crate::vocoder::decode::{
    codebook_part, contextual, decoder_blocks, decoder_entry, decoder_exit, latent, layered,
    rest_parts, waveform, DecodePlan,
};
#[allow(unused_imports)]
use crate::vocoder::graph::{expr, Dim, Expr, Leaf, Op, Scalar};
#[allow(unused_imports)]
use crate::vocoder::network::{
    attended, attention_mix, attention_scores, biased_if_loaded, causal_conv,
    channel_biased_if_loaded, decoded, depthwise_if_loaded, fed_forward, gained_if_loaded, head_dim,
    headed, lengthened, mapped, normed_if_loaded, per_channel, plus, pointwise, residual_unit,
    rms_normed, rotated, scaled_if_loaded, snake, snake_if_loaded, swapped, times, transformed,
    upsampled, weight, Vocoder,
};
#[allow(unused_imports)]
use crate::vocoder::tensors::{
    DecoderTensor, LayerTensor, ResidualTensor, UpsampleTensor, VocoderTensor,
};
#[allow(unused_imports)]
use crate::vocoder::weights::VocoderWeights;

verus! {

/// The tensor that an expression is, where it is a loaded one.
pub open spec fn tensor_in(e: Expr) -> Option<VocoderTensor> {
    match e {
        Expr::Leaf(Leaf::Weight(t)) => Some(t),
        _ => None,
    }
}

/// The operation that an expression applies, where it applies one.
pub open spec fn op_in(e: Expr) -> Option<Op<Expr>> {
    match e {
        Expr::Apply(op) => Some(*op),
        _ => None,
    }
}

/// How many zeros an expression has in front.
pub open spec fn zeros_before(e: Expr) -> int {
    match op_in(e) {
        Some(Op::PadFront(_, n)) => n as int,
        _ => 0,
    }
}

/// The tensor behind an entry-wise operand: itself, or laid out for the channels.
pub open spec fn vector_in(e: Expr) -> Option<VocoderTensor> {
    match op_in(e) {
        Some(Op::Reshape3d(a, _, _, _)) => tensor_in(a),
        _ => tensor_in(e),
    }
}

/// The stride of the transposed convolution of a tensor.
pub open spec fn stride(t: Option<VocoderTensor>) -> int {
    match t {
        Some(VocoderTensor::Upsample(_, UpsampleTensor::ConvW)) => 2,
        Some(VocoderTensor::Decoder(block, DecoderTensor::ConvTW)) => if block == 1 {
            8
        } else if block == 2 {
            5
        } else if block == 3 {
            4
        } else {
            3
        },
        _ => 0,
    }
}

/// Whether a convolution is dilated by `dilation` and padded by `zeros` as its kernel has to be:
/// kernels of three and seven entries see as many entries before as they span, and those of the
/// three residual units of a block are spread by one, three and nine.
pub open spec fn convolves(t: Option<VocoderTensor>, zeros: int, dilation: int) -> bool {
    match t {
        Some(VocoderTensor::PreConvW) => zeros == 2 && dilation == 1,
        Some(VocoderTensor::Dec0ConvW) | Some(VocoderTensor::Dec6ConvW) => zeros == 6 && dilation
            == 1,
        Some(VocoderTensor::Residual(_, unit, ResidualTensor::Conv1W)) => if unit == 2 {
            zeros == 6 && dilation == 1
        } else if unit == 3 {
            zeros == 18 && dilation == 3
        } else {
            zeros == 54 && dilation == 9
        },
        Some(VocoderTensor::Residual(_, _, ResidualTensor::Conv2W)) => zeros == 0 && dilation == 1,
        _ => false,
    }
}

/// Whether a tensor is added.
pub open spec fn is_bias(t: VocoderTensor) -> bool {
    match t {
        VocoderTensor::PreConvB
        | VocoderTensor::PreTfmInputProjB
        | VocoderTensor::PreTfmOutputProjB
        | VocoderTensor::Dec0ConvB
        | VocoderTensor::Dec6ConvB => true,
        VocoderTensor::Upsample(_, UpsampleTensor::ConvB)
        | VocoderTensor::Upsample(_, UpsampleTensor::DwconvB)
        | VocoderTensor::Upsample(_, UpsampleTensor::NormB)
        | VocoderTensor::Upsample(_, UpsampleTensor::Pwconv1B)
        | VocoderTensor::Upsample(_, UpsampleTensor::Pwconv2B) => true,
        VocoderTensor::Residual(_, _, ResidualTensor::Conv1B)
        | VocoderTensor::Residual(_, _, ResidualTensor::Conv2B) => true,
        VocoderTensor::Decoder(_, DecoderTensor::ConvTB) => true,
        _ => false,
    }
}

/// Whether a tensor is multiplied by, entry by entry.
pub open spec fn is_gain(t: VocoderTensor) -> bool {
    match t {
        VocoderTensor::PreTfmNormW => true,
        VocoderTensor::Layer(_, LayerTensor::AttnNorm)
        | VocoderTensor::Layer(_, LayerTensor::FfnNorm)
        | VocoderTensor::Layer(_, LayerTensor::AttnScale)
        | VocoderTensor::Layer(_, LayerTensor::FfnScale) => true,
        VocoderTensor::Upsample(_, UpsampleTensor::NormW)
        | VocoderTensor::Upsample(_, UpsampleTensor::Gamma) => true,
        _ => false,
    }
}

/// The tensor that damps the activation whose rate is in another, where it is such a rate.
pub open spec fn damping_for(alpha: VocoderTensor) -> Option<VocoderTensor> {
    match alpha {
        VocoderTensor::Dec5SnakeAlpha => Some(VocoderTensor::Dec5SnakeBeta),
        VocoderTensor::Decoder(b, DecoderTensor::SnakeAlpha) => Some(
            VocoderTensor::Decoder(b, DecoderTensor::SnakeBeta),
        ),
        VocoderTensor::Residual(b, u, ResidualTensor::Act1Alpha) => Some(
            VocoderTensor::Residual(b, u, ResidualTensor::Act1Beta),
        ),
        VocoderTensor::Residual(b, u, ResidualTensor::Act2Alpha) => Some(
            VocoderTensor::Residual(b, u, ResidualTensor::Act2Beta),
        ),
        _ => None,
    }
}

/// The tensor whose exponential an expression is, laid out for the channels.
pub open spec fn rate_in(e: Expr) -> Option<VocoderTensor> {
    match op_in(e) {
        Some(Op::Reshape3d(a, _, _, _)) => match op_in(a) {
            Some(Op::Exp(x)) => tensor_in(x),
            _ => None,
        },
        _ => None,
    }
}

/// The tensor the exponential of whose negation an expression is, laid out for the channels.
pub open spec fn damping_in(e: Expr) -> Option<VocoderTensor> {
    match op_in(e) {
        Some(Op::Reshape3d(a, _, _, _)) => match op_in(a) {
            Some(Op::Exp(x)) => match op_in(x) {
                Some(Op::Scale(y, Scalar::MinusOne)) => tensor_in(y),
                _ => None,
            },
            _ => None,
        },
        _ => None,
    }
}

/// Whether the square of the sine of an expression is that of an activation of `x` by its rate.
pub open spec fn swings(e: Expr, x: Expr, alpha: VocoderTensor) -> bool {
    match op_in(e) {
        Some(Op::Sqr(sine)) => match op_in(sine) {
            Some(Op::Sin(scaled)) => match op_in(scaled) {
                Some(Op::Mul(y, rate)) => y == x && rate_in(rate) == Some(alpha),
                _ => false,
            },
            _ => false,
        },
        _ => false,
    }
}

/// Whether an expression is the swing of an activation of `x`, damped by the tensor that belongs to
/// its rate.
pub open spec fn damped_swing(e: Expr, x: Expr) -> bool {
    match op_in(e) {
        Some(Op::Mul(a, b)) => exists|alpha: VocoderTensor|
            #![trigger damping_for(alpha)]
            swings(a, x, alpha) && damping_for(alpha) is Some && damping_in(b) == damping_for(alpha),
        _ => false,
    }
}

/// Whether an expression is a swing.
pub open spec fn is_swing(e: Expr) -> bool {
    op_in(e) matches Some(Op::Mul(a, _)) && op_in(a) matches Some(Op::Sqr(_))
}

/// Whether an expression is a matrix of the transformer, the given one of layer `i`, applied.
pub open spec fn applies(e: Expr, t: VocoderTensor) -> bool {
    match op_in(e) {
        Some(Op::MulMat(a, _)) => tensor_in(a) == Some(t),
        _ => false,
    }
}

/// Whether an expression is gated by that of the same layer.
pub open spec fn gated_in(e: Expr, i: usize) -> bool {
    match op_in(e) {
        Some(Op::Mul(a, b)) => {
            &&& op_in(a) matches Some(Op::Silu(g)) && applies(
                g,
                VocoderTensor::Layer(i, LayerTensor::FfnGate),
            )
            &&& applies(b, VocoderTensor::Layer(i, LayerTensor::FfnUp))
        },
        _ => false,
    }
}

/// Whether an expression is what a matrix of layer `i` makes of the frames, head by head.
pub open spec fn heads_of(e: Expr, i: usize, part: LayerTensor) -> bool {
    op_in(e) matches Some(Op::Reshape3d(x, _, _, _)) && applies(x, VocoderTensor::Layer(i, part))
}

/// Whether an expression is what a matrix of layer `i` makes of the frames, rotated.
pub open spec fn rotated_heads_of(e: Expr, i: usize, part: LayerTensor) -> bool {
    op_in(e) matches Some(Op::Permute(r, 0, 2, 1, 3)) && op_in(r) matches Some(Op::Rope(h, _, _, _))
        && heads_of(h, i, part)
}

/// Whether an expression is how much the frames attend to those up to them in layer `i`: the keys
/// held against the queries, by the root of the size of a head, masked, and adding up to one.
pub open spec fn attends(e: Expr, i: usize) -> bool {
    &&& op_in(e) matches Some(Op::SoftMax(a))
    &&& op_in(a) matches Some(Op::DiagMaskInf(b))
    &&& op_in(b) matches Some(Op::Scale(m, Scalar::InverseRoot(n)))
    &&& n == 64
    &&& op_in(m) matches Some(Op::MulMat(k, q))
    &&& rotated_heads_of(k, i, LayerTensor::AttnK)
    &&& rotated_heads_of(q, i, LayerTensor::AttnQ)
}

/// Whether an expression is what the frames attend to in layer `i`: the values, by how much they
/// are attended to.
pub open spec fn mixes(e: Expr, i: usize) -> bool {
    &&& op_in(e) matches Some(Op::Cont2d(p, _, _))
    &&& op_in(p) matches Some(Op::Permute(m, 0, 2, 1, 3))
    &&& op_in(m) matches Some(Op::MulMat(v, scores))
    &&& attends(scores, i)
    &&& op_in(v) matches Some(Op::Cont(vt))
    &&& op_in(vt) matches Some(Op::Transpose(vp))
    &&& op_in(vp) matches Some(Op::Permute(h, 0, 2, 1, 3))
    &&& heads_of(h, i, LayerTensor::AttnV)
}

/// Whether an expression is normalised with the gains of layer `i`.
pub open spec fn normalised_by(e: Expr, t: VocoderTensor) -> bool {
    op_in(e) matches Some(Op::Mul(n, g)) && op_in(n) matches Some(Op::RmsNorm(_, _)) && tensor_in(g)
        == Some(t)
}

/// Whether a loaded matrix is applied to what it is for.
pub open spec fn maps(t: VocoderTensor, x: Expr) -> bool {
    match t {
        VocoderTensor::PreTfmInputProjW | VocoderTensor::PreTfmOutputProjW => true,
        VocoderTensor::Layer(i, LayerTensor::FfnDown) => gated_in(x, i),
        VocoderTensor::Layer(i, LayerTensor::AttnQ)
        | VocoderTensor::Layer(i, LayerTensor::AttnK)
        | VocoderTensor::Layer(i, LayerTensor::AttnV) => normalised_by(
            x,
            VocoderTensor::Layer(i, LayerTensor::AttnNorm),
        ),
        VocoderTensor::Layer(i, LayerTensor::FfnGate)
        | VocoderTensor::Layer(i, LayerTensor::FfnUp) => normalised_by(
            x,
            VocoderTensor::Layer(i, LayerTensor::FfnNorm),
        ),
        VocoderTensor::Layer(i, LayerTensor::AttnOutput) => mixes(x, i),
        VocoderTensor::Upsample(_, UpsampleTensor::Pwconv1W) => true,
        VocoderTensor::Upsample(_, UpsampleTensor::Pwconv2W) => op_in(x) is Some && op_in(
            x,
        )->0 is Gelu,
        _ => false,
    }
}

/// Whether a projection is applied to the entries of a codebook that it is for.
pub open spec fn projects(m: Expr, b: Expr) -> bool {
    &&& op_in(b) matches Some(Op::Reshape2d(rows, _, _))
    &&& op_in(rows) matches Some(Op::GetRows(table, _))
    &&& match tensor_in(table) {
        Some(VocoderTensor::VqFirstCodebook) => tensor_in(m) == Some(
            VocoderTensor::VqFirstOutputProj,
        ),
        Some(VocoderTensor::VqRestCodebook(_)) => tensor_in(m) == Some(
            VocoderTensor::VqRestOutputProj,
        ),
        _ => false,
    }
}

/// Whether an operation is one of the network's: its tensors are used for what they are, with the
/// numbers that belong to them.
pub open spec fn proper_op(op: Op<Expr>, c: VocoderConfig) -> bool {
    match op {
        Op::Conv1d(a, b, d) => convolves(tensor_in(a), zeros_before(b), d as int),
        Op::Conv1dDepthwise(a, b) => {
            &&& tensor_in(a) matches Some(VocoderTensor::Upsample(_, UpsampleTensor::DwconvW))
            &&& zeros_before(b) == 6
        },
        Op::ConvTranspose1d(a, _, n) => n > 0 && n == stride(tensor_in(a)),
        Op::Trim(_, b, n) => n > 0 && n == stride(tensor_in(b)),
        Op::GetRows(a, b) => match (tensor_in(a), b) {
            (Some(VocoderTensor::VqFirstCodebook), Expr::Leaf(Leaf::Codes(k))) => k == 0,
            (Some(VocoderTensor::VqRestCodebook(i)), Expr::Leaf(Leaf::Codes(k))) => k == i + 1,
            _ => false,
        },
        Op::MulMat(a, b) => {
            &&& tensor_in(a) matches Some(t) ==> maps(t, b)
            &&& op_in(a) matches Some(Op::Reshape2d(m, _, _)) ==> projects(m, b)
        },
        Op::Add(a, b) => {
            &&& vector_in(b) matches Some(t) ==> is_bias(t)
            &&& is_swing(b) ==> damped_swing(b, a)
        },
        Op::Mul(_, b) => vector_in(b) matches Some(t) ==> is_gain(t),
        Op::RmsNorm(_, eps) => eps == c.rms_norm_eps,
        Op::Norm(_, eps) => eps.bits == 0x3586_37bd,
        Op::Rope(_, p, n, theta) => p == Expr::Leaf(Leaf::Positions) && n == 64 && theta
            == c.rope_theta,
        Op::SoftMax(_) => exists|i: usize| #[trigger] attends(expr(op), i),
        Op::Exp(a) => tensor_in(a) is Some || op_in(a) is Some && op_in(a)->0 is Scale,
        _ => true,
    }
}

/// Whether all operations of an expression are the network's.
pub open spec fn proper(e: Expr, c: VocoderConfig) -> bool
    decreases e,
{
    match e {
        Expr::Leaf(_) => true,
        Expr::Apply(op) => proper_op(*op, c) && match *op {
            Op::Input(_) => true,
            Op::GetRows(a, b)
            | Op::MulMat(a, b)
            | Op::Add(a, b)
            | Op::Mul(a, b)
            | Op::Conv1d(a, b, _)
            | Op::Conv1dDepthwise(a, b)
            | Op::ConvTranspose1d(a, b, _)
            | Op::Rope(a, b, _, _)
            | Op::Trim(a, b, _) => proper(a, c) && proper(b, c),
            Op::Reshape1d(a, _)
            | Op::Reshape2d(a, _, _)
            | Op::Reshape3d(a, _, _, _)
            | Op::Transpose(a)
            | Op::Cont(a)
            | Op::Cont2d(a, _, _)
            | Op::PadFront(a, _)
            | Op::Permute(a, _, _, _, _)
            | Op::RmsNorm(a, _)
            | Op::Norm(a, _)
            | Op::Exp(a)
            | Op::Sin(a)
            | Op::Sqr(a)
            | Op::Scale(a, _)
            | Op::DiagMaskInf(a)
            | Op::SoftMax(a)
            | Op::Silu(a)
            | Op::Gelu(a)
            | Op::Tanh(a) => proper(a, c),
        },
    }
}

/// Whether the entries of a tensor go into an expression. The sizes of a tensor do not count.
pub open spec fn takes(e: Expr, t: VocoderTensor) -> bool
    decreases e,
{
    match e {
        Expr::Leaf(leaf) => leaf == Leaf::Weight(t),
        Expr::Apply(op) => match *op {
            Op::Input(leaf) => leaf == Leaf::Weight(t),
            Op::GetRows(a, b)
            | Op::MulMat(a, b)
            | Op::Add(a, b)
            | Op::Mul(a, b)
            | Op::Conv1d(a, b, _)
            | Op::Conv1dDepthwise(a, b)
            | Op::ConvTranspose1d(a, b, _)
            | Op::Rope(a, b, _, _) => takes(a, t) || takes(b, t),
            Op::Trim(a, _, _) => takes(a, t),
            Op::Reshape1d(a, _)
            | Op::Reshape2d(a, _, _)
            | Op::Reshape3d(a, _, _, _)
            | Op::Transpose(a)
            | Op::Cont(a)
            | Op::Cont2d(a, _, _)
            | Op::PadFront(a, _)
            | Op::Permute(a, _, _, _, _)
            | Op::RmsNorm(a, _)
            | Op::Norm(a, _)
            | Op::Exp(a)
            | Op::Sin(a)
            | Op::Sqr(a)
            | Op::Scale(a, _)
            | Op::DiagMaskInf(a)
            | Op::SoftMax(a)
            | Op::Silu(a)
            | Op::Gelu(a)
            | Op::Tanh(a) => takes(a, t),
        },
    }
}

/// Whether a tensor is among those of a checkpoint for the given weights.
pub open spec fn in_file(t: VocoderTensor, w: VocoderWeights) -> bool {
    match t {
        VocoderTensor::VqRestCodebook(i) | VocoderTensor::VqRestUsage(i) => i < w.rest,
        VocoderTensor::Layer(i, _) => i < w.count,
        VocoderTensor::Upsample(i, _) => i < 2,
        VocoderTensor::Residual(block, unit, _) => 1 <= block <= 4 && 2 <= unit <= 4,
        VocoderTensor::Decoder(block, _) => 1 <= block <= 4,
        _ => true,
    }
}

/// Whether all tensors of a checkpoint are loaded.
pub open spec fn complete(w: VocoderWeights) -> bool {
    forall|t: VocoderTensor| in_file(t, w) ==> #[trigger] w.holds(t)
}

/// Whether all operations of an expression are the network's, and a tensor goes into it where it
/// has to.
spec fn fine(e: Expr, c: VocoderConfig, t: VocoderTensor, need: bool) -> bool {
    proper(e, c) && (need ==> takes(e, t))
}

proof fn lemma_snake_fine(
    w: VocoderWeights,
    x: Expr,
    alpha: VocoderTensor,
    beta: VocoderTensor,
    c: VocoderConfig,
    t: VocoderTensor,
    need: bool,
)
    requires
        fine(x, c, t, need),
        damping_for(alpha) == Some(beta),
    ensures
        fine(
            snake_if_loaded(w, x, alpha, beta),
            c,
            t,
            need || w.holds(alpha) && w.holds(beta) && (t == alpha || t == beta),
        ),
{
    reveal(snake_if_loaded);
    reveal(snake);
    let channels = Dim::Extent(x, 1);
    assert(proper(weight(alpha), c) && takes(weight(alpha), alpha));
    assert(proper(weight(beta), c) && takes(weight(beta), beta));
    let e1 = expr(Op::Exp(weight(alpha)));
    assert(proper(e1, c) && takes(e1, alpha));
    let rate = per_channel(e1, channels);
    assert(proper(rate, c) && takes(rate, alpha));
    let n = expr(Op::Scale(weight(beta), Scalar::MinusOne));
    assert(proper(n, c) && takes(n, beta));
    let e2 = expr(Op::Exp(n));
    assert(proper(e2, c) && takes(e2, beta));
    let gain = per_channel(e2, channels);
    assert(proper(gain, c) && takes(gain, beta));
    let ax = times(x, rate);
    assert(proper(ax, c) && takes(ax, alpha));
    let sine = expr(Op::Sin(ax));
    assert(proper(sine, c) && takes(sine, alpha));
    let sq = expr(Op::Sqr(sine));
    assert(proper(sq, c) && takes(sq, alpha));
    let swing = times(sq, gain);
    assert(proper(swing, c) && takes(swing, alpha) && takes(swing, beta));
    assert(swings(sq, x, alpha) && damping_in(gain) == damping_for(alpha));
    assert(damped_swing(swing, x));
    let all = plus(x, swing);
    assert(proper(all, c) && takes(all, alpha) && takes(all, beta));
    assert(takes(x, t) ==> takes(all, t));
}

proof fn lemma_bias_fine(
    w: VocoderWeights,
    x: Expr,
    bias: VocoderTensor,
    size: Dim<Expr>,
    c: VocoderConfig,
    t: VocoderTensor,
    need: bool,
)
    requires
        fine(x, c, t, need),
        is_bias(bias),
    ensures
        fine(channel_biased_if_loaded(w, x, bias, size), c, t, need || w.holds(bias) && t == bias),
        fine(biased_if_loaded(w, x, bias), c, t, need || w.holds(bias) && t == bias),
{
    reveal(channel_biased_if_loaded);
    reveal(biased_if_loaded);
    assert(proper(weight(bias), c) && takes(weight(bias), bias));
    let laid = per_channel(weight(bias), size);
    assert(proper(laid, c) && takes(laid, bias));
    let a = plus(x, laid);
    assert(proper(a, c) && takes(a, bias) && (takes(x, t) ==> takes(a, t)));
    let b = plus(x, weight(bias));
    assert(proper(b, c) && takes(b, bias) && (takes(x, t) ==> takes(b, t)));
}

proof fn lemma_gain_fine(
    w: VocoderWeights,
    x: Expr,
    gain: VocoderTensor,
    size: Dim<Expr>,
    c: VocoderConfig,
    t: VocoderTensor,
    need: bool,
)
    requires
        fine(x, c, t, need),
        is_gain(gain),
    ensures
        fine(times(x, weight(gain)), c, t, need || t == gain),
        fine(times(x, per_channel(weight(gain), size)), c, t, need || t == gain),
        fine(scaled_if_loaded(w, x, gain), c, t, need || w.holds(gain) && t == gain),
        fine(rms_normed(x, gain, c.rms_norm_eps), c, t, need || t == gain),
        normalised_by(rms_normed(x, gain, c.rms_norm_eps), gain),
{
    reveal(scaled_if_loaded);
    reveal(rms_normed);
    assert(proper(weight(gain), c) && takes(weight(gain), gain));
    let laid = per_channel(weight(gain), size);
    assert(proper(laid, c) && takes(laid, gain));
    let a = times(x, laid);
    assert(proper(a, c) && takes(a, gain) && (takes(x, t) ==> takes(a, t)));
    let b = times(x, weight(gain));
    assert(proper(b, c) && takes(b, gain) && (takes(x, t) ==> takes(b, t)));
    let n = expr(Op::RmsNorm(x, c.rms_norm_eps));
    assert(proper(n, c) && (takes(x, t) ==> takes(n, t)));
    let d = times(n, weight(gain));
    assert(proper(d, c) && takes(d, gain) && (takes(n, t) ==> takes(d, t)));
}

proof fn lemma_mapped_fine(
    m: VocoderTensor,
    x: Expr,
    c: VocoderConfig,
    t: VocoderTensor,
    need: bool,
)
    requires
        fine(x, c, t, need),
        maps(m, x),
    ensures
        fine(mapped(m, x), c, t, need || t == m),
        applies(mapped(m, x), m),
{
    reveal(mapped);
    assert(proper(weight(m), c) && takes(weight(m), m));
    let e = mapped(m, x);
    assert(proper(e, c) && takes(e, m) && (takes(x, t) ==> takes(e, t)));
}

proof fn lemma_conv_fine(
    kernel: VocoderTensor,
    x: Expr,
    zeros: i32,
    dilation: i32,
    c: VocoderConfig,
    t: VocoderTensor,
    need: bool,
)
    requires
        fine(x, c, t, need),
        convolves(Some(kernel), zeros as int, dilation as int),
    ensures
        fine(causal_conv(kernel, x, zeros, dilation), c, t, need || t == kernel),
{
    reveal(causal_conv);
    assert(proper(weight(kernel), c) && takes(weight(kernel), kernel));
    let padded = expr(Op::PadFront(x, zeros));
    assert(proper(padded, c) && (takes(x, t) ==> takes(padded, t)));
    let e = causal_conv(kernel, x, zeros, dilation);
    assert(proper(e, c) && takes(e, kernel) && (takes(padded, t) ==> takes(e, t)));
}

proof fn lemma_residual_fine(
    w: VocoderWeights,
    x: Expr,
    block: usize,
    unit: usize,
    dilation: i32,
    c: VocoderConfig,
    t: VocoderTensor,
    need: bool,
)
    requires
        fine(x, c, t, need),
        unit == 2 && dilation == 1 || unit == 3 && dilation == 3 || unit == 4 && dilation == 9,
        1 <= block <= 4,
    ensures
        fine(
            residual_unit(w, x, block, unit, dilation),
            c,
            t,
            need || complete(w) && (t matches VocoderTensor::Residual(b, u, _) && b == block && u
                == unit),
        ),
{
    reveal(residual_unit);
    let part = |p: ResidualTensor| VocoderTensor::Residual(block, unit, p);
    let own = complete(w) && (t matches VocoderTensor::Residual(b, u, _) && b == block && u
        == unit);
    if own {
        assert(in_file(t, w));
        assert(w.holds(part(ResidualTensor::Act1Alpha)));
        assert(w.holds(part(ResidualTensor::Act1Beta)));
        assert(w.holds(part(ResidualTensor::Act2Alpha)));
        assert(w.holds(part(ResidualTensor::Act2Beta)));
        assert(w.holds(part(ResidualTensor::Conv1B)));
        assert(w.holds(part(ResidualTensor::Conv2B)));
    }
    let a1 = part(ResidualTensor::Act1Alpha);
    let b1 = part(ResidualTensor::Act1Beta);
    lemma_snake_fine(w, x, a1, b1, c, t, need);
    let n1 = need || w.holds(a1) && w.holds(b1) && (t == a1 || t == b1);
    let a = snake_if_loaded(w, x, a1, b1);
    let zeros = (6 * dilation) as i32;
    let k1 = part(ResidualTensor::Conv1W);
    lemma_conv_fine(k1, a, zeros, dilation, c, t, n1);
    let conv1 = causal_conv(k1, a, zeros, dilation);
    let n2 = n1 || t == k1;
    let size1 = Dim::Extent(weight(k1), 2);
    let v1 = part(ResidualTensor::Conv1B);
    lemma_bias_fine(w, conv1, v1, size1, c, t, n2);
    let c1 = channel_biased_if_loaded(w, conv1, v1, size1);
    let n3 = n2 || w.holds(v1) && t == v1;
    let a2 = part(ResidualTensor::Act2Alpha);
    let b2 = part(ResidualTensor::Act2Beta);
    lemma_snake_fine(w, c1, a2, b2, c, t, n3);
    let b = snake_if_loaded(w, c1, a2, b2);
    let n4 = n3 || w.holds(a2) && w.holds(b2) && (t == a2 || t == b2);
    let k2 = part(ResidualTensor::Conv2W);
    let conv2 = expr(Op::Conv1d(weight(k2), b, 1));
    assert(zeros_before(b) == 0) by {
        reveal(snake_if_loaded);
        reveal(snake);
        reveal(channel_biased_if_loaded);
        reveal(causal_conv);
    }
    assert(proper(weight(k2), c) && takes(weight(k2), k2));
    assert(proper(conv2, c) && takes(conv2, k2) && (takes(b, t) ==> takes(conv2, t)));
    let n5 = n4 || t == k2;
    let size2 = Dim::Extent(weight(k2), 2);
    let v2 = part(ResidualTensor::Conv2B);
    lemma_bias_fine(w, conv2, v2, size2, c, t, n5);
    let c2 = channel_biased_if_loaded(w, conv2, v2, size2);
    let n6 = n5 || w.holds(v2) && t == v2;
    assert(vector_in(c2) is None && !is_swing(c2)) by {
        reveal(channel_biased_if_loaded);
    }
    let e = plus(x, c2);
    assert(proper(e, c) && (takes(c2, t) ==> takes(e, t)) && (takes(x, t) ==> takes(e, t)));
}

/// Whether a tensor is one of a decoder block's.
spec fn of_block(t: VocoderTensor, block: usize) -> bool {
    match t {
        VocoderTensor::Decoder(b, _) => b == block,
        VocoderTensor::Residual(b, u, _) => b == block && 2 <= u <= 4,
        _ => false,
    }
}

proof fn lemma_decoded_fine(
    w: VocoderWeights,
    x: Expr,
    block: usize,
    rate: i32,
    c: VocoderConfig,
    t: VocoderTensor,
    need: bool,
)
    requires
        fine(x, c, t, need),
        1 <= block <= 4,
        rate == stride(Some(VocoderTensor::Decoder(block, DecoderTensor::ConvTW))),
    ensures
        fine(decoded(w, x, block, rate), c, t, need || complete(w) && of_block(t, block)),
{
    reveal(decoded);
    let part = |p: DecoderTensor| VocoderTensor::Decoder(block, p);
    let alpha = part(DecoderTensor::SnakeAlpha);
    let beta = part(DecoderTensor::SnakeBeta);
    let bias = part(DecoderTensor::ConvTB);
    let k = part(DecoderTensor::ConvTW);
    if complete(w) {
        assert(w.holds(alpha));
        assert(w.holds(beta));
        assert(w.holds(bias));
    }
    lemma_snake_fine(w, x, alpha, beta, c, t, need);
    let a = snake_if_loaded(w, x, alpha, beta);
    let n1 = need || w.holds(alpha) && w.holds(beta) && (t == alpha || t == beta);
    let kernel = weight(k);
    assert(proper(kernel, c) && takes(kernel, k));
    let channels = Dim::Extent(kernel, 1);
    let flat = expr(Op::Reshape2d(a, Dim::Extent(a, 0), Dim::Extent(a, 1)));
    assert(fine(flat, c, t, n1));
    let n2 = n1 || t == k;
    let long = expr(Op::ConvTranspose1d(kernel, flat, rate));
    assert(fine(long, c, t, n2));
    let y = expr(Op::Reshape3d(long, Dim::Extent(long, 0), channels, Dim::Fixed(1)));
    assert(fine(y, c, t, n2));
    let cut = expr(Op::Trim(y, kernel, rate));
    assert(fine(cut, c, t, n2));
    let dense = expr(Op::Cont(cut));
    assert(fine(dense, c, t, n2));
    lemma_bias_fine(w, dense, bias, channels, c, t, n2);
    let y0 = channel_biased_if_loaded(w, dense, bias, channels);
    let n3 = n2 || w.holds(bias) && t == bias;
    lemma_residual_fine(w, y0, block, 2, 1, c, t, n3);
    let y1 = residual_unit(w, y0, block, 2, 1);
    let n4 = n3 || complete(w) && (t matches VocoderTensor::Residual(b, u, _) && b == block && u
        == 2);
    lemma_residual_fine(w, y1, block, 3, 3, c, t, n4);
    let y2 = residual_unit(w, y1, block, 3, 3);
    let n5 = n4 || complete(w) && (t matches VocoderTensor::Residual(b, u, _) && b == block && u
        == 3);
    lemma_residual_fine(w, y2, block, 4, 9, c, t, n5);
}

proof fn lemma_upsampled_fine(
    w: VocoderWeights,
    x: Expr,
    i: usize,
    c: VocoderConfig,
    t: VocoderTensor,
    need: bool,
)
    requires
        fine(x, c, t, need),
        i < 2,
    ensures
        fine(
            upsampled(w, x, i),
            c,
            t,
            need || complete(w) && (t matches VocoderTensor::Upsample(j, _) && j == i),
        ),
{
    reveal(upsampled);
    reveal(lengthened);
    reveal(depthwise_if_loaded);
    reveal(normed_if_loaded);
    reveal(pointwise);
    reveal(gained_if_loaded);
    let part = |p: UpsampleTensor| VocoderTensor::Upsample(i, p);
    if complete(w) {
        assert(w.holds(part(UpsampleTensor::ConvB)));
        assert(w.holds(part(UpsampleTensor::DwconvW)));
        assert(w.holds(part(UpsampleTensor::DwconvB)));
        assert(w.holds(part(UpsampleTensor::NormW)));
        assert(w.holds(part(UpsampleTensor::NormB)));
        assert(w.holds(part(UpsampleTensor::Pwconv1B)));
        assert(w.holds(part(UpsampleTensor::Pwconv2B)));
        assert(w.holds(part(UpsampleTensor::Gamma)));
    }
    let channels = Dim::Extent(x, 1);
    let k = part(UpsampleTensor::ConvW);
    let kernel = weight(k);
    assert(proper(kernel, c) && takes(kernel, k));
    let flat = expr(Op::Reshape2d(x, Dim::Extent(x, 0), channels));
    assert(fine(flat, c, t, need));
    let n1 = need || t == k;
    let made = expr(Op::ConvTranspose1d(kernel, flat, 2));
    assert(fine(made, c, t, n1));
    let shaped = expr(Op::Reshape3d(made, Dim::Extent(made, 0), channels, Dim::Fixed(1)));
    assert(fine(shaped, c, t, n1));
    let b1 = part(UpsampleTensor::ConvB);
    lemma_bias_fine(w, shaped, b1, channels, c, t, n1);
    let n2 = n1 || w.holds(b1) && t == b1;
    let long = lengthened(w, x, i);
    assert(fine(long, c, t, n2));
    let k2 = part(UpsampleTensor::DwconvW);
    let padded = expr(Op::PadFront(long, 6));
    assert(fine(padded, c, t, n2));
    assert(proper(weight(k2), c) && takes(weight(k2), k2));
    let conv = expr(Op::Conv1dDepthwise(weight(k2), padded));
    let n3 = n2 || t == k2;
    assert(fine(conv, c, t, n3));
    let b2 = part(UpsampleTensor::DwconvB);
    lemma_bias_fine(w, conv, b2, channels, c, t, n3);
    let deep = depthwise_if_loaded(w, long, i, channels);
    let n4 = n2 || w.holds(k2) && (t == k2 || w.holds(b2) && t == b2);
    assert(fine(deep, c, t, n4));
    let turned0 = expr(Op::Permute(deep, 1, 0, 2, 3));
    assert(fine(turned0, c, t, n4));
    let turned = swapped(deep);
    assert(fine(turned, c, t, n4));
    let even = expr(Op::Norm(turned, Real32 { bits: 0x3586_37bd }));
    assert(fine(even, c, t, n4));
    let g = part(UpsampleTensor::NormW);
    lemma_gain_fine(w, even, g, channels, c, t, n4);
    let gained = times(even, weight(g));
    let n5 = n4 || t == g;
    let b3 = part(UpsampleTensor::NormB);
    assert(proper(weight(b3), c) && takes(weight(b3), b3));
    let shifted = plus(gained, weight(b3));
    assert(fine(shifted, c, t, n5 || t == b3));
    let inner = normed_if_loaded(w, turned, i);
    let n6 = n4 || w.holds(g) && w.holds(b3) && (t == g || t == b3);
    assert(fine(inner, c, t, n6));
    let m1 = part(UpsampleTensor::Pwconv1W);
    lemma_mapped_fine(m1, inner, c, t, n6);
    let first = mapped(m1, inner);
    let n7 = n6 || t == m1;
    let b4 = part(UpsampleTensor::Pwconv1B);
    lemma_bias_fine(w, first, b4, channels, c, t, n7);
    let wide = biased_if_loaded(w, first, b4);
    let n8 = n7 || w.holds(b4) && t == b4;
    let gelu = expr(Op::Gelu(wide));
    assert(fine(gelu, c, t, n8));
    let m2 = part(UpsampleTensor::Pwconv2W);
    lemma_mapped_fine(m2, gelu, c, t, n8);
    let second = mapped(m2, gelu);
    let n9 = n8 || t == m2;
    let b5 = part(UpsampleTensor::Pwconv2B);
    lemma_bias_fine(w, second, b5, channels, c, t, n9);
    let narrow = pointwise(w, inner, i);
    let n10 = n9 || w.holds(b5) && t == b5;
    assert(fine(narrow, c, t, n10));
    let back0 = expr(Op::Permute(narrow, 1, 0, 2, 3));
    assert(fine(back0, c, t, n10));
    let back = swapped(narrow);
    assert(fine(back, c, t, n10));
    let gamma = part(UpsampleTensor::Gamma);
    lemma_gain_fine(w, back, gamma, channels, c, t, n10);
    let last = gained_if_loaded(w, back, i, channels);
    let n11 = n10 || w.holds(gamma) && t == gamma;
    assert(fine(last, c, t, n11));
    assert(vector_in(last) is None && !is_swing(last));
    let e = plus(long, last);
    assert(fine(e, c, t, n11));
}

proof fn lemma_headed_fine(
    c: VocoderConfig,
    i: usize,
    p: LayerTensor,
    x: Expr,
    n: usize,
    t: VocoderTensor,
    need: bool,
)
    requires
        published_dimensions(c),
        fine(x, c, t, need),
        p is AttnQ || p is AttnK || p is AttnV,
        normalised_by(x, VocoderTensor::Layer(i, LayerTensor::AttnNorm)),
    ensures
        fine(
            headed(c, VocoderTensor::Layer(i, p), x, n),
            c,
            t,
            need || t == VocoderTensor::Layer(i, p),
        ),
        fine(
            rotated(c, VocoderTensor::Layer(i, p), x, n),
            c,
            t,
            need || t == VocoderTensor::Layer(i, p),
        ),
        heads_of(headed(c, VocoderTensor::Layer(i, p), x, n), i, p),
        rotated_heads_of(rotated(c, VocoderTensor::Layer(i, p), x, n), i, p),
{
    reveal(headed);
    reveal(rotated);
    let m = VocoderTensor::Layer(i, p);
    let n1 = need || t == m;
    lemma_mapped_fine(m, x, c, t, need);
    let h = headed(c, m, x, n);
    assert(fine(h, c, t, n1));
    let positions = Expr::Leaf(Leaf::Positions);
    assert(proper(positions, c));
    assert(head_dim(c) == 64);
    let r = expr(Op::Rope(h, positions, head_dim(c), c.rope_theta));
    assert(fine(r, c, t, n1));
    assert(fine(rotated(c, m, x, n), c, t, n1));
}

proof fn lemma_attention_fine(
    c: VocoderConfig,
    x: Expr,
    i: usize,
    n: usize,
    t: VocoderTensor,
    need: bool,
)
    requires
        published_dimensions(c),
        fine(x, c, t, need),
        normalised_by(x, VocoderTensor::Layer(i, LayerTensor::AttnNorm)),
    ensures
        fine(
            attention_mix(c, x, i, n),
            c,
            t,
            need || t == VocoderTensor::Layer(i, LayerTensor::AttnQ) || t == VocoderTensor::Layer(
                i,
                LayerTensor::AttnK,
            ) || t == VocoderTensor::Layer(i, LayerTensor::AttnV),
        ),
        mixes(attention_mix(c, x, i, n), i),
{
    reveal(attention_scores);
    reveal(attention_mix);
    let tq = VocoderTensor::Layer(i, LayerTensor::AttnQ);
    let tk = VocoderTensor::Layer(i, LayerTensor::AttnK);
    let tv = VocoderTensor::Layer(i, LayerTensor::AttnV);
    lemma_headed_fine(c, i, LayerTensor::AttnQ, x, n, t, need);
    lemma_headed_fine(c, i, LayerTensor::AttnK, x, n, t, need);
    lemma_headed_fine(c, i, LayerTensor::AttnV, x, n, t, need);
    assert(head_dim(c) == 64);
    let q = rotated(c, tq, x, n);
    let k = rotated(c, tk, x, n);
    let n1 = need || t == tq || t == tk;
    let kq = expr(Op::MulMat(k, q));
    assert(tensor_in(k) is None) by {
        reveal(rotated);
    }
    assert(fine(kq, c, t, n1));
    let scaled = expr(Op::Scale(kq, Scalar::InverseRoot(head_dim(c))));
    assert(fine(scaled, c, t, n1));
    let masked = expr(Op::DiagMaskInf(scaled));
    assert(fine(masked, c, t, n1));
    let scores = attention_scores(c, x, i, n);
    assert(attends(scores, i));
    assert(fine(scores, c, t, n1));
    let h = headed(c, tv, x, n);
    let v = expr(Op::Permute(h, 0, 2, 1, 3));
    assert(fine(v, c, t, need || t == tv));
    let vt = expr(Op::Transpose(v));
    assert(fine(vt, c, t, need || t == tv));
    let dense = expr(Op::Cont(vt));
    assert(fine(dense, c, t, need || t == tv));
    let n2 = n1 || t == tv;
    let mixed = expr(Op::MulMat(dense, scores));
    assert(fine(mixed, c, t, n2));
    let back = expr(Op::Permute(mixed, 0, 2, 1, 3));
    assert(fine(back, c, t, n2));
    assert(fine(attention_mix(c, x, i, n), c, t, n2));
}

proof fn lemma_transformed_fine(
    c: VocoderConfig,
    w: VocoderWeights,
    x: Expr,
    i: usize,
    n: usize,
    t: VocoderTensor,
    need: bool,
)
    requires
        published_dimensions(c),
        fine(x, c, t, need),
        i < w.count,
    ensures
        fine(
            transformed(c, w, x, i, n),
            c,
            t,
            need || complete(w) && (t matches VocoderTensor::Layer(j, _) && j == i),
        ),
{
    reveal(transformed);
    reveal(attended);
    reveal(fed_forward);
    let part = |p: LayerTensor| VocoderTensor::Layer(i, p);
    let size: Dim<Expr> = Dim::Fixed(1);
    if complete(w) {
        assert(w.holds(part(LayerTensor::AttnScale)));
        assert(w.holds(part(LayerTensor::FfnScale)));
    }
    let g1 = part(LayerTensor::AttnNorm);
    lemma_gain_fine(w, x, g1, size, c, t, need);
    let normed = rms_normed(x, g1, c.rms_norm_eps);
    let n1 = need || t == g1;
    lemma_attention_fine(c, normed, i, n, t, n1);
    let mix = attention_mix(c, normed, i, n);
    let n2 = n1 || t == part(LayerTensor::AttnQ) || t == part(LayerTensor::AttnK) || t == part(
        LayerTensor::AttnV,
    );
    let o = part(LayerTensor::AttnOutput);
    lemma_mapped_fine(o, mix, c, t, n2);
    let out = mapped(o, mix);
    let n3 = n2 || t == o;
    let s1 = part(LayerTensor::AttnScale);
    lemma_gain_fine(w, out, s1, size, c, t, n3);
    let scaled = scaled_if_loaded(w, out, s1);
    let n4 = n3 || w.holds(s1) && t == s1;
    assert(vector_in(scaled) is None && !is_swing(scaled)) by {
        reveal(scaled_if_loaded);
        reveal(mapped);
    }
    let y = attended(c, w, x, i, n);
    assert(y == plus(x, scaled));
    assert(fine(y, c, t, n4));
    let g2 = part(LayerTensor::FfnNorm);
    lemma_gain_fine(w, y, g2, size, c, t, n4);
    let inner = rms_normed(y, g2, c.rms_norm_eps);
    let n5 = n4 || t == g2;
    let mg = part(LayerTensor::FfnGate);
    let mu = part(LayerTensor::FfnUp);
    lemma_mapped_fine(mg, inner, c, t, n5);
    lemma_mapped_fine(mu, inner, c, t, n5);
    let gate = expr(Op::Silu(mapped(mg, inner)));
    assert(fine(gate, c, t, n5 || t == mg));
    let up = mapped(mu, inner);
    assert(vector_in(up) is None) by {
        reveal(mapped);
    }
    let gated = times(gate, up);
    let n6 = n5 || t == mg || t == mu;
    assert(fine(gated, c, t, n6));
    assert(gated_in(gated, i));
    let md = part(LayerTensor::FfnDown);
    lemma_mapped_fine(md, gated, c, t, n6);
    let down = mapped(md, gated);
    let n7 = n6 || t == md;
    let s2 = part(LayerTensor::FfnScale);
    lemma_gain_fine(w, down, s2, size, c, t, n7);
    let last = scaled_if_loaded(w, down, s2);
    let n8 = n7 || w.holds(s2) && t == s2;
    assert(vector_in(last) is None && !is_swing(last)) by {
        reveal(scaled_if_loaded);
        reveal(mapped);
    }
    let e = plus(y, last);
    assert(fine(e, c, t, n8));
}

proof fn lemma_layered_fine(
    c: VocoderConfig,
    w: VocoderWeights,
    x: Expr,
    n: usize,
    count: nat,
    t: VocoderTensor,
    need: bool,
)
    requires
        published_dimensions(c),
        fine(x, c, t, need),
        count <= w.count,
    ensures
        fine(
            layered(c, w, x, n, count),
            c,
            t,
            need || complete(w) && (t matches VocoderTensor::Layer(j, _) && j < count),
        ),
    decreases count,
{
    if count > 0 {
        let less = (count - 1) as nat;
        lemma_layered_fine(c, w, x, n, less, t, need);
        let n1 = need || complete(w) && (t matches VocoderTensor::Layer(j, _) && j < less);
        lemma_transformed_fine(c, w, layered(c, w, x, n, less), less as usize, n, t, n1);
    }
}

proof fn lemma_codebook_fine(
    c: VocoderConfig,
    n: usize,
    projection: VocoderTensor,
    codebook: VocoderTensor,
    input: usize,
    t: VocoderTensor,
)
    requires
        projection is VqFirstOutputProj && codebook is VqFirstCodebook && input == 0 || projection
            is VqRestOutputProj && (codebook matches VocoderTensor::VqRestCodebook(i) && input == i
            + 1),
    ensures
        fine(
            codebook_part(c, n, projection, codebook, input),
            c,
            t,
            t == projection || t == codebook,
        ),
        vector_in(codebook_part(c, n, projection, codebook, input)) is None,
        !is_swing(codebook_part(c, n, projection, codebook, input)),
{
    reveal(codebook_part);
    assert(proper(weight(projection), c) && takes(weight(projection), projection));
    assert(proper(weight(codebook), c) && takes(weight(codebook), codebook));
    let codes = Expr::Leaf(Leaf::Codes(input));
    assert(proper(codes, c));
    let matrix = expr(
        Op::Reshape2d(
            weight(projection),
            Dim::Fixed(c.codebook_dim as i64),
            Dim::Fixed(c.hidden_dim as i64),
        ),
    );
    assert(fine(matrix, c, t, t == projection));
    let rows = expr(Op::GetRows(weight(codebook), codes));
    assert(fine(rows, c, t, t == codebook));
    let shaped = expr(
        Op::Reshape2d(rows, Dim::Fixed(c.codebook_dim as i64), Dim::Fixed(n as i64)),
    );
    assert(fine(shaped, c, t, t == codebook));
    assert(projects(weight(projection), shaped));
    let e = expr(Op::MulMat(matrix, shaped));
    assert(fine(e, c, t, t == projection || t == codebook));
}

proof fn lemma_rest_fine(c: VocoderConfig, n: usize, count: nat, t: VocoderTensor)
    requires
        1 <= count <= usize::MAX,
    ensures
        fine(
            rest_parts(c, n, count),
            c,
            t,
            t is VqRestOutputProj || (t matches VocoderTensor::VqRestCodebook(i) && i < count),
        ),
        vector_in(rest_parts(c, n, count)) is None,
        !is_swing(rest_parts(c, n, count)),
    decreases count,
{
    let codebook = VocoderTensor::VqRestCodebook((count - 1) as usize);
    let projection = VocoderTensor::VqRestOutputProj;
    lemma_codebook_fine(c, n, projection, codebook, count as usize, t);
    let last = codebook_part(c, n, projection, codebook, count as usize);
    if count > 1 {
        lemma_rest_fine(c, n, (count - 1) as nat, t);
        let before = rest_parts(c, n, (count - 1) as nat);
        let e = plus(before, last);
        assert(proper(e, c));
        assert(takes(before, t) || takes(last, t) ==> takes(e, t));
    }
}

/// Whether a tensor is used before the upsampling.
spec fn of_front(t: VocoderTensor, w: VocoderWeights) -> bool {
    match t {
        VocoderTensor::VqFirstOutputProj
        | VocoderTensor::VqFirstCodebook
        | VocoderTensor::VqRestOutputProj
        | VocoderTensor::PreConvW
        | VocoderTensor::PreConvB
        | VocoderTensor::PreTfmInputProjW
        | VocoderTensor::PreTfmInputProjB
        | VocoderTensor::PreTfmNormW
        | VocoderTensor::PreTfmOutputProjW
        | VocoderTensor::PreTfmOutputProjB => true,
        VocoderTensor::VqRestCodebook(i) => i < w.rest,
        VocoderTensor::Layer(i, _) => i < w.count,
        _ => false,
    }
}

proof fn lemma_contextual_fine(c: VocoderConfig, w: VocoderWeights, n: usize, t: VocoderTensor)
    requires
        published_dimensions(c),
        w.rest >= 1,
    ensures
        fine(contextual(c, w, n), c, t, complete(w) && of_front(t, w)),
{
    reveal(latent);
    reveal(contextual);
    let size = Dim::Fixed(c.latent_dim as i64);
    if complete(w) {
        assert(w.holds(VocoderTensor::PreConvB));
        assert(w.holds(VocoderTensor::PreTfmInputProjB));
        assert(w.holds(VocoderTensor::PreTfmNormW));
        assert(w.holds(VocoderTensor::PreTfmOutputProjB));
    }
    let p = VocoderTensor::VqFirstOutputProj;
    let cb = VocoderTensor::VqFirstCodebook;
    lemma_codebook_fine(c, n, p, cb, 0, t);
    lemma_rest_fine(c, n, w.rest as nat, t);
    let n0 = t == p || t == cb || t is VqRestOutputProj || (t matches VocoderTensor::VqRestCodebook(
        i,
    ) && i < w.rest);
    let first = codebook_part(c, n, p, cb, 0);
    let rest = rest_parts(c, n, w.rest as nat);
    let whole = latent(c, w, n);
    assert(whole == plus(first, rest));
    assert(fine(whole, c, t, n0));
    let frames = Dim::Fixed(n as i64);
    let turned = expr(Op::Transpose(whole));
    assert(fine(turned, c, t, n0));
    let dense = expr(Op::Cont(turned));
    assert(fine(dense, c, t, n0));
    let y = expr(Op::Reshape3d(dense, frames, Dim::Fixed(c.hidden_dim as i64), Dim::Fixed(1)));
    assert(fine(y, c, t, n0));
    let again = expr(Op::Cont(y));
    assert(fine(again, c, t, n0));
    let k = VocoderTensor::PreConvW;
    lemma_conv_fine(k, again, 2, 1, c, t, n0);
    let conv = causal_conv(k, again, 2, 1);
    let n1 = n0 || t == k;
    let b = VocoderTensor::PreConvB;
    lemma_bias_fine(w, conv, b, size, c, t, n1);
    let convolved = channel_biased_if_loaded(w, conv, b, size);
    let n2 = n1 || w.holds(b) && t == b;
    let flat = expr(Op::Reshape2d(convolved, frames, size));
    assert(fine(flat, c, t, n2));
    let columns = expr(Op::Transpose(flat));
    assert(fine(columns, c, t, n2));
    let held = expr(Op::Cont(columns));
    assert(fine(held, c, t, n2));
    let mi = VocoderTensor::PreTfmInputProjW;
    lemma_mapped_fine(mi, held, c, t, n2);
    let into = mapped(mi, held);
    let n3 = n2 || t == mi;
    let bi = VocoderTensor::PreTfmInputProjB;
    lemma_bias_fine(w, into, bi, size, c, t, n3);
    let entered = biased_if_loaded(w, into, bi);
    let n4 = n3 || w.holds(bi) && t == bi;
    lemma_layered_fine(c, w, entered, n, w.count as nat, t, n4);
    let x = layered(c, w, entered, n, w.count as nat);
    let n5 = n4 || complete(w) && (t matches VocoderTensor::Layer(j, _) && j < w.count);
    let g = VocoderTensor::PreTfmNormW;
    lemma_gain_fine(w, x, g, size, c, t, n5);
    let normed = if w.holds(g) {
        rms_normed(x, g, c.rms_norm_eps)
    } else {
        x
    };
    let n6 = n5 || w.holds(g) && t == g;
    assert(fine(normed, c, t, n6));
    let mo = VocoderTensor::PreTfmOutputProjW;
    lemma_mapped_fine(mo, normed, c, t, n6);
    let out = mapped(mo, normed);
    let n7 = n6 || t == mo;
    let bo = VocoderTensor::PreTfmOutputProjB;
    lemma_bias_fine(w, out, bo, size, c, t, n7);
    let left = biased_if_loaded(w, out, bo);
    let n8 = n7 || w.holds(bo) && t == bo;
    let back = expr(Op::Permute(left, 1, 0, 2, 3));
    assert(fine(back, c, t, n8));
    let last = expr(Op::Cont(back));
    assert(fine(last, c, t, n8));
    assert(fine(contextual(c, w, n), c, t, n8));
}

proof fn lemma_waveform_fine(c: VocoderConfig, w: VocoderWeights, n: usize, t: VocoderTensor)
    requires
        published_dimensions(c),
        w.rest >= 1,
    ensures
        proper(waveform(c, w, n), c),
        complete(w) && in_file(t, w) && !(t is VqFirstUsage) && !(t is VqRestUsage) ==> takes(
            waveform(c, w, n),
            t,
        ),
{
    reveal(decoder_entry);
    reveal(decoder_blocks);
    reveal(decoder_exit);
    if complete(w) {
        assert(w.holds(VocoderTensor::Dec0ConvB));
        assert(w.holds(VocoderTensor::Dec5SnakeAlpha));
        assert(w.holds(VocoderTensor::Dec5SnakeBeta));
        assert(w.holds(VocoderTensor::Dec6ConvB));
    }
    let all = complete(w);
    lemma_contextual_fine(c, w, n, t);
    let x = contextual(c, w, n);
    let n0 = all && of_front(t, w);
    lemma_upsampled_fine(w, x, 0, c, t, n0);
    let up = upsampled(w, x, 0);
    let n1 = n0 || all && (t matches VocoderTensor::Upsample(j, _) && j == 0);
    lemma_upsampled_fine(w, up, 1, c, t, n1);
    let upper = upsampled(w, up, 1);
    let n2 = n1 || all && (t matches VocoderTensor::Upsample(j, _) && j == 1);
    let k0 = VocoderTensor::Dec0ConvW;
    lemma_conv_fine(k0, upper, 6, 1, c, t, n2);
    let conv = causal_conv(k0, upper, 6, 1);
    let n3 = n2 || t == k0;
    let size = Dim::Fixed(c.decoder_dim as i64);
    let b0 = VocoderTensor::Dec0ConvB;
    lemma_bias_fine(w, conv, b0, size, c, t, n3);
    let n4 = n3 || w.holds(b0) && t == b0;
    let y0 = decoder_entry(c, w, n);
    lemma_decoded_fine(w, y0, 1, 8, c, t, n4);
    let y1 = decoded(w, y0, 1, 8);
    let n5 = n4 || all && of_block(t, 1);
    lemma_decoded_fine(w, y1, 2, 5, c, t, n5);
    let y2 = decoded(w, y1, 2, 5);
    let n6 = n5 || all && of_block(t, 2);
    lemma_decoded_fine(w, y2, 3, 4, c, t, n6);
    let y3 = decoded(w, y2, 3, 4);
    let n7 = n6 || all && of_block(t, 3);
    lemma_decoded_fine(w, y3, 4, 3, c, t, n7);
    let y4 = decoded(w, y3, 4, 3);
    let n8 = n7 || all && of_block(t, 4);
    let alpha = VocoderTensor::Dec5SnakeAlpha;
    let beta = VocoderTensor::Dec5SnakeBeta;
    lemma_snake_fine(w, y4, alpha, beta, c, t, n8);
    let active = snake_if_loaded(w, y4, alpha, beta);
    let n9 = n8 || w.holds(alpha) && w.holds(beta) && (t == alpha || t == beta);
    let k6 = VocoderTensor::Dec6ConvW;
    lemma_conv_fine(k6, active, 6, 1, c, t, n9);
    let conv6 = causal_conv(k6, active, 6, 1);
    let n10 = n9 || t == k6;
    let b6 = VocoderTensor::Dec6ConvB;
    let one: Dim<Expr> = Dim::Fixed(1);
    lemma_bias_fine(w, conv6, b6, one, c, t, n10);
    let exit = channel_biased_if_loaded(w, conv6, b6, one);
    let n11 = n10 || w.holds(b6) && t == b6;
    let bounded = expr(Op::Tanh(exit));
    assert(fine(bounded, c, t, n11));
    let flat = expr(Op::Reshape1d(bounded, Dim::Extent(bounded, 0)));
    assert(fine(flat, c, t, n11));
    assert(fine(expr(Op::Cont(flat)), c, t, n11));
}

/// Whether an expression is some values between minus one and one, in a row.
pub open spec fn bounded_row(e: Expr) -> bool {
    &&& op_in(e) matches Some(Op::Cont(a))
    &&& op_in(a) matches Some(Op::Reshape1d(b, Dim::Extent(same, 0)))
    &&& same == b
    &&& op_in(b) matches Some(Op::Tanh(_))
}

/// In the graph of a decoding every tensor is used for what it is, with the numbers that belong to
/// it: the strides two, two, eight, five, four and three, the dilations one, three and nine with as
/// many zeros as keep the length, each codebook with the codes of its number and its projection, the
/// keys and queries of one layer rotated and masked, the gates, biases and gains of one layer or
/// block, each activation with its own rate and damping, and the network's constants. What comes out
/// is bounded.
pub proof fn lemma_tensors_have_their_roles(
    v: Vocoder,
    codes: Vec<i32>,
    n: usize,
    plan: DecodePlan,
)
    requires
        call_ensures(Vocoder::decode, (&v, &codes, n), Ok(Some(plan))),
        published_dimensions(v.config),
        v.weights.rest >= 1,
    ensures
        proper(plan.graph.exprs()[plan.output as int], v.config),
        bounded_row(plan.graph.exprs()[plan.output as int]),
{
    lemma_waveform_fine(v.config, v.weights, n, VocoderTensor::Dec0ConvW);
    reveal(decoder_exit);
}

/// Every tensor of a checkpoint takes part in a decoding, but for the usage counts, by which the
/// codebooks have been normalised before.
pub proof fn lemma_every_tensor_takes_part(
    v: Vocoder,
    codes: Vec<i32>,
    n: usize,
    plan: DecodePlan,
    t: VocoderTensor,
)
    requires
        call_ensures(Vocoder::decode, (&v, &codes, n), Ok(Some(plan))),
        published_dimensions(v.config),
        v.weights.rest >= 1,
        complete(v.weights),
        in_file(t, v.weights),
        !(t is VqFirstUsage) && !(t is VqRestUsage),
    ensures
        takes(plan.graph.exprs()[plan.output as int], t),
{
    lemma_waveform_fine(v.config, v.weights, n, t);
}

} // verus!
