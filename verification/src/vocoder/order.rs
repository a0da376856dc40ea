//! The order of the network's stages, and what goes round them.

use vstd::prelude::*;
#[allow(unused_imports)]
use crate::real32::Real32;
#[allow(unused_imports)]
use crate::vocoder::config::VocoderConfig;
#[allow(unused_imports)]
use crate::vocoder::decode::{
    codebook_part, contextual, decoder_blocks, decoder_entry, decoder_exit, latent, layered,
    rest_parts, waveform, DecodePlan,
};
#[allow(unused_imports)]
use crate::vocoder::graph::{expr, Dim, Expr, Graph, Leaf, Op, Scalar};
#[allow(unused_imports)]
use crate::vocoder::network::{
    attended, attention_mix, attention_scores, biased_if_loaded, causal_conv,
    channel_biased_if_loaded, decoded, depthwise_if_loaded, fed_forward, gained_if_loaded, head_dim,
    headed, lengthened, mapped, normed_if_loaded, per_channel, plus, pointwise, residual_unit,
    rms_normed, rotated, scaled_if_loaded, snake, snake_if_loaded, swapped, times, transformed,
    upsampled, weight, Vocoder,
};
#[allow(unused_imports)]
use crate::vocoder::roles::{op_in, rate_in, takes, tensor_in};
#[allow(unused_imports)]
use crate::vocoder::tensors::{
    DecoderTensor, LayerTensor, ResidualTensor, UpsampleTensor, VocoderTensor,
};
#[allow(unused_imports)]
use crate::vocoder::weights::VocoderWeights;

verus! {

/// The tensor whose stage comes before that of another.
pub open spec fn follows(t: VocoderTensor) -> Option<VocoderTensor> {
    match t {
        VocoderTensor::PreConvW => Some(VocoderTensor::VqFirstCodebook),
        VocoderTensor::PreTfmInputProjW => Some(VocoderTensor::PreConvW),
        VocoderTensor::Layer(i, LayerTensor::AttnQ)
        | VocoderTensor::Layer(i, LayerTensor::AttnK)
        | VocoderTensor::Layer(i, LayerTensor::AttnV) => if i > 0 {
            Some(VocoderTensor::Layer((i - 1) as usize, LayerTensor::FfnDown))
        } else {
            Some(VocoderTensor::PreTfmInputProjW)
        },
        VocoderTensor::Layer(i, LayerTensor::AttnOutput) => Some(
            VocoderTensor::Layer(i, LayerTensor::AttnV),
        ),
        VocoderTensor::Layer(i, LayerTensor::FfnGate)
        | VocoderTensor::Layer(i, LayerTensor::FfnUp) => Some(
            VocoderTensor::Layer(i, LayerTensor::AttnOutput),
        ),
        VocoderTensor::Layer(i, LayerTensor::FfnDown) => Some(
            VocoderTensor::Layer(i, LayerTensor::FfnGate),
        ),
        VocoderTensor::PreTfmOutputProjW => Some(VocoderTensor::PreTfmInputProjW),
        VocoderTensor::Upsample(i, UpsampleTensor::ConvW) => if i == 0 {
            Some(VocoderTensor::PreTfmOutputProjW)
        } else {
            Some(VocoderTensor::Upsample((i - 1) as usize, UpsampleTensor::Pwconv2W))
        },
        VocoderTensor::Upsample(i, UpsampleTensor::DwconvW) => Some(
            VocoderTensor::Upsample(i, UpsampleTensor::ConvW),
        ),
        VocoderTensor::Upsample(i, UpsampleTensor::Pwconv1W) => Some(
            VocoderTensor::Upsample(i, UpsampleTensor::ConvW),
        ),
        VocoderTensor::Upsample(i, UpsampleTensor::Pwconv2W) => Some(
            VocoderTensor::Upsample(i, UpsampleTensor::Pwconv1W),
        ),
        VocoderTensor::Dec0ConvW => Some(
            VocoderTensor::Upsample(1, UpsampleTensor::Pwconv2W),
        ),
        VocoderTensor::Decoder(b, DecoderTensor::ConvTW) => if b == 1 {
            Some(VocoderTensor::Dec0ConvW)
        } else {
            Some(VocoderTensor::Residual((b - 1) as usize, 4, ResidualTensor::Conv2W))
        },
        VocoderTensor::Residual(b, u, ResidualTensor::Conv1W) => if u == 2 {
            Some(VocoderTensor::Decoder(b, DecoderTensor::ConvTW))
        } else {
            Some(VocoderTensor::Residual(b, (u - 1) as usize, ResidualTensor::Conv2W))
        },
        VocoderTensor::Residual(b, u, ResidualTensor::Conv2W) => Some(
            VocoderTensor::Residual(b, u, ResidualTensor::Conv1W),
        ),
        VocoderTensor::Dec6ConvW => Some(VocoderTensor::Residual(4, 4, ResidualTensor::Conv2W)),
        _ => None,
    }
}

/// The rate of the activation that a convolution stands behind.
pub open spec fn behind(t: VocoderTensor) -> Option<VocoderTensor> {
    match t {
        VocoderTensor::Residual(b, u, ResidualTensor::Conv1W) => Some(
            VocoderTensor::Residual(b, u, ResidualTensor::Act1Alpha),
        ),
        VocoderTensor::Residual(b, u, ResidualTensor::Conv2W) => Some(
            VocoderTensor::Residual(b, u, ResidualTensor::Act2Alpha),
        ),
        VocoderTensor::Decoder(b, DecoderTensor::ConvTW) => Some(
            VocoderTensor::Decoder(b, DecoderTensor::SnakeAlpha),
        ),
        VocoderTensor::Dec6ConvW => Some(VocoderTensor::Dec5SnakeAlpha),
        _ => None,
    }
}

/// The rate of the activation that an expression is, where it is one.
pub open spec fn activation(e: Expr) -> Option<VocoderTensor> {
    match op_in(e) {
        Some(Op::Add(_, swing)) => match op_in(swing) {
            Some(Op::Mul(square, _)) => match op_in(square) {
                Some(Op::Sqr(sine)) => match op_in(sine) {
                    Some(Op::Sin(scaled)) => match op_in(scaled) {
                        Some(Op::Mul(_, rate)) => rate_in(rate),
                        _ => None,
                    },
                    _ => None,
                },
                _ => None,
            },
            _ => None,
        },
        _ => None,
    }
}

/// The rate of the activation that is padded or reshaped, where one is.
pub open spec fn activation_under(e: Expr) -> Option<VocoderTensor> {
    match op_in(e) {
        Some(Op::PadFront(a, _)) | Some(Op::Reshape2d(a, _, _)) => activation(a),
        _ => activation(e),
    }
}

/// Whether a tensor is applied to what comes before it.
pub open spec fn in_place(a: Expr, b: Expr) -> bool {
    tensor_in(a) matches Some(t) ==> {
        &&& follows(t) matches Some(p) ==> takes(b, p)
        &&& activation_under(b) matches Some(alpha) ==> behind(t) == Some(alpha)
    }
}

/// Whether all tensors in an expression are applied to what comes before them.
pub open spec fn ordered(e: Expr) -> bool
    decreases e,
{
    match e {
        Expr::Leaf(_) => true,
        Expr::Apply(op) => match *op {
            Op::Input(_) => true,
            Op::MulMat(a, b)
            | Op::Conv1d(a, b, _)
            | Op::Conv1dDepthwise(a, b)
            | Op::ConvTranspose1d(a, b, _) => in_place(a, b) && ordered(a) && ordered(b),
            Op::GetRows(a, b)
            | Op::Add(a, b)
            | Op::Mul(a, b)
            | Op::Rope(a, b, _, _)
            | Op::Trim(a, b, _) => ordered(a) && ordered(b),
            Op::Reshape1d(a, _)
            | Op::Reshape2d(a, _, _)
            | Op::Reshape3d(a, _, _, _)
            | Op::Transpose(a)
            | Op::Cont(a)
            | Op::Cont2d(a, _, _)
            | Op::PadFront(a, _)
            | Op::Permute(a, _, _, _, _)
            | Op::RmsNorm(a, _)
            | Op::Norm(a, _)
            | Op::Exp(a)
            | Op::Sin(a)
            | Op::Sqr(a)
            | Op::Scale(a, _)
            | Op::DiagMaskInf(a)
            | Op::SoftMax(a)
            | Op::Silu(a)
            | Op::Gelu(a)
            | Op::Tanh(a) => ordered(a),
        },
    }
}

/// Whether an expression is in order, and holds a tensor.
spec fn on(e: Expr, p: VocoderTensor) -> bool {
    ordered(e) && takes(e, p)
}

proof fn lemma_on_snake(
    w: VocoderWeights,
    x: Expr,
    alpha: VocoderTensor,
    beta: VocoderTensor,
    p: VocoderTensor,
)
    requires
        on(x, p),
        activation(x) is None,
    ensures
        on(snake_if_loaded(w, x, alpha, beta), p),
        activation(snake_if_loaded(w, x, alpha, beta)) matches Some(a) ==> a == alpha,
        op_in(x) is Some ==> op_in(snake_if_loaded(w, x, alpha, beta)) is Some,
        !(op_in(x) matches Some(Op::PadFront(_, _))) && !(op_in(x) matches Some(
            Op::Reshape2d(_, _, _),
        )) ==> {
            let e = snake_if_loaded(w, x, alpha, beta);
            !(op_in(e) matches Some(Op::PadFront(_, _))) && !(op_in(e) matches Some(
                Op::Reshape2d(_, _, _),
            ))
        },
{
    reveal(snake_if_loaded);
    reveal(snake);
    let channels = Dim::Extent(x, 1);
    assert(ordered(weight(alpha)) && ordered(weight(beta)));
    let e1 = expr(Op::Exp(weight(alpha)));
    assert(ordered(e1));
    let rate = per_channel(e1, channels);
    assert(ordered(rate));
    let n = expr(Op::Scale(weight(beta), Scalar::MinusOne));
    assert(ordered(n));
    let e2 = expr(Op::Exp(n));
    assert(ordered(e2));
    let gain = per_channel(e2, channels);
    assert(ordered(gain));
    let ax = times(x, rate);
    assert(ordered(ax));
    let sine = expr(Op::Sin(ax));
    assert(ordered(sine));
    let sq = expr(Op::Sqr(sine));
    assert(ordered(sq));
    let swing = times(sq, gain);
    assert(ordered(swing));
    let e = plus(x, swing);
    assert(on(e, p));
    assert(activation(e) == Some(alpha));
}

proof fn lemma_on_bias(
    w: VocoderWeights,
    x: Expr,
    bias: VocoderTensor,
    size: Dim<Expr>,
    p: VocoderTensor,
)
    requires
        on(x, p),
    ensures
        on(channel_biased_if_loaded(w, x, bias, size), p),
        on(biased_if_loaded(w, x, bias), p),
        activation(x) is None ==> activation(channel_biased_if_loaded(w, x, bias, size)) is None,
        !(op_in(x) matches Some(Op::PadFront(_, _))) && !(op_in(x) matches Some(
            Op::Reshape2d(_, _, _),
        )) ==> {
            let e = channel_biased_if_loaded(w, x, bias, size);
            !(op_in(e) matches Some(Op::PadFront(_, _))) && !(op_in(e) matches Some(
                Op::Reshape2d(_, _, _),
            ))
        },
{
    reveal(channel_biased_if_loaded);
    reveal(biased_if_loaded);
    assert(ordered(weight(bias)));
    let laid = per_channel(weight(bias), size);
    assert(ordered(laid));
    assert(on(plus(x, laid), p));
    assert(on(plus(x, weight(bias)), p));
}

proof fn lemma_on_gain(
    w: VocoderWeights,
    x: Expr,
    gain: VocoderTensor,
    size: Dim<Expr>,
    eps: Real32,
    p: VocoderTensor,
)
    requires
        on(x, p),
    ensures
        on(times(x, weight(gain)), p),
        on(times(x, per_channel(weight(gain), size)), p),
        on(scaled_if_loaded(w, x, gain), p),
        on(rms_normed(x, gain, eps), p),
        activation_under(rms_normed(x, gain, eps)) is None,
{
    reveal(scaled_if_loaded);
    reveal(rms_normed);
    assert(ordered(weight(gain)));
    let laid = per_channel(weight(gain), size);
    assert(ordered(laid));
    assert(on(times(x, laid), p));
    assert(on(times(x, weight(gain)), p));
    let n = expr(Op::RmsNorm(x, eps));
    assert(on(n, p));
    assert(on(times(n, weight(gain)), p));
}

proof fn lemma_on_mapped(m: VocoderTensor, x: Expr, p: VocoderTensor)
    requires
        on(x, p),
        follows(m) matches Some(q) ==> takes(x, q),
        activation_under(x) is None,
    ensures
        on(mapped(m, x), p),
        on(mapped(m, x), m),
        activation_under(mapped(m, x)) is None,
{
    reveal(mapped);
    assert(ordered(weight(m)) && takes(weight(m), m));
    assert(on(mapped(m, x), p) && on(mapped(m, x), m));
}

proof fn lemma_on_conv(
    kernel: VocoderTensor,
    x: Expr,
    zeros: i32,
    dilation: i32,
    p: VocoderTensor,
)
    requires
        on(x, p),
        follows(kernel) matches Some(q) ==> takes(x, q),
        activation(x) matches Some(a) ==> behind(kernel) == Some(a),
    ensures
        on(causal_conv(kernel, x, zeros, dilation), p),
        on(causal_conv(kernel, x, zeros, dilation), kernel),
        activation(causal_conv(kernel, x, zeros, dilation)) is None,
        op_in(causal_conv(kernel, x, zeros, dilation)) matches Some(Op::Conv1d(_, _, _)),
{
    reveal(causal_conv);
    assert(ordered(weight(kernel)) && takes(weight(kernel), kernel));
    let padded = expr(Op::PadFront(x, zeros));
    assert(on(padded, p));
    if follows(kernel) is Some {
        assert(takes(padded, follows(kernel)->0));
    }
    let e = causal_conv(kernel, x, zeros, dilation);
    assert(on(e, p) && on(e, kernel));
}

/// Whether an expression is neither an activation nor something that only changes a layout.
spec fn firm(e: Expr) -> bool {
    &&& activation(e) is None
    &&& !(op_in(e) matches Some(Op::PadFront(_, _)))
    &&& !(op_in(e) matches Some(Op::Reshape2d(_, _, _)))
}

/// Whether an expression is another with something added to it.
pub open spec fn adds_to(e: Expr, x: Expr) -> bool {
    op_in(e) matches Some(Op::Add(a, _)) && a == x
}

proof fn lemma_on_residual(
    w: VocoderWeights,
    x: Expr,
    block: usize,
    unit: usize,
    dilation: i32,
    p: VocoderTensor,
)
    requires
        on(x, p),
        firm(x),
        follows(VocoderTensor::Residual(block, unit, ResidualTensor::Conv1W)) == Some(p),
    ensures
        on(
            residual_unit(w, x, block, unit, dilation),
            VocoderTensor::Residual(block, unit, ResidualTensor::Conv2W),
        ),
        firm(residual_unit(w, x, block, unit, dilation)),
{
    reveal(residual_unit);
    let part = |q: ResidualTensor| VocoderTensor::Residual(block, unit, q);
    let a1 = part(ResidualTensor::Act1Alpha);
    let b1 = part(ResidualTensor::Act1Beta);
    lemma_on_snake(w, x, a1, b1, p);
    let a = snake_if_loaded(w, x, a1, b1);
    let zeros = (6 * dilation) as i32;
    let k1 = part(ResidualTensor::Conv1W);
    lemma_on_conv(k1, a, zeros, dilation, p);
    let conv1 = causal_conv(k1, a, zeros, dilation);
    let size1 = Dim::Extent(weight(k1), 2);
    let v1 = part(ResidualTensor::Conv1B);
    lemma_on_bias(w, conv1, v1, size1, k1);
    let c1 = channel_biased_if_loaded(w, conv1, v1, size1);
    let a2 = part(ResidualTensor::Act2Alpha);
    let b2 = part(ResidualTensor::Act2Beta);
    lemma_on_snake(w, c1, a2, b2, k1);
    let b = snake_if_loaded(w, c1, a2, b2);
    let k2 = part(ResidualTensor::Conv2W);
    assert(ordered(weight(k2)) && takes(weight(k2), k2));
    let conv2 = expr(Op::Conv1d(weight(k2), b, 1));
    assert(in_place(weight(k2), b));
    assert(on(conv2, k2));
    let size2 = Dim::Extent(weight(k2), 2);
    let v2 = part(ResidualTensor::Conv2B);
    lemma_on_bias(w, conv2, v2, size2, k2);
    let c2 = channel_biased_if_loaded(w, conv2, v2, size2);
    assert(!(op_in(c2) matches Some(Op::Mul(_, _)))) by {
        reveal(channel_biased_if_loaded);
    }
    let e = plus(x, c2);
    assert(on(e, k2));
    assert(activation(e) is None);
}

proof fn lemma_on_decoded(w: VocoderWeights, x: Expr, block: usize, rate: i32, p: VocoderTensor)
    requires
        on(x, p),
        firm(x),
        follows(VocoderTensor::Decoder(block, DecoderTensor::ConvTW)) == Some(p),
    ensures
        on(
            decoded(w, x, block, rate),
            VocoderTensor::Residual(block, 4, ResidualTensor::Conv2W),
        ),
        firm(decoded(w, x, block, rate)),
{
    reveal(decoded);
    let part = |q: DecoderTensor| VocoderTensor::Decoder(block, q);
    let alpha = part(DecoderTensor::SnakeAlpha);
    let beta = part(DecoderTensor::SnakeBeta);
    let k = part(DecoderTensor::ConvTW);
    let bias = part(DecoderTensor::ConvTB);
    lemma_on_snake(w, x, alpha, beta, p);
    let a = snake_if_loaded(w, x, alpha, beta);
    let kernel = weight(k);
    assert(ordered(kernel) && takes(kernel, k));
    let channels = Dim::Extent(kernel, 1);
    let flat = expr(Op::Reshape2d(a, Dim::Extent(a, 0), Dim::Extent(a, 1)));
    assert(on(flat, p));
    let long = expr(Op::ConvTranspose1d(kernel, flat, rate));
    assert(in_place(kernel, flat));
    assert(on(long, k));
    let y = expr(Op::Reshape3d(long, Dim::Extent(long, 0), channels, Dim::Fixed(1)));
    assert(on(y, k));
    let cut = expr(Op::Trim(y, kernel, rate));
    assert(on(cut, k));
    let dense = expr(Op::Cont(cut));
    assert(on(dense, k));
    lemma_on_bias(w, dense, bias, channels, k);
    let y0 = channel_biased_if_loaded(w, dense, bias, channels);
    lemma_on_residual(w, y0, block, 2, 1, k);
    let y1 = residual_unit(w, y0, block, 2, 1);
    lemma_on_residual(
        w,
        y1,
        block,
        3,
        3,
        VocoderTensor::Residual(block, 2, ResidualTensor::Conv2W),
    );
    let y2 = residual_unit(w, y1, block, 3, 3);
    lemma_on_residual(
        w,
        y2,
        block,
        4,
        9,
        VocoderTensor::Residual(block, 3, ResidualTensor::Conv2W),
    );
}

proof fn lemma_on_upsampled(w: VocoderWeights, x: Expr, i: usize, p: VocoderTensor)
    requires
        on(x, p),
        firm(x),
        follows(VocoderTensor::Upsample(i, UpsampleTensor::ConvW)) == Some(p),
    ensures
        on(upsampled(w, x, i), VocoderTensor::Upsample(i, UpsampleTensor::Pwconv2W)),
        firm(upsampled(w, x, i)),
{
    reveal(upsampled);
    reveal(lengthened);
    reveal(depthwise_if_loaded);
    reveal(normed_if_loaded);
    reveal(pointwise);
    reveal(gained_if_loaded);
    let part = |q: UpsampleTensor| VocoderTensor::Upsample(i, q);
    let channels = Dim::Extent(x, 1);
    let k = part(UpsampleTensor::ConvW);
    let kernel = weight(k);
    assert(ordered(kernel) && takes(kernel, k));
    let flat = expr(Op::Reshape2d(x, Dim::Extent(x, 0), channels));
    assert(on(flat, p));
    let made = expr(Op::ConvTranspose1d(kernel, flat, 2));
    assert(in_place(kernel, flat));
    assert(on(made, k));
    let shaped = expr(Op::Reshape3d(made, Dim::Extent(made, 0), channels, Dim::Fixed(1)));
    assert(on(shaped, k));
    lemma_on_bias(w, shaped, part(UpsampleTensor::ConvB), channels, k);
    let long = lengthened(w, x, i);
    assert(on(long, k) && firm(long));
    let k2 = part(UpsampleTensor::DwconvW);
    let padded = expr(Op::PadFront(long, 6));
    assert(on(padded, k));
    assert(ordered(weight(k2)));
    assert(in_place(weight(k2), padded));
    let conv = expr(Op::Conv1dDepthwise(weight(k2), padded));
    assert(on(conv, k));
    lemma_on_bias(w, conv, part(UpsampleTensor::DwconvB), channels, k);
    let deep = depthwise_if_loaded(w, long, i, channels);
    assert(on(deep, k));
    let turned0 = expr(Op::Permute(deep, 1, 0, 2, 3));
    assert(on(turned0, k));
    let turned = swapped(deep);
    assert(on(turned, k));
    let even = expr(Op::Norm(turned, Real32 { bits: 0x3586_37bd }));
    assert(on(even, k));
    let g = part(UpsampleTensor::NormW);
    lemma_on_gain(w, even, g, channels, Real32 { bits: 0 }, k);
    let gained = times(even, weight(g));
    let b3 = part(UpsampleTensor::NormB);
    assert(ordered(weight(b3)));
    let shifted = plus(gained, weight(b3));
    assert(on(shifted, k));
    let inner = normed_if_loaded(w, turned, i);
    assert(on(inner, k));
    assert(activation_under(inner) is None);
    let m1 = part(UpsampleTensor::Pwconv1W);
    lemma_on_mapped(m1, inner, k);
    let first = mapped(m1, inner);
    lemma_on_bias(w, first, part(UpsampleTensor::Pwconv1B), channels, m1);
    let wide = biased_if_loaded(w, first, part(UpsampleTensor::Pwconv1B));
    let gelu = expr(Op::Gelu(wide));
    assert(on(gelu, m1));
    let m2 = part(UpsampleTensor::Pwconv2W);
    lemma_on_mapped(m2, gelu, m1);
    let second = mapped(m2, gelu);
    lemma_on_bias(w, second, part(UpsampleTensor::Pwconv2B), channels, m2);
    let narrow = pointwise(w, inner, i);
    assert(on(narrow, m2));
    let back0 = expr(Op::Permute(narrow, 1, 0, 2, 3));
    assert(on(back0, m2));
    let back = swapped(narrow);
    assert(on(back, m2));
    let gamma = part(UpsampleTensor::Gamma);
    lemma_on_gain(w, back, gamma, channels, Real32 { bits: 0 }, m2);
    let last = gained_if_loaded(w, back, i, channels);
    assert(on(last, m2));
    assert(op_in(back) is Some && op_in(back)->0 is Cont);
    let e = plus(long, last);
    assert(on(e, m2));
    assert(activation(e) is None);
}

proof fn lemma_on_attention(
    c: VocoderConfig,
    x: Expr,
    i: usize,
    n: usize,
    p: VocoderTensor,
)
    requires
        on(x, p),
        activation_under(x) is None,
        follows(VocoderTensor::Layer(i, LayerTensor::AttnV)) == Some(p),
    ensures
        on(attention_mix(c, x, i, n), VocoderTensor::Layer(i, LayerTensor::AttnV)),
        activation_under(attention_mix(c, x, i, n)) is None,
{
    reveal(headed);
    reveal(rotated);
    reveal(attention_scores);
    reveal(attention_mix);
    let tq = VocoderTensor::Layer(i, LayerTensor::AttnQ);
    let tk = VocoderTensor::Layer(i, LayerTensor::AttnK);
    let tv = VocoderTensor::Layer(i, LayerTensor::AttnV);
    lemma_on_mapped(tq, x, p);
    lemma_on_mapped(tk, x, p);
    lemma_on_mapped(tv, x, p);
    let pos = Expr::Leaf(Leaf::Positions);
    assert(ordered(pos));
    let hq = headed(c, tq, x, n);
    let hk = headed(c, tk, x, n);
    let hv = headed(c, tv, x, n);
    assert(ordered(hq) && ordered(hk) && on(hv, tv));
    let rq = expr(Op::Rope(hq, pos, head_dim(c), c.rope_theta));
    let rk = expr(Op::Rope(hk, pos, head_dim(c), c.rope_theta));
    assert(ordered(rq) && ordered(rk));
    let q = rotated(c, tq, x, n);
    let k = rotated(c, tk, x, n);
    assert(ordered(q) && ordered(k));
    let kq = expr(Op::MulMat(k, q));
    assert(ordered(kq));
    let scaled = expr(Op::Scale(kq, Scalar::InverseRoot(head_dim(c))));
    assert(ordered(scaled));
    let masked = expr(Op::DiagMaskInf(scaled));
    assert(ordered(masked));
    let scores = attention_scores(c, x, i, n);
    assert(ordered(scores));
    let v = expr(Op::Permute(hv, 0, 2, 1, 3));
    assert(on(v, tv));
    let vt = expr(Op::Transpose(v));
    assert(on(vt, tv));
    let dense = expr(Op::Cont(vt));
    assert(on(dense, tv));
    let mixed = expr(Op::MulMat(dense, scores));
    assert(on(mixed, tv));
    let back = expr(Op::Permute(mixed, 0, 2, 1, 3));
    assert(on(back, tv));
    assert(on(attention_mix(c, x, i, n), tv));
}

proof fn lemma_on_transformed(
    c: VocoderConfig,
    w: VocoderWeights,
    x: Expr,
    i: usize,
    n: usize,
    p: VocoderTensor,
    o: VocoderTensor,
)
    requires
        on(x, p),
        takes(x, o),
        follows(VocoderTensor::Layer(i, LayerTensor::AttnV)) == Some(p),
    ensures
        on(transformed(c, w, x, i, n), VocoderTensor::Layer(i, LayerTensor::FfnDown)),
        takes(transformed(c, w, x, i, n), o),
{
    reveal(transformed);
    reveal(attended);
    reveal(fed_forward);
    let part = |q: LayerTensor| VocoderTensor::Layer(i, q);
    let size: Dim<Expr> = Dim::Fixed(1);
    let g1 = part(LayerTensor::AttnNorm);
    lemma_on_gain(w, x, g1, size, c.rms_norm_eps, p);
    let normed = rms_normed(x, g1, c.rms_norm_eps);
    lemma_on_attention(c, normed, i, n, p);
    let mix = attention_mix(c, normed, i, n);
    let tv = part(LayerTensor::AttnV);
    let to = part(LayerTensor::AttnOutput);
    lemma_on_mapped(to, mix, tv);
    let out = mapped(to, mix);
    let s1 = part(LayerTensor::AttnScale);
    lemma_on_gain(w, out, s1, size, c.rms_norm_eps, to);
    let scaled = scaled_if_loaded(w, out, s1);
    let y = attended(c, w, x, i, n);
    assert(y == plus(x, scaled));
    assert(on(y, to) && takes(y, o));
    let g2 = part(LayerTensor::FfnNorm);
    lemma_on_gain(w, y, g2, size, c.rms_norm_eps, to);
    let inner = rms_normed(y, g2, c.rms_norm_eps);
    let mg = part(LayerTensor::FfnGate);
    let mu = part(LayerTensor::FfnUp);
    lemma_on_mapped(mg, inner, to);
    lemma_on_mapped(mu, inner, to);
    let gate = expr(Op::Silu(mapped(mg, inner)));
    assert(on(gate, mg));
    let gated = times(gate, mapped(mu, inner));
    assert(on(gated, mg));
    let md = part(LayerTensor::FfnDown);
    lemma_on_mapped(md, gated, mg);
    let down = mapped(md, gated);
    let s2 = part(LayerTensor::FfnScale);
    lemma_on_gain(w, down, s2, size, c.rms_norm_eps, md);
    let last = scaled_if_loaded(w, down, s2);
    let e = plus(y, last);
    assert(on(e, md) && takes(e, o));
}

proof fn lemma_on_layered(
    c: VocoderConfig,
    w: VocoderWeights,
    x: Expr,
    n: usize,
    count: nat,
)
    requires
        on(x, VocoderTensor::PreTfmInputProjW),
        count <= usize::MAX,
    ensures
        on(layered(c, w, x, n, count), VocoderTensor::PreTfmInputProjW),
        count > 0 ==> takes(
            layered(c, w, x, n, count),
            VocoderTensor::Layer((count - 1) as usize, LayerTensor::FfnDown),
        ),
    decreases count,
{
    if count > 0 {
        let less = (count - 1) as nat;
        lemma_on_layered(c, w, x, n, less);
        let p = if less > 0 {
            VocoderTensor::Layer((less - 1) as usize, LayerTensor::FfnDown)
        } else {
            VocoderTensor::PreTfmInputProjW
        };
        lemma_on_transformed(
            c,
            w,
            layered(c, w, x, n, less),
            less as usize,
            n,
            p,
            VocoderTensor::PreTfmInputProjW,
        );
    }
}

proof fn lemma_on_codebook(
    c: VocoderConfig,
    n: usize,
    projection: VocoderTensor,
    codebook: VocoderTensor,
    input: usize,
)
    ensures
        on(codebook_part(c, n, projection, codebook, input), codebook),
{
    reveal(codebook_part);
    assert(ordered(weight(projection)));
    assert(on(weight(codebook), codebook));
    let codes = Expr::Leaf(Leaf::Codes(input));
    assert(ordered(codes));
    let matrix = expr(
        Op::Reshape2d(
            weight(projection),
            Dim::Fixed(c.codebook_dim as i64),
            Dim::Fixed(c.hidden_dim as i64),
        ),
    );
    assert(ordered(matrix));
    let rows = expr(Op::GetRows(weight(codebook), codes));
    assert(on(rows, codebook));
    let shaped = expr(
        Op::Reshape2d(rows, Dim::Fixed(c.codebook_dim as i64), Dim::Fixed(n as i64)),
    );
    assert(on(shaped, codebook));
    assert(on(expr(Op::MulMat(matrix, shaped)), codebook));
}

proof fn lemma_on_rest(c: VocoderConfig, n: usize, count: nat)
    ensures
        ordered(rest_parts(c, n, count)),
    decreases count,
{
    let codebook = VocoderTensor::VqRestCodebook((count - 1) as usize);
    lemma_on_codebook(c, n, VocoderTensor::VqRestOutputProj, codebook, count as usize);
    if count > 1 {
        lemma_on_rest(c, n, (count - 1) as nat);
    }
}

proof fn lemma_on_contextual(c: VocoderConfig, w: VocoderWeights, n: usize)
    ensures
        on(contextual(c, w, n), VocoderTensor::PreTfmOutputProjW),
        firm(contextual(c, w, n)),
{
    reveal(latent);
    reveal(contextual);
    let size = Dim::Fixed(c.latent_dim as i64);
    let cb = VocoderTensor::VqFirstCodebook;
    lemma_on_codebook(c, n, VocoderTensor::VqFirstOutputProj, cb, 0);
    lemma_on_rest(c, n, w.rest as nat);
    let whole = latent(c, w, n);
    assert(on(whole, cb));
    let frames = Dim::Fixed(n as i64);
    let turned = expr(Op::Transpose(whole));
    assert(on(turned, cb));
    let dense = expr(Op::Cont(turned));
    assert(on(dense, cb));
    let y = expr(Op::Reshape3d(dense, frames, Dim::Fixed(c.hidden_dim as i64), Dim::Fixed(1)));
    assert(on(y, cb));
    let again = expr(Op::Cont(y));
    assert(on(again, cb));
    let k = VocoderTensor::PreConvW;
    lemma_on_conv(k, again, 2, 1, cb);
    let conv = causal_conv(k, again, 2, 1);
    lemma_on_bias(w, conv, VocoderTensor::PreConvB, size, k);
    let convolved = channel_biased_if_loaded(w, conv, VocoderTensor::PreConvB, size);
    let flat = expr(Op::Reshape2d(convolved, frames, size));
    assert(on(flat, k));
    let columns = expr(Op::Transpose(flat));
    assert(on(columns, k));
    let held = expr(Op::Cont(columns));
    assert(on(held, k));
    let mi = VocoderTensor::PreTfmInputProjW;
    lemma_on_mapped(mi, held, k);
    let into = mapped(mi, held);
    lemma_on_bias(w, into, VocoderTensor::PreTfmInputProjB, size, mi);
    let entered = biased_if_loaded(w, into, VocoderTensor::PreTfmInputProjB);
    lemma_on_layered(c, w, entered, n, w.count as nat);
    let x = layered(c, w, entered, n, w.count as nat);
    let g = VocoderTensor::PreTfmNormW;
    lemma_on_gain(w, x, g, size, c.rms_norm_eps, mi);
    let normed = if w.holds(g) {
        rms_normed(x, g, c.rms_norm_eps)
    } else {
        x
    };
    assert(activation_under(normed) is None) by {
        reveal(biased_if_loaded);
        reveal(mapped);
        assert(activation_under(entered) is None);
        lemma_layers_are_plain(c, w, entered, n, w.count as nat);
    }
    let mo = VocoderTensor::PreTfmOutputProjW;
    lemma_on_mapped(mo, normed, mi);
    let out = mapped(mo, normed);
    lemma_on_bias(w, out, VocoderTensor::PreTfmOutputProjB, size, mo);
    let left = biased_if_loaded(w, out, VocoderTensor::PreTfmOutputProjB);
    let back = expr(Op::Permute(left, 1, 0, 2, 3));
    assert(on(back, mo));
    let last = expr(Op::Cont(back));
    assert(on(last, mo));
    assert(on(contextual(c, w, n), mo));
}

proof fn lemma_layers_are_plain(
    c: VocoderConfig,
    w: VocoderWeights,
    x: Expr,
    n: usize,
    count: nat,
)
    requires
        activation_under(x) is None,
    ensures
        activation_under(layered(c, w, x, n, count)) is None,
{
    if count > 0 {
        reveal(transformed);
        reveal(fed_forward);
        reveal(scaled_if_loaded);
        reveal(mapped);
    }
}

/// The stages of a decoding come in their order: the codebooks before the first convolution, that
/// one before the transformer, whose layers come one after the other and each attends before it
/// feeds forward; then the two upsampling blocks and the four decoder blocks with their residual
/// units, one after the other, each convolution behind the activation that belongs to it, and the
/// last convolution behind them all.
pub proof fn lemma_stages_in_order(v: Vocoder, codes: Vec<i32>, n: usize, plan: DecodePlan)
    requires
        call_ensures(Vocoder::decode, (&v, &codes, n), Ok(Some(plan))),
    ensures
        ordered(plan.graph.exprs()[plan.output as int]),
        takes(plan.graph.exprs()[plan.output as int], VocoderTensor::Dec6ConvW),
{
    reveal(decoder_entry);
    reveal(decoder_blocks);
    reveal(decoder_exit);
    let c = v.config;
    let w = v.weights;
    lemma_on_contextual(c, w, n);
    let x = contextual(c, w, n);
    lemma_on_upsampled(w, x, 0, VocoderTensor::PreTfmOutputProjW);
    let up = upsampled(w, x, 0);
    lemma_on_upsampled(w, up, 1, VocoderTensor::Upsample(0, UpsampleTensor::Pwconv2W));
    let upper = upsampled(w, up, 1);
    let k0 = VocoderTensor::Dec0ConvW;
    lemma_on_conv(k0, upper, 6, 1, VocoderTensor::Upsample(1, UpsampleTensor::Pwconv2W));
    let conv = causal_conv(k0, upper, 6, 1);
    lemma_on_bias(w, conv, VocoderTensor::Dec0ConvB, Dim::Fixed(c.decoder_dim as i64), k0);
    let y0 = decoder_entry(c, w, n);
    lemma_on_decoded(w, y0, 1, 8, k0);
    let y1 = decoded(w, y0, 1, 8);
    lemma_on_decoded(w, y1, 2, 5, VocoderTensor::Residual(1, 4, ResidualTensor::Conv2W));
    let y2 = decoded(w, y1, 2, 5);
    lemma_on_decoded(w, y2, 3, 4, VocoderTensor::Residual(2, 4, ResidualTensor::Conv2W));
    let y3 = decoded(w, y2, 3, 4);
    lemma_on_decoded(w, y3, 4, 3, VocoderTensor::Residual(3, 4, ResidualTensor::Conv2W));
    let y4 = decoded(w, y3, 4, 3);
    let k = VocoderTensor::Residual(4, 4, ResidualTensor::Conv2W);
    let alpha = VocoderTensor::Dec5SnakeAlpha;
    let beta = VocoderTensor::Dec5SnakeBeta;
    lemma_on_snake(w, y4, alpha, beta, k);
    let active = snake_if_loaded(w, y4, alpha, beta);
    let k6 = VocoderTensor::Dec6ConvW;
    lemma_on_conv(k6, active, 6, 1, k);
    let conv6 = causal_conv(k6, active, 6, 1);
    let one: Dim<Expr> = Dim::Fixed(1);
    lemma_on_bias(w, conv6, VocoderTensor::Dec6ConvB, one, k6);
    let exit = channel_biased_if_loaded(w, conv6, VocoderTensor::Dec6ConvB, one);
    let bounded = expr(Op::Tanh(exit));
    assert(on(bounded, k6));
    let flat = expr(Op::Reshape1d(bounded, Dim::Extent(bounded, 0)));
    assert(on(flat, k6));
    assert(on(expr(Op::Cont(flat)), k6));
}

/// Whether an expression is another one, or that with a vector added for the channels.
pub open spec fn same_or_biased(e: Expr, x: Expr) -> bool {
    e == x || adds_to(e, x)
}

/// What the blocks of the network do is added to what goes into them: a transformer layer adds what
/// it attends to and then what it feeds forward, a residual unit what it convolves. An upsampling
/// block adds to its input once that has been lengthened, and a decoder block ends in three units
/// that add. The activation adds a damped swing to its input, and a normalisation scales it.
pub proof fn lemma_blocks_add_to_their_input(
    v: Vocoder,
    g: &mut Graph,
    x: usize,
    i: usize,
    unit: usize,
    number: i32,
    n: usize,
    positions: usize,
    alpha: VocoderTensor,
    beta: VocoderTensor,
    eps: Real32,
    r: usize,
)
    requires
        x < old(g).exprs().len(),
    ensures
        ({
            let input = old(g).exprs()[x as int];
            let e = final(g).exprs()[r as int];
            &&& call_ensures(Vocoder::apply_pre_tfm_layer, (&v, g, x, i, n, positions), r)
                ==> exists|y: Expr| #![trigger adds_to(y, input)] adds_to(e, y) && adds_to(y, input)
            &&& call_ensures(Vocoder::apply_residual_block, (&v, g, x, i, unit, number), r)
                ==> adds_to(e, input)
            &&& call_ensures(Vocoder::apply_upsample_block, (&v, g, x, i), r) ==> {
                let kernel = weight(VocoderTensor::Upsample(i, UpsampleTensor::ConvW));
                let flat = expr(Op::Reshape2d(input, Dim::Extent(input, 0), Dim::Extent(input, 1)));
                let made = expr(Op::ConvTranspose1d(kernel, flat, 2));
                let shaped = expr(
                    Op::Reshape3d(
                        made,
                        Dim::Extent(made, 0),
                        Dim::Extent(input, 1),
                        Dim::Fixed(1),
                    ),
                );
                exists|long: Expr|
                    #![trigger adds_to(e, long)]
                    adds_to(e, long) && same_or_biased(long, shaped)
            }
            &&& call_ensures(Vocoder::apply_decoder_block, (&v, g, x, i, number), r)
                ==> exists|y2: Expr, y1: Expr, y0: Expr|
                #![trigger adds_to(y2, y1), adds_to(y1, y0)]
                adds_to(e, y2) && adds_to(y2, y1) && adds_to(y1, y0)
            &&& call_ensures(Vocoder::apply_snake, (g, x, alpha, beta), r) ==> adds_to(e, input)
                && activation(e) == Some(alpha)
            &&& call_ensures(Vocoder::apply_rms_norm, (g, x, alpha, eps), r) ==> e == expr(
                Op::Mul(expr(Op::RmsNorm(input, eps)), weight(alpha)),
            )
        }),
{
    reveal(transformed);
    reveal(attended);
    reveal(fed_forward);
    reveal(residual_unit);
    reveal(upsampled);
    reveal(lengthened);
    reveal(channel_biased_if_loaded);
    reveal(decoded);
    reveal(snake);
    reveal(rms_normed);
    let input = old(g).exprs()[x as int];
    let w = v.weights;
    let y = attended(v.config, w, input, i, n);
    assert(adds_to(y, input));
    let long = lengthened(w, input, i);
    let e = final(g).exprs()[r as int];
    if call_ensures(Vocoder::apply_upsample_block, (&v, g, x, i), r) {
        assert(adds_to(e, long));
    }
    if call_ensures(Vocoder::apply_decoder_block, (&v, g, x, i, number), r) {
        lemma_decoder_block_adds(w, input, i, number);
    }
}

proof fn lemma_decoder_block_adds(w: VocoderWeights, x: Expr, block: usize, rate: i32)
    ensures
        exists|y2: Expr, y1: Expr, y0: Expr|
            #![trigger adds_to(y2, y1), adds_to(y1, y0)]
            adds_to(decoded(w, x, block, rate), y2) && adds_to(y2, y1) && adds_to(y1, y0),
{
    reveal(decoded);
    reveal(residual_unit);
    let part = |q: DecoderTensor| VocoderTensor::Decoder(block, q);
    let a = snake_if_loaded(
        w,
        x,
        part(DecoderTensor::SnakeAlpha),
        part(DecoderTensor::SnakeBeta),
    );
    let kernel = weight(part(DecoderTensor::ConvTW));
    let channels = Dim::Extent(kernel, 1);
    let flat = expr(Op::Reshape2d(a, Dim::Extent(a, 0), Dim::Extent(a, 1)));
    let long = expr(Op::ConvTranspose1d(kernel, flat, rate));
    let y = expr(Op::Reshape3d(long, Dim::Extent(long, 0), channels, Dim::Fixed(1)));
    let dense = expr(Op::Cont(expr(Op::Trim(y, kernel, rate))));
    let y0 = channel_biased_if_loaded(w, dense, part(DecoderTensor::ConvTB), channels);
    let y1 = residual_unit(w, y0, block, 2, 1);
    let y2 = residual_unit(w, y1, block, 3, 3);
    assert(adds_to(y2, y1) && adds_to(y1, y0));
    assert(adds_to(decoded(w, x, block, rate), y2));
}

} // verus!
