//! How much audio a decoding makes.

use vstd::prelude::*;
#[allow(unused_imports)]
use crate::real32::Real32;
#[allow(unused_imports)]
use crate::vocoder::config::VocoderConfig;
#[allow(unused_imports)]
use crate::vocoder::decode::{
    codebook_part, contextual, decoder_blocks, decoder_entry, decoder_exit, latent, layered,
    rest_parts, waveform, DecodePlan,
};
#[allow(unused_imports)]
use crate::vocoder::extents::{
    dim_value, ext, extents, lemma_node_extents, node_extents, Extents,
};
#[allow(unused_imports)]
use crate::vocoder::graph::{expr, Dim, Expr, Leaf, Op, Scalar};
#[allow(unused_imports)]
use crate::vocoder::network::{
    attended, attention_mix, attention_scores, biased_if_loaded, causal_conv,
    channel_biased_if_loaded, decoded, depthwise_if_loaded, fed_forward, gained_if_loaded, head_dim,
    headed, lengthened, mapped, normed_if_loaded, per_channel, plus, pointwise, residual_unit,
    rms_normed, rotated, scaled_if_loaded, snake, snake_if_loaded, swapped, times, transformed,
    upsampled, weight, Vocoder,
};
#[allow(unused_imports)]
use crate::vocoder::tensors::{
    DecoderTensor, LayerTensor, ResidualTensor, UpsampleTensor, VocoderTensor,
};
#[allow(unused_imports)]
use crate::vocoder::weights::VocoderWeights;

verus! {

/// What the extents of a checkpoint's tensors depend on beside the published dimensions: the width
/// of the transformer, that of the upsampling blocks' inner step, the number of entries of a
/// codebook, and the lengths of the kernels of the four transposed convolutions of the decoder.
pub struct Sizes {
    pub width: int,
    pub wide: int,
    pub entries: int,
    pub k1: int,
    pub k2: int,
    pub k3: int,
    pub k4: int,
}

impl Sizes {
    /// The length of the kernel of a decoder block's transposed convolution.
    pub open spec fn kernel(self, block: usize) -> int {
        if block == 1 {
            self.k1
        } else if block == 2 {
            self.k2
        } else if block == 3 {
            self.k3
        } else {
            self.k4
        }
    }
}

/// The number of channels behind a decoder block: half of those before it.
pub open spec fn channels_behind(block: usize) -> int {
    if block == 0 {
        1536
    } else if block == 1 {
        768
    } else if block == 2 {
        384
    } else if block == 3 {
        192
    } else {
        96
    }
}

/// The extents of a checkpoint's tensors.
pub open spec fn weight_extents(t: VocoderTensor, z: Sizes) -> Extents {
    match t {
        VocoderTensor::VqFirstOutputProj | VocoderTensor::VqRestOutputProj => ext(1, 256, 512),
        VocoderTensor::VqFirstCodebook | VocoderTensor::VqRestCodebook(_) => ext(256, z.entries, 1),
        VocoderTensor::VqFirstUsage | VocoderTensor::VqRestUsage(_) => ext(z.entries, 1, 1),
        VocoderTensor::PreConvW => ext(3, 512, 1024),
        VocoderTensor::PreConvB => ext(1024, 1, 1),
        VocoderTensor::PreTfmInputProjW => ext(1024, z.width, 1),
        VocoderTensor::PreTfmInputProjB => ext(z.width, 1, 1),
        VocoderTensor::PreTfmNormW => ext(z.width, 1, 1),
        VocoderTensor::PreTfmOutputProjW => ext(z.width, 1024, 1),
        VocoderTensor::PreTfmOutputProjB => ext(1024, 1, 1),
        VocoderTensor::Layer(_, part) => match part {
            LayerTensor::AttnQ | LayerTensor::AttnK | LayerTensor::AttnV => ext(z.width, 1024, 1),
            LayerTensor::AttnOutput => ext(1024, z.width, 1),
            LayerTensor::FfnGate | LayerTensor::FfnUp => ext(z.width, 1024, 1),
            LayerTensor::FfnDown => ext(1024, z.width, 1),
            _ => ext(z.width, 1, 1),
        },
        VocoderTensor::Upsample(_, part) => match part {
            UpsampleTensor::ConvW => ext(2, 1024, 1024),
            UpsampleTensor::DwconvW => ext(7, 1, 1024),
            UpsampleTensor::Pwconv1W => ext(1024, z.wide, 1),
            UpsampleTensor::Pwconv1B => ext(z.wide, 1, 1),
            UpsampleTensor::Pwconv2W => ext(z.wide, 1024, 1),
            _ => ext(1024, 1, 1),
        },
        VocoderTensor::Dec0ConvW => ext(7, 1024, 1536),
        VocoderTensor::Dec0ConvB => ext(1536, 1, 1),
        VocoderTensor::Residual(block, _, part) => match part {
            ResidualTensor::Conv1W => ext(7, channels_behind(block), channels_behind(block)),
            ResidualTensor::Conv2W => ext(1, channels_behind(block), channels_behind(block)),
            _ => ext(channels_behind(block), 1, 1),
        },
        VocoderTensor::Decoder(block, part) => match part {
            DecoderTensor::ConvTW => ext(
                z.kernel(block),
                channels_behind(block),
                channels_behind((block - 1) as usize),
            ),
            DecoderTensor::ConvTB => ext(channels_behind(block), 1, 1),
            _ => ext(channels_behind((block - 1) as usize), 1, 1),
        },
        VocoderTensor::Dec5SnakeAlpha | VocoderTensor::Dec5SnakeBeta => ext(96, 1, 1),
        VocoderTensor::Dec6ConvW => ext(7, 96, 1),
        VocoderTensor::Dec6ConvB => ext(1, 1, 1),
    }
}

/// The extents of the tensors that a decoding of `n` frames takes from outside: the checkpoint's,
/// and one code or position per frame.
pub open spec fn checkpoint(z: Sizes, n: int) -> spec_fn(Leaf) -> Extents {
    |leaf: Leaf|
        match leaf {
            Leaf::Weight(t) => weight_extents(t, z),
            Leaf::Codes(_) => ext(n, 1, 1),
            Leaf::Positions => ext(n, 1, 1),
        }
}

proof fn lemma_entries(a: Extents, b: Extents)
    requires
        a.n0 * a.n1 * a.n2 == b.n0 * b.n1 * b.n2,
        a.n3 == 1,
        b.n3 == 1,
    ensures
        a.entries() == b.entries(),
{
    assert(a.n0 * a.n1 * a.n2 * 1 == a.n0 * a.n1 * a.n2);
    assert(b.n0 * b.n1 * b.n2 * 1 == b.n0 * b.n1 * b.n2);
}

/// A vector of one entry per channel, laid out for the channels.
proof fn lemma_per_channel(x: Expr, size: Dim<Expr>, ch: int, s: spec_fn(Leaf) -> Extents)
    requires
        extents(x, s) == Some(ext(ch, 1, 1)),
        dim_value(size, s) == Some(ch),
    ensures
        extents(per_channel(x, size), s) == Some(ext(1, ch, 1)),
{
    assert(ch * 1 * 1 == 1 * ch * 1);
    lemma_entries(ext(ch, 1, 1), ext(1, ch, 1));
}

proof fn lemma_snake(
    w: VocoderWeights,
    x: Expr,
    alpha: VocoderTensor,
    beta: VocoderTensor,
    l: int,
    ch: int,
    s: spec_fn(Leaf) -> Extents,
)
    requires
        extents(x, s) == Some(ext(l, ch, 1)),
        s(Leaf::Weight(alpha)) == ext(ch, 1, 1),
        s(Leaf::Weight(beta)) == ext(ch, 1, 1),
    ensures
        extents(snake_if_loaded(w, x, alpha, beta), s) == Some(ext(l, ch, 1)),
{
    reveal(snake_if_loaded);
    reveal(snake);
    let channels = Dim::Extent(x, 1);
    let rate = expr(Op::Exp(weight(alpha)));
    let gain = expr(Op::Exp(expr(Op::Scale(weight(beta), Scalar::MinusOne))));
    reveal_with_fuel(extents, 3);
    assert(dim_value(channels, s) == Some(ch));
    lemma_per_channel(rate, channels, ch, s);
    lemma_per_channel(gain, channels, ch, s);
    let ax = times(x, per_channel(rate, channels));
    assert(extents(ax, s) == Some(ext(l, ch, 1)));
    let sq = expr(Op::Sqr(expr(Op::Sin(ax))));
    assert(extents(sq, s) == Some(ext(l, ch, 1)));
    assert(extents(times(sq, per_channel(gain, channels)), s) == Some(ext(l, ch, 1)));
}

proof fn lemma_channel_biased(
    w: VocoderWeights,
    x: Expr,
    bias: VocoderTensor,
    size: Dim<Expr>,
    l: int,
    ch: int,
    s: spec_fn(Leaf) -> Extents,
)
    requires
        extents(x, s) == Some(ext(l, ch, 1)),
        s(Leaf::Weight(bias)) == ext(ch, 1, 1),
        dim_value(size, s) == Some(ch),
    ensures
        extents(channel_biased_if_loaded(w, x, bias, size), s) == Some(ext(l, ch, 1)),
{
    reveal(channel_biased_if_loaded);
    lemma_per_channel(weight(bias), size, ch, s);
}

proof fn lemma_causal_conv(
    kernel: VocoderTensor,
    x: Expr,
    zeros: i32,
    dilation: i32,
    l: int,
    k: int,
    from: int,
    to: int,
    s: spec_fn(Leaf) -> Extents,
)
    requires
        extents(x, s) == Some(ext(l, from, 1)),
        s(Leaf::Weight(kernel)) == ext(k, from, to),
        zeros == dilation * (k - 1),
        l > 0,
    ensures
        extents(causal_conv(kernel, x, zeros, dilation), s) == Some(ext(l, to, 1)),
{
    reveal(causal_conv);
    let padded = expr(Op::PadFront(x, zeros));
    assert(extents(padded, s) == Some(ext(l + zeros, from, 1)));
    assert(extents(weight(kernel), s) == Some(ext(k, from, to)));
}

proof fn lemma_residual_unit(
    w: VocoderWeights,
    x: Expr,
    block: usize,
    unit: usize,
    dilation: i32,
    l: int,
    z: Sizes,
    n: int,
)
    requires
        extents(x, checkpoint(z, n)) == Some(ext(l, channels_behind(block), 1)),
        1 <= dilation <= 9,
        l > 0,
    ensures
        extents(residual_unit(w, x, block, unit, dilation), checkpoint(z, n)) == Some(
            ext(l, channels_behind(block), 1),
        ),
{
    reveal(residual_unit);
    let s = checkpoint(z, n);
    let ch = channels_behind(block);
    let t = |part: ResidualTensor| VocoderTensor::Residual(block, unit, part);
    lemma_snake(w, x, t(ResidualTensor::Act1Alpha), t(ResidualTensor::Act1Beta), l, ch, s);
    let a = snake_if_loaded(w, x, t(ResidualTensor::Act1Alpha), t(ResidualTensor::Act1Beta));
    let zeros = (6 * dilation) as i32;
    assert(zeros == dilation * (7 - 1));
    lemma_causal_conv(t(ResidualTensor::Conv1W), a, zeros, dilation, l, 7, ch, ch, s);
    let conv1 = causal_conv(t(ResidualTensor::Conv1W), a, zeros, dilation);
    let size1 = Dim::Extent(weight(t(ResidualTensor::Conv1W)), 2);
    assert(dim_value(size1, s) == Some(ch));
    lemma_channel_biased(w, conv1, t(ResidualTensor::Conv1B), size1, l, ch, s);
    let c1 = channel_biased_if_loaded(w, conv1, t(ResidualTensor::Conv1B), size1);
    lemma_snake(w, c1, t(ResidualTensor::Act2Alpha), t(ResidualTensor::Act2Beta), l, ch, s);
    let b = snake_if_loaded(w, c1, t(ResidualTensor::Act2Alpha), t(ResidualTensor::Act2Beta));
    let conv2 = expr(Op::Conv1d(weight(t(ResidualTensor::Conv2W)), b, 1));
    let size2 = Dim::Extent(weight(t(ResidualTensor::Conv2W)), 2);
    assert(dim_value(size2, s) == Some(ch));
    assert(extents(weight(t(ResidualTensor::Conv2W)), s) == Some(ext(1, ch, ch)));
    assert(extents(conv2, s) == Some(ext(l, ch, 1)));
    lemma_channel_biased(w, conv2, t(ResidualTensor::Conv2B), size2, l, ch, s);
}

/// A decoder block makes `rate` entries of each, but for those that its kernel exceeds the rate by.
proof fn lemma_decoded(
    w: VocoderWeights,
    x: Expr,
    block: usize,
    rate: i32,
    l: int,
    z: Sizes,
    n: int,
)
    requires
        1 <= block <= 4,
        extents(x, checkpoint(z, n)) == Some(ext(l, channels_behind((block - 1) as usize), 1)),
        2 <= rate <= 8,
        rate <= z.kernel(block) <= 2 * rate,
        l >= 2,
    ensures
        extents(decoded(w, x, block, rate), checkpoint(z, n)) == Some(
            ext(l * rate + rate - z.kernel(block), channels_behind(block), 1),
        ),
        l * rate + rate - z.kernel(block) >= l,
{
    reveal(decoded);
    let s = checkpoint(z, n);
    let from = channels_behind((block - 1) as usize);
    let to = channels_behind(block);
    let k = z.kernel(block);
    let t = |part: DecoderTensor| VocoderTensor::Decoder(block, part);
    lemma_snake(w, x, t(DecoderTensor::SnakeAlpha), t(DecoderTensor::SnakeBeta), l, from, s);
    let a = snake_if_loaded(w, x, t(DecoderTensor::SnakeAlpha), t(DecoderTensor::SnakeBeta));
    let kernel = weight(t(DecoderTensor::ConvTW));
    let channels = Dim::Extent(kernel, 1);
    assert(dim_value(channels, s) == Some(to));
    let flat = expr(Op::Reshape2d(a, Dim::Extent(a, 0), Dim::Extent(a, 1)));
    assert(extents(flat, s) == Some(ext(l, from, 1)));
    let long = expr(Op::ConvTranspose1d(kernel, flat, rate));
    let m = (l - 1) * rate + k;
    assert(extents(long, s) == Some(ext(m, to, 1)));
    let y = expr(Op::Reshape3d(long, Dim::Extent(long, 0), channels, Dim::Fixed(1)));
    assert(extents(y, s) == Some(ext(m, to, 1)));
    let cut = l * rate + rate - k;
    assert((l - 1) * rate == l * rate - rate) by (nonlinear_arith);
    assert(cut >= l && cut >= 1) by (nonlinear_arith)
        requires
            cut == l * rate + rate - k,
            k <= 2 * rate,
            l >= 2,
            rate >= 2,
            rate <= k,
    ;
    let trimmed = expr(Op::Trim(y, kernel, rate));
    assert(extents(trimmed, s) == Some(ext(cut, to, 1)));
    let dense = expr(Op::Cont(trimmed));
    assert(extents(dense, s) == Some(ext(cut, to, 1)));
    lemma_channel_biased(w, dense, t(DecoderTensor::ConvTB), channels, cut, to, s);
    let y0 = channel_biased_if_loaded(w, dense, t(DecoderTensor::ConvTB), channels);
    lemma_residual_unit(w, y0, block, 2, 1, cut, z, n);
    let y1 = residual_unit(w, y0, block, 2, 1);
    lemma_residual_unit(w, y1, block, 3, 3, cut, z, n);
    let y2 = residual_unit(w, y1, block, 3, 3);
    lemma_residual_unit(w, y2, block, 4, 9, cut, z, n);
}

proof fn lemma_mapped(
    t: VocoderTensor,
    x: Expr,
    from: int,
    to: int,
    l: int,
    s: spec_fn(Leaf) -> Extents,
)
    requires
        s(Leaf::Weight(t)) == ext(from, to, 1),
        extents(x, s) == Some(ext(from, l, 1)),
    ensures
        extents(mapped(t, x), s) == Some(ext(to, l, 1)),
{
    reveal(mapped);
    assert(extents(weight(t), s) == Some(ext(from, to, 1)));
}

proof fn lemma_with_vector(
    w: VocoderWeights,
    x: Expr,
    t: VocoderTensor,
    n0: int,
    n1: int,
    s: spec_fn(Leaf) -> Extents,
)
    requires
        s(Leaf::Weight(t)) == ext(n0, 1, 1),
        extents(x, s) == Some(ext(n0, n1, 1)),
    ensures
        extents(biased_if_loaded(w, x, t), s) == Some(ext(n0, n1, 1)),
        extents(scaled_if_loaded(w, x, t), s) == Some(ext(n0, n1, 1)),
        forall|eps: Real32|
            #![trigger rms_normed(x, t, eps)]
            extents(rms_normed(x, t, eps), s) == Some(ext(n0, n1, 1)),
{
    reveal(biased_if_loaded);
    reveal(scaled_if_loaded);
    assert(extents(weight(t), s) == Some(ext(n0, 1, 1)));
    assert forall|eps: Real32|
        #![trigger rms_normed(x, t, eps)]
        extents(rms_normed(x, t, eps), s) == Some(ext(n0, n1, 1)) by {
        reveal(rms_normed);
        assert(extents(expr(Op::RmsNorm(x, eps)), s) == Some(ext(n0, n1, 1)));
    }
}

/// The published dimensions, but for those that a model file may set and the number of layers.
pub open spec fn published_dimensions(c: VocoderConfig) -> bool {
    &&& c.codebook_dim == 256
    &&& c.latent_dim == 1024
    &&& c.hidden_dim == 512
    &&& c.n_heads == 16
    &&& c.decoder_dim == 1536
}

proof fn lemma_headed(
    c: VocoderConfig,
    i: usize,
    part: LayerTensor,
    x: Expr,
    n: usize,
    z: Sizes,
)
    requires
        published_dimensions(c),
        n <= i32::MAX,
        part is AttnQ || part is AttnK || part is AttnV,
        extents(x, checkpoint(z, n as int)) == Some(ext(z.width, n as int, 1)),
    ensures
        extents(headed(c, VocoderTensor::Layer(i, part), x, n), checkpoint(z, n as int)) == Some(
            ext(64, 16, n as int),
        ),
        extents(rotated(c, VocoderTensor::Layer(i, part), x, n), checkpoint(z, n as int)) == Some(
            ext(64, n as int, 16),
        ),
{
    reveal(headed);
    reveal(rotated);
    let s = checkpoint(z, n as int);
    let t = VocoderTensor::Layer(i, part);
    lemma_mapped(t, x, z.width, 1024, n as int, s);
    assert(head_dim(c) == 64);
    assert(1024 * n * 1 == 64 * 16 * n);
    lemma_entries(ext(1024, n as int, 1), ext(64, 16, n as int));
    let h = headed(c, t, x, n);
    assert(extents(h, s) == Some(ext(64, 16, n as int)));
    let p = Expr::Leaf(Leaf::Positions);
    assert(extents(p, s) == Some(ext(n as int, 1, 1)));
    let r = expr(Op::Rope(h, p, head_dim(c), c.rope_theta));
    assert(extents(r, s) == Some(ext(64, 16, n as int)));
}

proof fn lemma_attention(c: VocoderConfig, x: Expr, i: usize, n: usize, z: Sizes)
    requires
        published_dimensions(c),
        n <= i32::MAX,
        extents(x, checkpoint(z, n as int)) == Some(ext(z.width, n as int, 1)),
    ensures
        extents(attention_mix(c, x, i, n), checkpoint(z, n as int)) == Some(
            ext(1024, n as int, 1),
        ),
{
    reveal(attention_scores);
    reveal(attention_mix);
    let s = checkpoint(z, n as int);
    lemma_headed(c, i, LayerTensor::AttnQ, x, n, z);
    lemma_headed(c, i, LayerTensor::AttnK, x, n, z);
    lemma_headed(c, i, LayerTensor::AttnV, x, n, z);
    let q = rotated(c, VocoderTensor::Layer(i, LayerTensor::AttnQ), x, n);
    let k = rotated(c, VocoderTensor::Layer(i, LayerTensor::AttnK), x, n);
    let kq = expr(Op::MulMat(k, q));
    assert(extents(kq, s) == Some(ext(n as int, n as int, 16)));
    let scaled = expr(Op::Scale(kq, Scalar::InverseRoot(head_dim(c))));
    assert(extents(scaled, s) == Some(ext(n as int, n as int, 16)));
    let masked = expr(Op::DiagMaskInf(scaled));
    assert(extents(masked, s) == Some(ext(n as int, n as int, 16)));
    assert(extents(attention_scores(c, x, i, n), s) == Some(ext(n as int, n as int, 16)));
    let v = expr(
        Op::Permute(headed(c, VocoderTensor::Layer(i, LayerTensor::AttnV), x, n), 0, 2, 1, 3),
    );
    assert(extents(v, s) == Some(ext(64, n as int, 16)));
    let vt = expr(Op::Transpose(v));
    assert(extents(vt, s) == Some(ext(n as int, 64, 16)));
    let dense = expr(Op::Cont(vt));
    assert(extents(dense, s) == Some(ext(n as int, 64, 16)));
    let mixed = expr(Op::MulMat(dense, attention_scores(c, x, i, n)));
    assert(extents(mixed, s) == Some(ext(64, n as int, 16)));
    let back = expr(Op::Permute(mixed, 0, 2, 1, 3));
    assert(extents(back, s) == Some(ext(64, 16, n as int)));
    assert(head_dim(c) == 64);
    assert(c.n_heads as int * head_dim(c) as int == 1024) by (nonlinear_arith)
        requires
            c.n_heads == 16,
            head_dim(c) == 64,
    ;
    assert(64 * 16 * n == 1024 * n * 1);
    lemma_entries(ext(64, 16, n as int), ext(1024, n as int, 1));
}

proof fn lemma_transformed(
    c: VocoderConfig,
    w: VocoderWeights,
    x: Expr,
    i: usize,
    n: usize,
    z: Sizes,
)
    requires
        published_dimensions(c),
        n <= i32::MAX,
        extents(x, checkpoint(z, n as int)) == Some(ext(z.width, n as int, 1)),
    ensures
        extents(transformed(c, w, x, i, n), checkpoint(z, n as int)) == Some(
            ext(z.width, n as int, 1),
        ),
{
    reveal(transformed);
    reveal(attended);
    reveal(fed_forward);
    let s = checkpoint(z, n as int);
    let t = |part: LayerTensor| VocoderTensor::Layer(i, part);
    lemma_with_vector(w, x, t(LayerTensor::AttnNorm), z.width, n as int, s);
    let normed = rms_normed(x, t(LayerTensor::AttnNorm), c.rms_norm_eps);
    assert(extents(normed, s) == Some(ext(z.width, n as int, 1)));
    lemma_attention(c, normed, i, n, z);
    let mix = attention_mix(c, normed, i, n);
    lemma_mapped(t(LayerTensor::AttnOutput), mix, 1024, z.width, n as int, s);
    let out = mapped(t(LayerTensor::AttnOutput), mix);
    lemma_with_vector(w, out, t(LayerTensor::AttnScale), z.width, n as int, s);
    let y = attended(c, w, x, i, n);
    assert(extents(y, s) == Some(ext(z.width, n as int, 1)));
    lemma_with_vector(w, y, t(LayerTensor::FfnNorm), z.width, n as int, s);
    let inner = rms_normed(y, t(LayerTensor::FfnNorm), c.rms_norm_eps);
    assert(extents(inner, s) == Some(ext(z.width, n as int, 1)));
    lemma_mapped(t(LayerTensor::FfnGate), inner, z.width, 1024, n as int, s);
    lemma_mapped(t(LayerTensor::FfnUp), inner, z.width, 1024, n as int, s);
    let gate = expr(Op::Silu(mapped(t(LayerTensor::FfnGate), inner)));
    assert(extents(gate, s) == Some(ext(1024, n as int, 1)));
    let gated = times(gate, mapped(t(LayerTensor::FfnUp), inner));
    assert(extents(gated, s) == Some(ext(1024, n as int, 1)));
    lemma_mapped(t(LayerTensor::FfnDown), gated, 1024, z.width, n as int, s);
    let down = mapped(t(LayerTensor::FfnDown), gated);
    lemma_with_vector(w, down, t(LayerTensor::FfnScale), z.width, n as int, s);
}

proof fn lemma_layered(
    c: VocoderConfig,
    w: VocoderWeights,
    x: Expr,
    n: usize,
    count: nat,
    z: Sizes,
)
    requires
        published_dimensions(c),
        n <= i32::MAX,
        extents(x, checkpoint(z, n as int)) == Some(ext(z.width, n as int, 1)),
    ensures
        extents(layered(c, w, x, n, count), checkpoint(z, n as int)) == Some(
            ext(z.width, n as int, 1),
        ),
    decreases count,
{
    if count > 0 {
        lemma_layered(c, w, x, n, (count - 1) as nat, z);
        lemma_transformed(
            c,
            w,
            layered(c, w, x, n, (count - 1) as nat),
            (count - 1) as usize,
            n,
            z,
        );
    }
}

proof fn lemma_codebook_part(
    c: VocoderConfig,
    n: usize,
    projection: VocoderTensor,
    codebook: VocoderTensor,
    input: usize,
    z: Sizes,
)
    requires
        published_dimensions(c),
        n <= i32::MAX,
        projection is VqFirstOutputProj || projection is VqRestOutputProj,
        codebook is VqFirstCodebook || codebook is VqRestCodebook,
    ensures
        extents(codebook_part(c, n, projection, codebook, input), checkpoint(z, n as int)) == Some(
            ext(512, n as int, 1),
        ),
{
    reveal(codebook_part);
    let s = checkpoint(z, n as int);
    assert(extents(weight(projection), s) == Some(ext(1, 256, 512)));
    assert(extents(weight(codebook), s) == Some(ext(256, z.entries, 1)));
    let codes = Expr::Leaf(Leaf::Codes(input));
    assert(extents(codes, s) == Some(ext(n as int, 1, 1)));
    let matrix = expr(
        Op::Reshape2d(
            weight(projection),
            Dim::Fixed(c.codebook_dim as i64),
            Dim::Fixed(c.hidden_dim as i64),
        ),
    );
    lemma_entries(ext(1, 256, 512), ext(256, 512, 1));
    assert(extents(matrix, s) == Some(ext(256, 512, 1)));
    let rows = expr(Op::GetRows(weight(codebook), codes));
    assert(extents(rows, s) == Some(ext(256, n as int, 1)));
    let shaped = expr(
        Op::Reshape2d(rows, Dim::Fixed(c.codebook_dim as i64), Dim::Fixed(n as i64)),
    );
    assert(extents(shaped, s) == Some(ext(256, n as int, 1)));
}

proof fn lemma_rest_parts(c: VocoderConfig, n: usize, count: nat, z: Sizes)
    requires
        published_dimensions(c),
        n <= i32::MAX,
    ensures
        extents(rest_parts(c, n, count), checkpoint(z, n as int)) == Some(ext(512, n as int, 1)),
    decreases count,
{
    lemma_codebook_part(
        c,
        n,
        VocoderTensor::VqRestOutputProj,
        VocoderTensor::VqRestCodebook((count - 1) as usize),
        count as usize,
        z,
    );
    if count > 1 {
        lemma_rest_parts(c, n, (count - 1) as nat, z);
    }
}

#[verifier::rlimit(40)]
proof fn lemma_contextual(c: VocoderConfig, w: VocoderWeights, n: usize, z: Sizes)
    requires
        published_dimensions(c),
        0 < n <= i32::MAX,
    ensures
        extents(contextual(c, w, n), checkpoint(z, n as int)) == Some(ext(n as int, 1024, 1)),
{
    reveal(latent);
    reveal(contextual);
    let s = checkpoint(z, n as int);
    let l = n as int;
    lemma_codebook_part(
        c,
        n,
        VocoderTensor::VqFirstOutputProj,
        VocoderTensor::VqFirstCodebook,
        0,
        z,
    );
    lemma_rest_parts(c, n, w.rest as nat, z);
    assert(extents(latent(c, w, n), s) == Some(ext(512, l, 1)));
    let frames = Dim::Fixed(n as i64);
    let turned = expr(Op::Transpose(latent(c, w, n)));
    assert(extents(turned, s) == Some(ext(l, 512, 1)));
    let dense = expr(Op::Cont(turned));
    assert(extents(dense, s) == Some(ext(l, 512, 1)));
    let y = expr(Op::Reshape3d(dense, frames, Dim::Fixed(c.hidden_dim as i64), Dim::Fixed(1)));
    assert(extents(y, s) == Some(ext(l, 512, 1)));
    let again = expr(Op::Cont(y));
    assert(extents(again, s) == Some(ext(l, 512, 1)));
    lemma_causal_conv(VocoderTensor::PreConvW, again, 2, 1, l, 3, 512, 1024, s);
    let conv = causal_conv(VocoderTensor::PreConvW, again, 2, 1);
    let size = Dim::Fixed(c.latent_dim as i64);
    assert(dim_value(size, s) == Some(1024int));
    lemma_channel_biased(w, conv, VocoderTensor::PreConvB, size, l, 1024, s);
    let convolved = channel_biased_if_loaded(w, conv, VocoderTensor::PreConvB, size);
    let flat = expr(Op::Reshape2d(convolved, frames, size));
    assert(extents(flat, s) == Some(ext(l, 1024, 1)));
    let columns = expr(Op::Transpose(flat));
    assert(extents(columns, s) == Some(ext(1024, l, 1)));
    let held = expr(Op::Cont(columns));
    assert(extents(held, s) == Some(ext(1024, l, 1)));
    lemma_mapped(VocoderTensor::PreTfmInputProjW, held, 1024, z.width, l, s);
    let into = mapped(VocoderTensor::PreTfmInputProjW, held);
    lemma_with_vector(w, into, VocoderTensor::PreTfmInputProjB, z.width, l, s);
    let entered = biased_if_loaded(w, into, VocoderTensor::PreTfmInputProjB);
    lemma_layered(c, w, entered, n, w.count as nat, z);
    let x = layered(c, w, entered, n, w.count as nat);
    lemma_with_vector(w, x, VocoderTensor::PreTfmNormW, z.width, l, s);
    let normed = if w.holds(VocoderTensor::PreTfmNormW) {
        rms_normed(x, VocoderTensor::PreTfmNormW, c.rms_norm_eps)
    } else {
        x
    };
    assert(extents(normed, s) == Some(ext(z.width, l, 1)));
    lemma_mapped(VocoderTensor::PreTfmOutputProjW, normed, z.width, 1024, l, s);
    let out = mapped(VocoderTensor::PreTfmOutputProjW, normed);
    lemma_with_vector(w, out, VocoderTensor::PreTfmOutputProjB, 1024, l, s);
    let left = biased_if_loaded(w, out, VocoderTensor::PreTfmOutputProjB);
    let back = expr(Op::Permute(left, 1, 0, 2, 3));
    assert(extents(back, s) == Some(ext(l, 1024, 1)));
    let last = expr(Op::Cont(back));
    assert(extents(last, s) == Some(ext(l, 1024, 1)));
}

proof fn lemma_swapped(x: Expr, n0: int, n1: int, s: spec_fn(Leaf) -> Extents)
    requires
        extents(x, s) == Some(ext(n0, n1, 1)),
    ensures
        extents(swapped(x), s) == Some(ext(n1, n0, 1)),
{
    assert(extents(expr(Op::Permute(x, 1, 0, 2, 3)), s) == Some(ext(n1, n0, 1)));
}

/// An upsampling block makes two entries of each.
proof fn lemma_upsampled(w: VocoderWeights, x: Expr, i: usize, l: int, z: Sizes, n: int)
    requires
        extents(x, checkpoint(z, n)) == Some(ext(l, 1024, 1)),
        l > 0,
    ensures
        extents(upsampled(w, x, i), checkpoint(z, n)) == Some(ext(2 * l, 1024, 1)),
{
    reveal(upsampled);
    reveal(lengthened);
    reveal(depthwise_if_loaded);
    reveal(normed_if_loaded);
    reveal(pointwise);
    reveal(gained_if_loaded);
    let s = checkpoint(z, n);
    let m = 2 * l;
    let t = |part: UpsampleTensor| VocoderTensor::Upsample(i, part);
    let channels = Dim::Extent(x, 1);
    assert(dim_value(channels, s) == Some(1024int));
    let kernel = weight(t(UpsampleTensor::ConvW));
    assert(extents(kernel, s) == Some(ext(2, 1024, 1024)));
    let flat = expr(Op::Reshape2d(x, Dim::Extent(x, 0), channels));
    assert(extents(flat, s) == Some(ext(l, 1024, 1)));
    let made = expr(Op::ConvTranspose1d(kernel, flat, 2));
    assert(extents(made, s) == Some(ext(m, 1024, 1)));
    let shaped = expr(Op::Reshape3d(made, Dim::Extent(made, 0), channels, Dim::Fixed(1)));
    assert(extents(shaped, s) == Some(ext(m, 1024, 1)));
    lemma_channel_biased(w, shaped, t(UpsampleTensor::ConvB), channels, m, 1024, s);
    let long = lengthened(w, x, i);
    assert(extents(long, s) == Some(ext(m, 1024, 1)));
    let padded = expr(Op::PadFront(long, 6));
    assert(extents(padded, s) == Some(ext(m + 6, 1024, 1)));
    let apart = weight(t(UpsampleTensor::DwconvW));
    assert(extents(apart, s) == Some(ext(7, 1, 1024)));
    let conv = expr(Op::Conv1dDepthwise(apart, padded));
    assert(extents(conv, s) == Some(ext(m, 1024, 1)));
    lemma_channel_biased(w, conv, t(UpsampleTensor::DwconvB), channels, m, 1024, s);
    let deep = depthwise_if_loaded(w, long, i, channels);
    assert(extents(deep, s) == Some(ext(m, 1024, 1)));
    lemma_swapped(deep, m, 1024, s);
    let turned = swapped(deep);
    let even = expr(Op::Norm(turned, Real32 { bits: 0x3586_37bd }));
    assert(extents(even, s) == Some(ext(1024, m, 1)));
    assert(extents(weight(t(UpsampleTensor::NormW)), s) == Some(ext(1024, 1, 1)));
    assert(extents(weight(t(UpsampleTensor::NormB)), s) == Some(ext(1024, 1, 1)));
    let gained = times(even, weight(t(UpsampleTensor::NormW)));
    assert(extents(gained, s) == Some(ext(1024, m, 1)));
    let inner = normed_if_loaded(w, turned, i);
    assert(extents(inner, s) == Some(ext(1024, m, 1)));
    lemma_mapped(t(UpsampleTensor::Pwconv1W), inner, 1024, z.wide, m, s);
    let first = mapped(t(UpsampleTensor::Pwconv1W), inner);
    lemma_with_vector(w, first, t(UpsampleTensor::Pwconv1B), z.wide, m, s);
    let wide = biased_if_loaded(w, first, t(UpsampleTensor::Pwconv1B));
    let gelu = expr(Op::Gelu(wide));
    assert(extents(gelu, s) == Some(ext(z.wide, m, 1)));
    lemma_mapped(t(UpsampleTensor::Pwconv2W), gelu, z.wide, 1024, m, s);
    let second = mapped(t(UpsampleTensor::Pwconv2W), gelu);
    lemma_with_vector(w, second, t(UpsampleTensor::Pwconv2B), 1024, m, s);
    let narrow = pointwise(w, inner, i);
    assert(extents(narrow, s) == Some(ext(1024, m, 1)));
    lemma_swapped(narrow, 1024, m, s);
    lemma_per_channel(weight(t(UpsampleTensor::Gamma)), channels, 1024, s);
    let last = gained_if_loaded(w, swapped(narrow), i, channels);
    assert(extents(last, s) == Some(ext(m, 1024, 1)));
}

/// The number of samples of `n` frames: 1920 for each, but for what the kernels of the decoder's
/// transposed convolutions exceed their strides by.
proof fn lemma_waveform(c: VocoderConfig, w: VocoderWeights, n: usize, z: Sizes)
    requires
        published_dimensions(c),
        0 < n <= i32::MAX,
        8 <= z.k1 <= 16,
        5 <= z.k2 <= 10,
        4 <= z.k3 <= 8,
        3 <= z.k4 <= 6,
    ensures
        extents(waveform(c, w, n), checkpoint(z, n as int)) == Some(
            ext(
                1920 * n + 60 * (8 - z.k1) + 12 * (5 - z.k2) + 3 * (4 - z.k3) + (3 - z.k4),
                1,
                1,
            ),
        ),
{
    reveal(decoder_entry);
    reveal(decoder_blocks);
    reveal(decoder_exit);
    let s = checkpoint(z, n as int);
    lemma_contextual(c, w, n, z);
    let x = contextual(c, w, n);
    lemma_upsampled(w, x, 0, n as int, z, n as int);
    let up = upsampled(w, x, 0);
    lemma_upsampled(w, up, 1, 2 * n, z, n as int);
    let upper = upsampled(w, up, 1);
    let l0 = 4 * n;
    lemma_causal_conv(VocoderTensor::Dec0ConvW, upper, 6, 1, l0, 7, 1024, 1536, s);
    let conv = causal_conv(VocoderTensor::Dec0ConvW, upper, 6, 1);
    let size = Dim::Fixed(c.decoder_dim as i64);
    assert(dim_value(size, s) == Some(1536int));
    lemma_channel_biased(w, conv, VocoderTensor::Dec0ConvB, size, l0, 1536, s);
    let y0 = decoder_entry(c, w, n);
    lemma_decoded(w, y0, 1, 8, l0, z, n as int);
    let y1 = decoded(w, y0, 1, 8);
    let l1 = l0 * 8 + 8 - z.k1;
    lemma_decoded(w, y1, 2, 5, l1, z, n as int);
    let y2 = decoded(w, y1, 2, 5);
    let l2 = l1 * 5 + 5 - z.k2;
    lemma_decoded(w, y2, 3, 4, l2, z, n as int);
    let y3 = decoded(w, y2, 3, 4);
    let l3 = l2 * 4 + 4 - z.k3;
    lemma_decoded(w, y3, 4, 3, l3, z, n as int);
    let y4 = decoded(w, y3, 4, 3);
    let l4 = l3 * 3 + 3 - z.k4;
    let alpha = VocoderTensor::Dec5SnakeAlpha;
    let beta = VocoderTensor::Dec5SnakeBeta;
    lemma_snake(w, y4, alpha, beta, l4, 96, s);
    let active = snake_if_loaded(w, y4, alpha, beta);
    lemma_causal_conv(VocoderTensor::Dec6ConvW, active, 6, 1, l4, 7, 96, 1, s);
    let last = causal_conv(VocoderTensor::Dec6ConvW, active, 6, 1);
    let one: Dim<Expr> = Dim::Fixed(1);
    assert(dim_value(one, s) == Some(1int));
    lemma_channel_biased(w, last, VocoderTensor::Dec6ConvB, one, l4, 1, s);
    let exit = channel_biased_if_loaded(w, last, VocoderTensor::Dec6ConvB, one);
    let bounded = expr(Op::Tanh(exit));
    assert(extents(bounded, s) == Some(ext(l4, 1, 1)));
    let flat = expr(Op::Reshape1d(bounded, Dim::Extent(bounded, 0)));
    assert(extents(flat, s) == Some(ext(l4, 1, 1)));
    assert(extents(expr(Op::Cont(flat)), s) == Some(ext(l4, 1, 1)));
}

/// The graph of a decoding computes 1920 samples for each frame, but for what the kernels of the
/// decoder's transposed convolutions exceed their strides by: whichever tensors are loaded, and
/// however many codebooks and layers there are.
pub proof fn lemma_audio_length(
    v: Vocoder,
    codes: Vec<i32>,
    n: usize,
    plan: DecodePlan,
    z: Sizes,
)
    requires
        call_ensures(Vocoder::decode, (&v, &codes, n), Ok(Some(plan))),
        published_dimensions(v.config),
        n <= i32::MAX,
        8 <= z.k1 <= 16,
        5 <= z.k2 <= 10,
        4 <= z.k3 <= 8,
        3 <= z.k4 <= 6,
    ensures
        node_extents(plan.graph.ops(), plan.output as int, checkpoint(z, n as int)) == Some(
            ext(
                1920 * n + 60 * (8 - z.k1) + 12 * (5 - z.k2) + 3 * (4 - z.k3) + (3 - z.k4),
                1,
                1,
            ),
        ),
{
    plan.graph.lemma_lengths();
    lemma_node_extents(plan.graph, plan.output as int, checkpoint(z, n as int));
    lemma_waveform(v.config, v.weights, n, z);
}

/// With kernels twice as long as the strides, each further frame adds 1920 samples: the sample rate
/// divided by the number of frames per second.
pub proof fn lemma_frame_adds_samples(
    v: Vocoder,
    codes: Vec<i32>,
    more: Vec<i32>,
    n: usize,
    plan: DecodePlan,
    longer: DecodePlan,
    z: Sizes,
)
    requires
        call_ensures(Vocoder::decode, (&v, &codes, n), Ok(Some(plan))),
        call_ensures(Vocoder::decode, (&v, &more, (n + 1) as usize), Ok(Some(longer))),
        published_dimensions(v.config),
        n < i32::MAX,
        z.k1 == 16,
        z.k2 == 10,
        z.k3 == 8,
        z.k4 == 6,
    ensures
        ({
            let before = node_extents(
                plan.graph.ops(),
                plan.output as int,
                checkpoint(z, n as int),
            );
            let after = node_extents(
                longer.graph.ops(),
                longer.output as int,
                checkpoint(z, n + 1),
            );
            &&& before is Some && after is Some
            &&& before->0.n0 == 1920 * n - 555
            &&& after->0.n0 == before->0.n0 + 1920
        }),
{
    lemma_audio_length(v, codes, n, plan, z);
    lemma_audio_length(v, more, (n + 1) as usize, longer, z);
}

} // verus!
