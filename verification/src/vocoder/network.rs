//! The vocoder's network: what it computes, and the graph that computes it.

use vstd::prelude::*;
use crate::real32::Real32;
use crate::vocoder::config::VocoderConfig;
use crate::vocoder::graph::{Dim, Graph, Leaf, Op, Scalar};
use crate::vocoder::tensors::{
    DecoderTensor, LayerTensor, ResidualTensor, UpsampleTensor, VocoderTensor,
};
use crate::vocoder::weights::VocoderWeights;
#[allow(unused_imports)]
use crate::vocoder::graph::{dim_below, dim_denoted, expr, Expr};

verus! {

/// A loaded tensor.
pub open spec fn weight(t: VocoderTensor) -> Expr {
    Expr::Leaf(Leaf::Weight(t))
}

/// A sum.
pub open spec fn plus(a: Expr, b: Expr) -> Expr {
    expr(Op::Add(a, b))
}

/// An entry-wise product.
pub open spec fn times(a: Expr, b: Expr) -> Expr {
    expr(Op::Mul(a, b))
}

/// A loaded matrix applied to an expression.
#[verifier::opaque]
pub open spec fn mapped(t: VocoderTensor, x: Expr) -> Expr {
    expr(Op::MulMat(weight(t), x))
}

/// A vector laid out so that each of its `size` entries serves one channel.
pub open spec fn per_channel(x: Expr, size: Dim<Expr>) -> Expr {
    expr(Op::Reshape3d(x, Dim::Fixed(1), size, Dim::Fixed(1)))
}

/// Root-mean-square normalisation with gains.
#[verifier::opaque]
pub open spec fn rms_normed(x: Expr, gains: VocoderTensor, eps: Real32) -> Expr {
    times(expr(Op::RmsNorm(x, eps)), weight(gains))
}

/// The snake activation, channel by channel: `x + sin(x * exp(alpha))^2 * exp(-beta)`.
#[verifier::opaque]
pub open spec fn snake(x: Expr, alpha: VocoderTensor, beta: VocoderTensor) -> Expr {
    let channels = Dim::Extent(x, 1);
    let rate = per_channel(expr(Op::Exp(weight(alpha))), channels);
    let gain = per_channel(
        expr(Op::Exp(expr(Op::Scale(weight(beta), Scalar::MinusOne)))),
        channels,
    );
    plus(x, times(expr(Op::Sqr(expr(Op::Sin(times(x, rate))))), gain))
}

/// The snake activation where both of its tensors are loaded.
#[verifier::opaque]
pub open spec fn snake_if_loaded(
    w: VocoderWeights,
    x: Expr,
    alpha: VocoderTensor,
    beta: VocoderTensor,
) -> Expr {
    if w.holds(alpha) && w.holds(beta) {
        snake(x, alpha, beta)
    } else {
        x
    }
}

/// The product with a tensor where it is loaded.
#[verifier::opaque]
pub open spec fn scaled_if_loaded(w: VocoderWeights, x: Expr, scale: VocoderTensor) -> Expr {
    if w.holds(scale) {
        times(x, weight(scale))
    } else {
        x
    }
}

/// The sum with a tensor where it is loaded.
#[verifier::opaque]
pub open spec fn biased_if_loaded(w: VocoderWeights, x: Expr, bias: VocoderTensor) -> Expr {
    if w.holds(bias) {
        plus(x, weight(bias))
    } else {
        x
    }
}

/// The sum with a tensor, one entry per channel, where it is loaded.
#[verifier::opaque]
pub open spec fn channel_biased_if_loaded(
    w: VocoderWeights,
    x: Expr,
    bias: VocoderTensor,
    channels: Dim<Expr>,
) -> Expr {
    if w.holds(bias) {
        plus(x, per_channel(weight(bias), channels))
    } else {
        x
    }
}

/// The causal convolution: as many zeros in front as make the output as long as the input.
#[verifier::opaque]
pub open spec fn causal_conv(kernel: VocoderTensor, x: Expr, zeros: i32, dilation: i32) -> Expr {
    expr(Op::Conv1d(weight(kernel), expr(Op::PadFront(x, zeros)), dilation))
}

/// The size of one attention head.
pub open spec fn head_dim(c: VocoderConfig) -> i32 {
    (c.latent_dim as int / c.n_heads as int) as i32
}

/// What a projection makes of the frames, head by head.
#[verifier::opaque]
pub open spec fn headed(
    c: VocoderConfig,
    projection: VocoderTensor,
    x: Expr,
    n_frames: usize,
) -> Expr {
    expr(
        Op::Reshape3d(
            mapped(projection, x),
            Dim::Fixed(head_dim(c) as i64),
            Dim::Fixed(c.n_heads as i64),
            Dim::Fixed(n_frames as i64),
        ),
    )
}

/// What a projection makes of the frames, head by head and rotated by the frames' positions.
#[verifier::opaque]
pub open spec fn rotated(
    c: VocoderConfig,
    projection: VocoderTensor,
    x: Expr,
    n_frames: usize,
) -> Expr {
    expr(
        Op::Permute(
            expr(
                Op::Rope(
                    headed(c, projection, x, n_frames),
                    Expr::Leaf(Leaf::Positions),
                    head_dim(c),
                    c.rope_theta,
                ),
            ),
            0,
            2,
            1,
            3,
        ),
    )
}

/// How much each frame attends to itself and to those before it.
#[verifier::opaque]
pub open spec fn attention_scores(c: VocoderConfig, x: Expr, i: usize, n_frames: usize) -> Expr {
    let q = rotated(c, VocoderTensor::Layer(i, LayerTensor::AttnQ), x, n_frames);
    let k = rotated(c, VocoderTensor::Layer(i, LayerTensor::AttnK), x, n_frames);
    expr(
        Op::SoftMax(
            expr(
                Op::DiagMaskInf(
                    expr(Op::Scale(expr(Op::MulMat(k, q)), Scalar::InverseRoot(head_dim(c)))),
                ),
            ),
        ),
    )
}

/// What the frames attend to, with the heads side by side.
#[verifier::opaque]
pub open spec fn attention_mix(c: VocoderConfig, x: Expr, i: usize, n_frames: usize) -> Expr {
    let v = expr(
        Op::Permute(
            headed(c, VocoderTensor::Layer(i, LayerTensor::AttnV), x, n_frames),
            0,
            2,
            1,
            3,
        ),
    );
    let mixed = expr(
        Op::MulMat(
            expr(Op::Cont(expr(Op::Transpose(v)))),
            attention_scores(c, x, i, n_frames),
        ),
    );
    expr(
        Op::Cont2d(
            expr(Op::Permute(mixed, 0, 2, 1, 3)),
            (c.n_heads as int * head_dim(c) as int) as i64,
            n_frames as i64,
        ),
    )
}

/// Causal self-attention over the frames, added to its input.
#[verifier::opaque]
pub open spec fn attended(
    c: VocoderConfig,
    w: VocoderWeights,
    x: Expr,
    i: usize,
    n_frames: usize,
) -> Expr {
    let normed = rms_normed(x, VocoderTensor::Layer(i, LayerTensor::AttnNorm), c.rms_norm_eps);
    plus(
        x,
        scaled_if_loaded(
            w,
            mapped(
                VocoderTensor::Layer(i, LayerTensor::AttnOutput),
                attention_mix(c, normed, i, n_frames),
            ),
            VocoderTensor::Layer(i, LayerTensor::AttnScale),
        ),
    )
}

/// A gated feed-forward step, added to its input.
#[verifier::opaque]
pub open spec fn fed_forward(c: VocoderConfig, w: VocoderWeights, x: Expr, i: usize) -> Expr {
    let normed = rms_normed(x, VocoderTensor::Layer(i, LayerTensor::FfnNorm), c.rms_norm_eps);
    let gated = times(
        expr(Op::Silu(mapped(VocoderTensor::Layer(i, LayerTensor::FfnGate), normed))),
        mapped(VocoderTensor::Layer(i, LayerTensor::FfnUp), normed),
    );
    plus(
        x,
        scaled_if_loaded(
            w,
            mapped(VocoderTensor::Layer(i, LayerTensor::FfnDown), gated),
            VocoderTensor::Layer(i, LayerTensor::FfnScale),
        ),
    )
}

/// One transformer layer: causal self-attention over the frames, then a gated feed-forward step.
#[verifier::opaque]
pub open spec fn transformed(
    c: VocoderConfig,
    w: VocoderWeights,
    x: Expr,
    i: usize,
    n_frames: usize,
) -> Expr {
    fed_forward(c, w, attended(c, w, x, i, n_frames), i)
}

/// Frames and channels swapped.
pub open spec fn swapped(x: Expr) -> Expr {
    expr(Op::Cont(expr(Op::Permute(x, 1, 0, 2, 3))))
}

/// The transposed convolution of an upsampling block, which doubles the length.
#[verifier::opaque]
pub open spec fn lengthened(w: VocoderWeights, x: Expr, i: usize) -> Expr {
    let channels = Dim::Extent(x, 1);
    let long = expr(
        Op::ConvTranspose1d(
            weight(VocoderTensor::Upsample(i, UpsampleTensor::ConvW)),
            expr(Op::Reshape2d(x, Dim::Extent(x, 0), channels)),
            2,
        ),
    );
    channel_biased_if_loaded(
        w,
        expr(Op::Reshape3d(long, Dim::Extent(long, 0), channels, Dim::Fixed(1))),
        VocoderTensor::Upsample(i, UpsampleTensor::ConvB),
        channels,
    )
}

/// The depthwise convolution of an upsampling block, where it is loaded.
#[verifier::opaque]
pub open spec fn depthwise_if_loaded(
    w: VocoderWeights,
    x: Expr,
    i: usize,
    channels: Dim<Expr>,
) -> Expr {
    if w.holds(VocoderTensor::Upsample(i, UpsampleTensor::DwconvW)) {
        channel_biased_if_loaded(
            w,
            expr(
                Op::Conv1dDepthwise(
                    weight(VocoderTensor::Upsample(i, UpsampleTensor::DwconvW)),
                    expr(Op::PadFront(x, 6)),
                ),
            ),
            VocoderTensor::Upsample(i, UpsampleTensor::DwconvB),
            channels,
        )
    } else {
        x
    }
}

/// The normalisation of an upsampling block, where it is loaded.
#[verifier::opaque]
pub open spec fn normed_if_loaded(w: VocoderWeights, x: Expr, i: usize) -> Expr {
    if w.holds(VocoderTensor::Upsample(i, UpsampleTensor::NormW)) && w.holds(
        VocoderTensor::Upsample(i, UpsampleTensor::NormB),
    ) {
        plus(
            times(
                expr(Op::Norm(x, Real32 { bits: 0x3586_37bd })),
                weight(VocoderTensor::Upsample(i, UpsampleTensor::NormW)),
            ),
            weight(VocoderTensor::Upsample(i, UpsampleTensor::NormB)),
        )
    } else {
        x
    }
}

/// The two pointwise convolutions of an upsampling block.
#[verifier::opaque]
pub open spec fn pointwise(w: VocoderWeights, x: Expr, i: usize) -> Expr {
    let wide = biased_if_loaded(
        w,
        mapped(VocoderTensor::Upsample(i, UpsampleTensor::Pwconv1W), x),
        VocoderTensor::Upsample(i, UpsampleTensor::Pwconv1B),
    );
    biased_if_loaded(
        w,
        mapped(VocoderTensor::Upsample(i, UpsampleTensor::Pwconv2W), expr(Op::Gelu(wide))),
        VocoderTensor::Upsample(i, UpsampleTensor::Pwconv2B),
    )
}

/// The gains of an upsampling block, where they are loaded.
#[verifier::opaque]
pub open spec fn gained_if_loaded(
    w: VocoderWeights,
    x: Expr,
    i: usize,
    channels: Dim<Expr>,
) -> Expr {
    if w.holds(VocoderTensor::Upsample(i, UpsampleTensor::Gamma)) {
        times(
            x,
            per_channel(weight(VocoderTensor::Upsample(i, UpsampleTensor::Gamma)), channels),
        )
    } else {
        x
    }
}

/// One upsampling block: a transposed convolution that doubles the length, then a convolutional
/// step added to its input.
#[verifier::opaque]
pub open spec fn upsampled(w: VocoderWeights, x: Expr, i: usize) -> Expr {
    let channels = Dim::Extent(x, 1);
    let long = lengthened(w, x, i);
    let inner = normed_if_loaded(w, swapped(depthwise_if_loaded(w, long, i, channels)), i);
    plus(long, gained_if_loaded(w, swapped(pointwise(w, inner, i)), i, channels))
}

/// One residual unit: a dilated and a plain convolution behind activations, added to the input.
#[verifier::opaque]
pub open spec fn residual_unit(
    w: VocoderWeights,
    x: Expr,
    block: usize,
    unit: usize,
    dilation: i32,
) -> Expr {
    let t = |part: ResidualTensor| VocoderTensor::Residual(block, unit, part);
    let a = snake_if_loaded(w, x, t(ResidualTensor::Act1Alpha), t(ResidualTensor::Act1Beta));
    let c1 = channel_biased_if_loaded(
        w,
        causal_conv(t(ResidualTensor::Conv1W), a, (6 * dilation) as i32, dilation),
        t(ResidualTensor::Conv1B),
        Dim::Extent(weight(t(ResidualTensor::Conv1W)), 2),
    );
    let b = snake_if_loaded(w, c1, t(ResidualTensor::Act2Alpha), t(ResidualTensor::Act2Beta));
    let c2 = channel_biased_if_loaded(
        w,
        expr(Op::Conv1d(weight(t(ResidualTensor::Conv2W)), b, 1)),
        t(ResidualTensor::Conv2B),
        Dim::Extent(weight(t(ResidualTensor::Conv2W)), 2),
    );
    plus(x, c2)
}

/// One decoder block: an activation, a transposed convolution of the given stride whose surplus is
/// cut off on either side, and three residual units of dilations one, three and nine.
#[verifier::opaque]
pub open spec fn decoded(w: VocoderWeights, x: Expr, block: usize, rate: i32) -> Expr {
    let t = |part: DecoderTensor| VocoderTensor::Decoder(block, part);
    let a = snake_if_loaded(w, x, t(DecoderTensor::SnakeAlpha), t(DecoderTensor::SnakeBeta));
    let kernel = weight(t(DecoderTensor::ConvTW));
    let channels = Dim::Extent(kernel, 1);
    let long = expr(
        Op::ConvTranspose1d(
            kernel,
            expr(Op::Reshape2d(a, Dim::Extent(a, 0), Dim::Extent(a, 1))),
            rate,
        ),
    );
    let y = expr(Op::Reshape3d(long, Dim::Extent(long, 0), channels, Dim::Fixed(1)));
    let z = channel_biased_if_loaded(
        w,
        expr(Op::Cont(expr(Op::Trim(y, kernel, rate)))),
        t(DecoderTensor::ConvTB),
        channels,
    );
    residual_unit(
        w,
        residual_unit(w, residual_unit(w, z, block, 2, 1), block, 3, 3),
        block,
        4,
        9,
    )
}

/// A vocoder: its dimensions and its loaded tensors.
pub struct Vocoder {
    pub config: VocoderConfig,
    pub weights: VocoderWeights,
}

impl Vocoder {
    /// The vocoder's dimensions.
    pub fn config(&self) -> (r: &VocoderConfig)
        ensures
            *r == self.config,
    {
        &self.config
    }

    fn weight_node(g: &mut Graph, t: VocoderTensor) -> (r: usize)
        requires
            old(g).wf(),
        ensures
            final(g).wf(),
            old(g).grows_to(*final(g)),
            final(g).exprs() == old(g).exprs().push(weight(t)),
            r == old(g).exprs().len(),
    {
        g.add_node(Op::Input(Leaf::Weight(t)))
    }

    pub(crate) fn apply_mapped(g: &mut Graph, t: VocoderTensor, x: usize) -> (r: usize)
        requires
            old(g).wf(),
            x < old(g).exprs().len(),
        ensures
            final(g).wf(),
            old(g).grows_to(*final(g)),
            r < final(g).exprs().len(),
            final(g).exprs()[r as int] == mapped(t, old(g).exprs()[x as int]),
    {
        reveal(mapped);
        let w = Self::weight_node(g, t);
        g.add_node(Op::MulMat(w, x))
    }

    /// Appends the snake activation.
    pub fn apply_snake(
        g: &mut Graph,
        x: usize,
        alpha: VocoderTensor,
        beta: VocoderTensor,
    ) -> (r: usize)
        requires
            old(g).wf(),
            x < old(g).exprs().len(),
        ensures
            final(g).wf(),
            old(g).grows_to(*final(g)),
            r < final(g).exprs().len(),
            final(g).exprs()[r as int] == snake(old(g).exprs()[x as int], alpha, beta),
    {
        reveal(snake);
        let a = Self::weight_node(g, alpha);
        let alpha_exp = g.add_node(Op::Exp(a));
        let rate = g.add_node(
            Op::Reshape3d(alpha_exp, Dim::Fixed(1), Dim::Extent(x, 1), Dim::Fixed(1)),
        );
        let ax = g.add_node(Op::Mul(x, rate));
        let sin_ax = g.add_node(Op::Sin(ax));
        let sin_sq = g.add_node(Op::Sqr(sin_ax));
        let b = Self::weight_node(g, beta);
        let neg_beta = g.add_node(Op::Scale(b, Scalar::MinusOne));
        let inv_beta_exp = g.add_node(Op::Exp(neg_beta));
        let gain = g.add_node(
            Op::Reshape3d(inv_beta_exp, Dim::Fixed(1), Dim::Extent(x, 1), Dim::Fixed(1)),
        );
        let scaled_sin = g.add_node(Op::Mul(sin_sq, gain));
        g.add_node(Op::Add(x, scaled_sin))
    }

    /// Appends root-mean-square normalisation with gains.
    pub fn apply_rms_norm(g: &mut Graph, x: usize, gains: VocoderTensor, eps: Real32) -> (r: usize)
        requires
            old(g).wf(),
            x < old(g).exprs().len(),
        ensures
            final(g).wf(),
            old(g).grows_to(*final(g)),
            r < final(g).exprs().len(),
            final(g).exprs()[r as int] == rms_normed(old(g).exprs()[x as int], gains, eps),
    {
        reveal(rms_normed);
        let normed = g.add_node(Op::RmsNorm(x, eps));
        let w = Self::weight_node(g, gains);
        g.add_node(Op::Mul(normed, w))
    }

    pub(crate) fn apply_snake_if_loaded(
        &self,
        g: &mut Graph,
        x: usize,
        alpha: VocoderTensor,
        beta: VocoderTensor,
    ) -> (r: usize)
        requires
            old(g).wf(),
            x < old(g).exprs().len(),
        ensures
            final(g).wf(),
            old(g).grows_to(*final(g)),
            r < final(g).exprs().len(),
            final(g).exprs()[r as int] == snake_if_loaded(
                self.weights,
                old(g).exprs()[x as int],
                alpha,
                beta,
            ),
    {
        reveal(snake_if_loaded);
        if self.weights.has(alpha) && self.weights.has(beta) {
            Self::apply_snake(g, x, alpha, beta)
        } else {
            x
        }
    }

    fn apply_scale_if_loaded(&self, g: &mut Graph, x: usize, scale: VocoderTensor) -> (r: usize)
        requires
            old(g).wf(),
            x < old(g).exprs().len(),
        ensures
            final(g).wf(),
            old(g).grows_to(*final(g)),
            r < final(g).exprs().len(),
            final(g).exprs()[r as int] == scaled_if_loaded(
                self.weights,
                old(g).exprs()[x as int],
                scale,
            ),
    {
        reveal(scaled_if_loaded);
        if self.weights.has(scale) {
            let w = Self::weight_node(g, scale);
            g.add_node(Op::Mul(x, w))
        } else {
            x
        }
    }

    pub(crate) fn apply_bias_if_loaded(&self, g: &mut Graph, x: usize, bias: VocoderTensor) -> (r: usize)
        requires
            old(g).wf(),
            x < old(g).exprs().len(),
        ensures
            final(g).wf(),
            old(g).grows_to(*final(g)),
            r < final(g).exprs().len(),
            final(g).exprs()[r as int] == biased_if_loaded(
                self.weights,
                old(g).exprs()[x as int],
                bias,
            ),
    {
        reveal(biased_if_loaded);
        if self.weights.has(bias) {
            let w = Self::weight_node(g, bias);
            g.add_node(Op::Add(x, w))
        } else {
            x
        }
    }

    pub(crate) fn apply_channel_bias_if_loaded(
        &self,
        g: &mut Graph,
        x: usize,
        bias: VocoderTensor,
        channels: Dim<usize>,
    ) -> (r: usize)
        requires
            old(g).wf(),
            x < old(g).exprs().len(),
            dim_below(channels, old(g).exprs().len() as int),
        ensures
            final(g).wf(),
            old(g).grows_to(*final(g)),
            r < final(g).exprs().len(),
            final(g).exprs()[r as int] == channel_biased_if_loaded(
                self.weights,
                old(g).exprs()[x as int],
                bias,
                dim_denoted(channels, old(g).exprs()),
            ),
    {
        reveal(channel_biased_if_loaded);
        if self.weights.has(bias) {
            let w = Self::weight_node(g, bias);
            let b = g.add_node(Op::Reshape3d(w, Dim::Fixed(1), channels, Dim::Fixed(1)));
            g.add_node(Op::Add(x, b))
        } else {
            x
        }
    }

    pub(crate) fn apply_causal_conv(
        g: &mut Graph,
        kernel: VocoderTensor,
        x: usize,
        zeros: i32,
        dilation: i32,
    ) -> (r: usize)
        requires
            old(g).wf(),
            x < old(g).exprs().len(),
        ensures
            final(g).wf(),
            old(g).grows_to(*final(g)),
            r < final(g).exprs().len(),
            final(g).exprs()[r as int] == causal_conv(
                kernel,
                old(g).exprs()[x as int],
                zeros,
                dilation,
            ),
    {
        reveal(causal_conv);
        let padded = g.add_node(Op::PadFront(x, zeros));
        let w = Self::weight_node(g, kernel);
        g.add_node(Op::Conv1d(w, padded, dilation))
    }

    fn apply_heads(
        &self,
        g: &mut Graph,
        projection: VocoderTensor,
        x: usize,
        n_frames: usize,
    ) -> (r: usize)
        requires
            old(g).wf(),
            x < old(g).exprs().len(),
            self.config.n_heads > 0,
            self.config.latent_dim >= 0,
        ensures
            final(g).wf(),
            old(g).grows_to(*final(g)),
            r < final(g).exprs().len(),
            final(g).exprs()[r as int] == headed(
                self.config,
                projection,
                old(g).exprs()[x as int],
                n_frames,
            ),
    {
        reveal(headed);
        let c = self.config;
        let head_dim: i32 = c.latent_dim / c.n_heads;
        let y = Self::apply_mapped(g, projection, x);
        g.add_node(
            Op::Reshape3d(
                y,
                Dim::Fixed(head_dim as i64),
                Dim::Fixed(c.n_heads as i64),
                Dim::Fixed(n_frames as i64),
            ),
        )
    }

    fn apply_rotated(
        &self,
        g: &mut Graph,
        projection: VocoderTensor,
        x: usize,
        n_frames: usize,
        positions: usize,
    ) -> (r: usize)
        requires
            old(g).wf(),
            x < old(g).exprs().len(),
            positions < old(g).exprs().len(),
            old(g).exprs()[positions as int] == Expr::Leaf(Leaf::Positions),
            self.config.n_heads > 0,
            self.config.latent_dim >= 0,
        ensures
            final(g).wf(),
            old(g).grows_to(*final(g)),
            r < final(g).exprs().len(),
            final(g).exprs()[r as int] == rotated(
                self.config,
                projection,
                old(g).exprs()[x as int],
                n_frames,
            ),
    {
        reveal(rotated);
        let c = self.config;
        let head_dim: i32 = c.latent_dim / c.n_heads;
        let heads = self.apply_heads(g, projection, x, n_frames);
        let turned = g.add_node(Op::Rope(heads, positions, head_dim, c.rope_theta));
        g.add_node(Op::Permute(turned, 0, 2, 1, 3))
    }

    fn apply_attention_scores(
        &self,
        g: &mut Graph,
        x: usize,
        i: usize,
        n_frames: usize,
        positions: usize,
    ) -> (r: usize)
        requires
            old(g).wf(),
            x < old(g).exprs().len(),
            positions < old(g).exprs().len(),
            old(g).exprs()[positions as int] == Expr::Leaf(Leaf::Positions),
            self.config.n_heads > 0,
            self.config.latent_dim >= 0,
        ensures
            final(g).wf(),
            old(g).grows_to(*final(g)),
            r < final(g).exprs().len(),
            final(g).exprs()[r as int] == attention_scores(
                self.config,
                old(g).exprs()[x as int],
                i,
                n_frames,
            ),
    {
        reveal(attention_scores);
        let head_dim: i32 = self.config.latent_dim / self.config.n_heads;
        let q = self.apply_rotated(
            g,
            VocoderTensor::Layer(i, LayerTensor::AttnQ),
            x,
            n_frames,
            positions,
        );
        let k = self.apply_rotated(
            g,
            VocoderTensor::Layer(i, LayerTensor::AttnK),
            x,
            n_frames,
            positions,
        );
        let kq = g.add_node(Op::MulMat(k, q));
        let scaled = g.add_node(Op::Scale(kq, Scalar::InverseRoot(head_dim)));
        let masked = g.add_node(Op::DiagMaskInf(scaled));
        g.add_node(Op::SoftMax(masked))
    }

    fn apply_attention_mix(
        &self,
        g: &mut Graph,
        x: usize,
        i: usize,
        n_frames: usize,
        positions: usize,
    ) -> (r: usize)
        requires
            old(g).wf(),
            x < old(g).exprs().len(),
            positions < old(g).exprs().len(),
            old(g).exprs()[positions as int] == Expr::Leaf(Leaf::Positions),
            self.config.n_heads > 0,
            self.config.latent_dim >= 0,
        ensures
            final(g).wf(),
            old(g).grows_to(*final(g)),
            r < final(g).exprs().len(),
            final(g).exprs()[r as int] == attention_mix(
                self.config,
                old(g).exprs()[x as int],
                i,
                n_frames,
            ),
    {
        reveal(attention_mix);
        let c = self.config;
        let head_dim: i32 = c.latent_dim / c.n_heads;
        assert(0 <= c.n_heads * head_dim <= c.latent_dim) by (nonlinear_arith)
            requires
                c.n_heads > 0,
                c.latent_dim >= 0,
                head_dim == c.latent_dim as int / c.n_heads as int,
        ;
        let width: i64 = c.n_heads as i64 * head_dim as i64;
        let heads = self.apply_heads(g, VocoderTensor::Layer(i, LayerTensor::AttnV), x, n_frames);
        let v = g.add_node(Op::Permute(heads, 0, 2, 1, 3));
        let scores = self.apply_attention_scores(g, x, i, n_frames, positions);
        let turned = g.add_node(Op::Transpose(v));
        let copied = g.add_node(Op::Cont(turned));
        let mixed = g.add_node(Op::MulMat(copied, scores));
        let by_frame = g.add_node(Op::Permute(mixed, 0, 2, 1, 3));
        g.add_node(Op::Cont2d(by_frame, width, n_frames as i64))
    }

    fn apply_attention(
        &self,
        g: &mut Graph,
        x: usize,
        i: usize,
        n_frames: usize,
        positions: usize,
    ) -> (r: usize)
        requires
            old(g).wf(),
            x < old(g).exprs().len(),
            positions < old(g).exprs().len(),
            old(g).exprs()[positions as int] == Expr::Leaf(Leaf::Positions),
            self.config.n_heads > 0,
            self.config.latent_dim >= 0,
        ensures
            final(g).wf(),
            old(g).grows_to(*final(g)),
            r < final(g).exprs().len(),
            final(g).exprs()[r as int] == attended(
                self.config,
                self.weights,
                old(g).exprs()[x as int],
                i,
                n_frames,
            ),
    {
        reveal(attended);
        let normed = Self::apply_rms_norm(
            g,
            x,
            VocoderTensor::Layer(i, LayerTensor::AttnNorm),
            self.config.rms_norm_eps,
        );
        let mix = self.apply_attention_mix(g, normed, i, n_frames, positions);
        let out = Self::apply_mapped(g, VocoderTensor::Layer(i, LayerTensor::AttnOutput), mix);
        let scaled = self.apply_scale_if_loaded(
            g,
            out,
            VocoderTensor::Layer(i, LayerTensor::AttnScale),
        );
        g.add_node(Op::Add(x, scaled))
    }

    fn apply_feed_forward(&self, g: &mut Graph, x: usize, i: usize) -> (r: usize)
        requires
            old(g).wf(),
            x < old(g).exprs().len(),
        ensures
            final(g).wf(),
            old(g).grows_to(*final(g)),
            r < final(g).exprs().len(),
            final(g).exprs()[r as int] == fed_forward(
                self.config,
                self.weights,
                old(g).exprs()[x as int],
                i,
            ),
    {
        reveal(fed_forward);
        let normed = Self::apply_rms_norm(
            g,
            x,
            VocoderTensor::Layer(i, LayerTensor::FfnNorm),
            self.config.rms_norm_eps,
        );
        let gate = Self::apply_mapped(g, VocoderTensor::Layer(i, LayerTensor::FfnGate), normed);
        let up = Self::apply_mapped(g, VocoderTensor::Layer(i, LayerTensor::FfnUp), normed);
        let silu = g.add_node(Op::Silu(gate));
        let gated = g.add_node(Op::Mul(silu, up));
        let down = Self::apply_mapped(g, VocoderTensor::Layer(i, LayerTensor::FfnDown), gated);
        let scaled = self.apply_scale_if_loaded(
            g,
            down,
            VocoderTensor::Layer(i, LayerTensor::FfnScale),
        );
        g.add_node(Op::Add(x, scaled))
    }

    /// Appends one transformer layer.
    pub fn apply_pre_tfm_layer(
        &self,
        g: &mut Graph,
        x: usize,
        i: usize,
        n_frames: usize,
        positions: usize,
    ) -> (r: usize)
        requires
            old(g).wf(),
            x < old(g).exprs().len(),
            positions < old(g).exprs().len(),
            old(g).exprs()[positions as int] == Expr::Leaf(Leaf::Positions),
            self.config.n_heads > 0,
            self.config.latent_dim >= 0,
        ensures
            final(g).wf(),
            old(g).grows_to(*final(g)),
            r < final(g).exprs().len(),
            final(g).exprs()[r as int] == transformed(
                self.config,
                self.weights,
                old(g).exprs()[x as int],
                i,
                n_frames,
            ),
    {
        reveal(transformed);
        let attention = self.apply_attention(g, x, i, n_frames, positions);
        self.apply_feed_forward(g, attention, i)
    }

    fn apply_swap(g: &mut Graph, x: usize) -> (r: usize)
        requires
            old(g).wf(),
            x < old(g).exprs().len(),
        ensures
            final(g).wf(),
            old(g).grows_to(*final(g)),
            r < final(g).exprs().len(),
            final(g).exprs()[r as int] == swapped(old(g).exprs()[x as int]),
    {
        let turned = g.add_node(Op::Permute(x, 1, 0, 2, 3));
        g.add_node(Op::Cont(turned))
    }

    fn apply_lengthening(&self, g: &mut Graph, x: usize, i: usize) -> (r: usize)
        requires
            old(g).wf(),
            x < old(g).exprs().len(),
        ensures
            final(g).wf(),
            old(g).grows_to(*final(g)),
            r < final(g).exprs().len(),
            final(g).exprs()[r as int] == lengthened(self.weights, old(g).exprs()[x as int], i),
    {
        reveal(lengthened);
        let flat = g.add_node(Op::Reshape2d(x, Dim::Extent(x, 0), Dim::Extent(x, 1)));
        let conv_w = Self::weight_node(g, VocoderTensor::Upsample(i, UpsampleTensor::ConvW));
        let long = g.add_node(Op::ConvTranspose1d(conv_w, flat, 2));
        let shaped = g.add_node(
            Op::Reshape3d(long, Dim::Extent(long, 0), Dim::Extent(x, 1), Dim::Fixed(1)),
        );
        self.apply_channel_bias_if_loaded(
            g,
            shaped,
            VocoderTensor::Upsample(i, UpsampleTensor::ConvB),
            Dim::Extent(x, 1),
        )
    }

    fn apply_depthwise_if_loaded(
        &self,
        g: &mut Graph,
        x: usize,
        i: usize,
        channels: Dim<usize>,
    ) -> (r: usize)
        requires
            old(g).wf(),
            x < old(g).exprs().len(),
            dim_below(channels, old(g).exprs().len() as int),
        ensures
            final(g).wf(),
            old(g).grows_to(*final(g)),
            r < final(g).exprs().len(),
            final(g).exprs()[r as int] == depthwise_if_loaded(
                self.weights,
                old(g).exprs()[x as int],
                i,
                dim_denoted(channels, old(g).exprs()),
            ),
    {
        reveal(depthwise_if_loaded);
        if self.weights.has(VocoderTensor::Upsample(i, UpsampleTensor::DwconvW)) {
            let padded = g.add_node(Op::PadFront(x, 6));
            let w = Self::weight_node(g, VocoderTensor::Upsample(i, UpsampleTensor::DwconvW));
            let conv = g.add_node(Op::Conv1dDepthwise(w, padded));
            self.apply_channel_bias_if_loaded(
                g,
                conv,
                VocoderTensor::Upsample(i, UpsampleTensor::DwconvB),
                channels,
            )
        } else {
            x
        }
    }

    fn apply_norm_if_loaded(&self, g: &mut Graph, x: usize, i: usize) -> (r: usize)
        requires
            old(g).wf(),
            x < old(g).exprs().len(),
        ensures
            final(g).wf(),
            old(g).grows_to(*final(g)),
            r < final(g).exprs().len(),
            final(g).exprs()[r as int] == normed_if_loaded(
                self.weights,
                old(g).exprs()[x as int],
                i,
            ),
    {
        reveal(normed_if_loaded);
        if self.weights.has(VocoderTensor::Upsample(i, UpsampleTensor::NormW)) && self.weights.has(
            VocoderTensor::Upsample(i, UpsampleTensor::NormB),
        ) {
            let normed = g.add_node(Op::Norm(x, Real32 { bits: 0x3586_37bd }));
            let norm_w = Self::weight_node(g, VocoderTensor::Upsample(i, UpsampleTensor::NormW));
            let scaled = g.add_node(Op::Mul(normed, norm_w));
            let norm_b = Self::weight_node(g, VocoderTensor::Upsample(i, UpsampleTensor::NormB));
            g.add_node(Op::Add(scaled, norm_b))
        } else {
            x
        }
    }

    fn apply_pointwise(&self, g: &mut Graph, x: usize, i: usize) -> (r: usize)
        requires
            old(g).wf(),
            x < old(g).exprs().len(),
        ensures
            final(g).wf(),
            old(g).grows_to(*final(g)),
            r < final(g).exprs().len(),
            final(g).exprs()[r as int] == pointwise(self.weights, old(g).exprs()[x as int], i),
    {
        reveal(pointwise);
        let first = Self::apply_mapped(
            g,
            VocoderTensor::Upsample(i, UpsampleTensor::Pwconv1W),
            x,
        );
        let wide = self.apply_bias_if_loaded(
            g,
            first,
            VocoderTensor::Upsample(i, UpsampleTensor::Pwconv1B),
        );
        let gelu = g.add_node(Op::Gelu(wide));
        let second = Self::apply_mapped(
            g,
            VocoderTensor::Upsample(i, UpsampleTensor::Pwconv2W),
            gelu,
        );
        self.apply_bias_if_loaded(
            g,
            second,
            VocoderTensor::Upsample(i, UpsampleTensor::Pwconv2B),
        )
    }

    fn apply_gain_if_loaded(
        &self,
        g: &mut Graph,
        x: usize,
        i: usize,
        channels: Dim<usize>,
    ) -> (r: usize)
        requires
            old(g).wf(),
            x < old(g).exprs().len(),
            dim_below(channels, old(g).exprs().len() as int),
        ensures
            final(g).wf(),
            old(g).grows_to(*final(g)),
            r < final(g).exprs().len(),
            final(g).exprs()[r as int] == gained_if_loaded(
                self.weights,
                old(g).exprs()[x as int],
                i,
                dim_denoted(channels, old(g).exprs()),
            ),
    {
        reveal(gained_if_loaded);
        if self.weights.has(VocoderTensor::Upsample(i, UpsampleTensor::Gamma)) {
            let gamma = Self::weight_node(g, VocoderTensor::Upsample(i, UpsampleTensor::Gamma));
            let gains = g.add_node(Op::Reshape3d(gamma, Dim::Fixed(1), channels, Dim::Fixed(1)));
            g.add_node(Op::Mul(x, gains))
        } else {
            x
        }
    }

    /// Appends one upsampling block.
    pub fn apply_upsample_block(&self, g: &mut Graph, x: usize, i: usize) -> (r: usize)
        requires
            old(g).wf(),
            x < old(g).exprs().len(),
        ensures
            final(g).wf(),
            old(g).grows_to(*final(g)),
            r < final(g).exprs().len(),
            final(g).exprs()[r as int] == upsampled(self.weights, old(g).exprs()[x as int], i),
    {
        reveal(upsampled);
        let long = self.apply_lengthening(g, x, i);
        let deep = self.apply_depthwise_if_loaded(g, long, i, Dim::Extent(x, 1));
        let by_frame = Self::apply_swap(g, deep);
        let inner = self.apply_norm_if_loaded(g, by_frame, i);
        let points = self.apply_pointwise(g, inner, i);
        let by_channel = Self::apply_swap(g, points);
        let gained = self.apply_gain_if_loaded(g, by_channel, i, Dim::Extent(x, 1));
        g.add_node(Op::Add(long, gained))
    }

    /// Appends one residual unit.
    pub fn apply_residual_block(
        &self,
        g: &mut Graph,
        x: usize,
        block: usize,
        unit: usize,
        dilation: i32,
    ) -> (r: usize)
        requires
            old(g).wf(),
            x < old(g).exprs().len(),
            i32::MIN <= 6 * dilation <= i32::MAX,
        ensures
            final(g).wf(),
            old(g).grows_to(*final(g)),
            r < final(g).exprs().len(),
            final(g).exprs()[r as int] == residual_unit(
                self.weights,
                old(g).exprs()[x as int],
                block,
                unit,
                dilation,
            ),
    {
        reveal(residual_unit);
        reveal(causal_conv);
        let a = self.apply_snake_if_loaded(
            g,
            x,
            VocoderTensor::Residual(block, unit, ResidualTensor::Act1Alpha),
            VocoderTensor::Residual(block, unit, ResidualTensor::Act1Beta),
        );
        let padded = g.add_node(Op::PadFront(a, 6 * dilation));
        let conv1_w = Self::weight_node(
            g,
            VocoderTensor::Residual(block, unit, ResidualTensor::Conv1W),
        );
        let conv1 = g.add_node(Op::Conv1d(conv1_w, padded, dilation));
        let c1 = self.apply_channel_bias_if_loaded(
            g,
            conv1,
            VocoderTensor::Residual(block, unit, ResidualTensor::Conv1B),
            Dim::Extent(conv1_w, 2),
        );
        let b = self.apply_snake_if_loaded(
            g,
            c1,
            VocoderTensor::Residual(block, unit, ResidualTensor::Act2Alpha),
            VocoderTensor::Residual(block, unit, ResidualTensor::Act2Beta),
        );
        let conv2_w = Self::weight_node(
            g,
            VocoderTensor::Residual(block, unit, ResidualTensor::Conv2W),
        );
        let conv2 = g.add_node(Op::Conv1d(conv2_w, b, 1));
        let c2 = self.apply_channel_bias_if_loaded(
            g,
            conv2,
            VocoderTensor::Residual(block, unit, ResidualTensor::Conv2B),
            Dim::Extent(conv2_w, 2),
        );
        g.add_node(Op::Add(x, c2))
    }

    /// Appends one decoder block.
    pub fn apply_decoder_block(&self, g: &mut Graph, x: usize, block: usize, rate: i32) -> (r: usize)
        requires
            old(g).wf(),
            x < old(g).exprs().len(),
        ensures
            final(g).wf(),
            old(g).grows_to(*final(g)),
            r < final(g).exprs().len(),
            final(g).exprs()[r as int] == decoded(
                self.weights,
                old(g).exprs()[x as int],
                block,
                rate,
            ),
    {
        reveal(decoded);
        let a = self.apply_snake_if_loaded(
            g,
            x,
            VocoderTensor::Decoder(block, DecoderTensor::SnakeAlpha),
            VocoderTensor::Decoder(block, DecoderTensor::SnakeBeta),
        );
        let flat = g.add_node(Op::Reshape2d(a, Dim::Extent(a, 0), Dim::Extent(a, 1)));
        let kernel = Self::weight_node(g, VocoderTensor::Decoder(block, DecoderTensor::ConvTW));
        let long = g.add_node(Op::ConvTranspose1d(kernel, flat, rate));
        let y = g.add_node(
            Op::Reshape3d(long, Dim::Extent(long, 0), Dim::Extent(kernel, 1), Dim::Fixed(1)),
        );
        let trimmed = g.add_node(Op::Trim(y, kernel, rate));
        let cont = g.add_node(Op::Cont(trimmed));
        let z = self.apply_channel_bias_if_loaded(
            g,
            cont,
            VocoderTensor::Decoder(block, DecoderTensor::ConvTB),
            Dim::Extent(kernel, 1),
        );
        let r1 = self.apply_residual_block(g, z, block, 2, 1);
        let r2 = self.apply_residual_block(g, r1, block, 3, 3);
        self.apply_residual_block(g, r2, block, 4, 9)
    }
}

} // verus!
