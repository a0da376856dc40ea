//! From codec frames to audio: the checks on a decoding request, its inputs and its graph.

use vstd::prelude::*;
use crate::error::Qwen3TtsError;
use crate::vocoder::graph::{Dim, Graph, Leaf, Op};
use crate::vocoder::network::Vocoder;
use crate::vocoder::tensors::VocoderTensor;
#[allow(unused_imports)]
use crate::error::ErrorModel;
#[allow(unused_imports)]
use crate::vocoder::config::VocoderConfig;
#[allow(unused_imports)]
use crate::vocoder::graph::{expr, Expr};
#[allow(unused_imports)]
use crate::vocoder::network::{
    biased_if_loaded, causal_conv, channel_biased_if_loaded, decoded, mapped, plus, rms_normed,
    snake_if_loaded, transformed, upsampled, weight,
};
#[allow(unused_imports)]
use crate::vocoder::weights::VocoderWeights;

verus! {

/// The number of nodes for which a decoding graph reserves metadata.
pub const GRAPH_NODES: usize = 32_768;

/// What one codebook contributes to the latent frames: the entries that its codes name, projected.
#[verifier::opaque]
pub open spec fn codebook_part(
    c: VocoderConfig,
    n_frames: usize,
    projection: VocoderTensor,
    codebook: VocoderTensor,
    input: usize,
) -> Expr {
    expr(
        Op::MulMat(
            expr(
                Op::Reshape2d(
                    weight(projection),
                    Dim::Fixed(c.codebook_dim as i64),
                    Dim::Fixed(c.hidden_dim as i64),
                ),
            ),
            expr(
                Op::Reshape2d(
                    expr(Op::GetRows(weight(codebook), Expr::Leaf(Leaf::Codes(input)))),
                    Dim::Fixed(c.codebook_dim as i64),
                    Dim::Fixed(n_frames as i64),
                ),
            ),
        ),
    )
}

/// The sum of what the first `count` codebooks after the first one contribute.
pub open spec fn rest_parts(c: VocoderConfig, n_frames: usize, count: nat) -> Expr
    decreases count,
{
    let last = codebook_part(
        c,
        n_frames,
        VocoderTensor::VqRestOutputProj,
        VocoderTensor::VqRestCodebook((count - 1) as usize),
        count as usize,
    );
    if count <= 1 {
        last
    } else {
        plus(rest_parts(c, n_frames, (count - 1) as nat), last)
    }
}

/// The latent frames: what all codebooks contribute.
#[verifier::opaque]
pub open spec fn latent(c: VocoderConfig, w: VocoderWeights, n_frames: usize) -> Expr {
    plus(
        codebook_part(
            c,
            n_frames,
            VocoderTensor::VqFirstOutputProj,
            VocoderTensor::VqFirstCodebook,
            0,
        ),
        rest_parts(c, n_frames, w.rest as nat),
    )
}

/// The first `count` transformer layers.
pub open spec fn layered(
    c: VocoderConfig,
    w: VocoderWeights,
    x: Expr,
    n_frames: usize,
    count: nat,
) -> Expr
    decreases count,
{
    if count == 0 {
        x
    } else {
        transformed(
            c,
            w,
            layered(c, w, x, n_frames, (count - 1) as nat),
            (count - 1) as usize,
            n_frames,
        )
    }
}

/// The latent frames, convolved and run through the transformer.
#[verifier::opaque]
pub open spec fn contextual(c: VocoderConfig, w: VocoderWeights, n_frames: usize) -> Expr {
    let frames = Dim::Fixed(n_frames as i64);
    let z = expr(
        Op::Reshape3d(
            expr(Op::Cont(expr(Op::Transpose(latent(c, w, n_frames))))),
            frames,
            Dim::Fixed(c.hidden_dim as i64),
            Dim::Fixed(1),
        ),
    );
    let convolved = channel_biased_if_loaded(
        w,
        causal_conv(VocoderTensor::PreConvW, expr(Op::Cont(z)), 2, 1),
        VocoderTensor::PreConvB,
        Dim::Fixed(c.latent_dim as i64),
    );
    let columns = expr(
        Op::Cont(
            expr(
                Op::Transpose(
                    expr(Op::Reshape2d(convolved, frames, Dim::Fixed(c.latent_dim as i64))),
                ),
            ),
        ),
    );
    let entered = biased_if_loaded(
        w,
        mapped(VocoderTensor::PreTfmInputProjW, columns),
        VocoderTensor::PreTfmInputProjB,
    );
    let x = layered(c, w, entered, n_frames, w.count as nat);
    let normed = if w.holds(VocoderTensor::PreTfmNormW) {
        rms_normed(x, VocoderTensor::PreTfmNormW, c.rms_norm_eps)
    } else {
        x
    };
    let left = biased_if_loaded(
        w,
        mapped(VocoderTensor::PreTfmOutputProjW, normed),
        VocoderTensor::PreTfmOutputProjB,
    );
    expr(
        Op::Reshape3d(
            expr(Op::Cont(expr(Op::Permute(left, 1, 0, 2, 3)))),
            frames,
            Dim::Fixed(c.latent_dim as i64),
            Dim::Fixed(1),
        ),
    )
}

/// What the first decoder convolution makes of the upsampled frames.
#[verifier::opaque]
pub open spec fn decoder_entry(c: VocoderConfig, w: VocoderWeights, n_frames: usize) -> Expr {
    let up = upsampled(w, upsampled(w, contextual(c, w, n_frames), 0), 1);
    channel_biased_if_loaded(
        w,
        causal_conv(VocoderTensor::Dec0ConvW, up, 6, 1),
        VocoderTensor::Dec0ConvB,
        Dim::Fixed(c.decoder_dim as i64),
    )
}

/// The four decoder blocks, which lengthen their input eightfold, fivefold, fourfold and threefold.
#[verifier::opaque]
pub open spec fn decoder_blocks(w: VocoderWeights, x: Expr) -> Expr {
    decoded(w, decoded(w, decoded(w, decoded(w, x, 1, 8), 2, 5), 3, 4), 4, 3)
}

/// What the last decoder convolution makes of its input: one channel, between minus one and one.
#[verifier::opaque]
pub open spec fn decoder_exit(w: VocoderWeights, x: Expr) -> Expr {
    let active = snake_if_loaded(
        w,
        x,
        VocoderTensor::Dec5SnakeAlpha,
        VocoderTensor::Dec5SnakeBeta,
    );
    let exit = channel_biased_if_loaded(
        w,
        causal_conv(VocoderTensor::Dec6ConvW, active, 6, 1),
        VocoderTensor::Dec6ConvB,
        Dim::Fixed(1),
    );
    let bounded = expr(Op::Tanh(exit));
    expr(Op::Cont(expr(Op::Reshape1d(bounded, Dim::Extent(bounded, 0)))))
}

/// The audio samples.
pub open spec fn waveform(c: VocoderConfig, w: VocoderWeights, n_frames: usize) -> Expr {
    decoder_exit(w, decoder_blocks(w, decoder_entry(c, w, n_frames)))
}

/// What is to be computed for a decoding request.
pub struct DecodePlan {
    /// The graph.
    pub graph: Graph,
    /// The graph's node that holds the samples.
    pub output: usize,
    /// The frames' positions.
    pub positions: Vec<i32>,
    /// For each codebook its codes, one per frame.
    pub codes: Vec<Vec<i32>>,
}

/// Whether a plan decodes the frames in `codes`, of which each holds `n_codebooks` codes in a row.
pub open spec fn decodes(
    plan: DecodePlan,
    c: VocoderConfig,
    w: VocoderWeights,
    codes: Seq<i32>,
    n_frames: usize,
) -> bool {
    &&& plan.graph.wf()
    &&& plan.output < plan.graph.exprs().len()
    &&& plan.graph.exprs()[plan.output as int] == waveform(c, w, n_frames)
    &&& plan.positions@ == Seq::new(n_frames as nat, |i: int| i as i32)
    &&& plan.codes@.len() == c.n_codebooks
    &&& forall|cb: int|
        0 <= cb < c.n_codebooks ==> (#[trigger] plan.codes@[cb])@ == Seq::new(
            n_frames as nat,
            |frame: int| codes[frame * c.n_codebooks + cb],
        )
}

proof fn lemma_code_index(frame: int, cb: int, n_frames: int, n: int)
    by (nonlinear_arith)
    requires
        0 <= frame < n_frames,
        0 <= cb < n,
    ensures
        0 <= frame * n + cb < n_frames * n,
        0 <= frame * n,
{
}

impl Vocoder {
    /// The vocoders that decode: at least one codebook after the first, as many as are loaded, and
    /// a transformer whose dimensions divide among its heads.
    pub open spec fn decodable(self) -> bool {
        &&& self.config.n_codebooks >= 2
        &&& self.config.n_codebooks == self.weights.rest + 1
        &&& self.config.n_pre_tfm_layers == self.weights.count
        &&& self.config.n_heads > 0
        &&& self.config.latent_dim >= 0
    }

    /// Whether this is a vocoder that decodes.
    pub fn is_decodable(&self) -> (r: bool)
        ensures
            r == self.decodable(),
    {
        self.config.n_codebooks >= 2 && self.config.n_codebooks as usize - 1 == self.weights.rest
            && self.config.n_pre_tfm_layers >= 0 && self.config.n_pre_tfm_layers as usize
            == self.weights.count && self.config.n_heads > 0 && self.config.latent_dim >= 0
    }

    fn apply_codebook(
        &self,
        g: &mut Graph,
        n_frames: usize,
        projection: usize,
        Ghost(t): Ghost<VocoderTensor>,
        codebook: VocoderTensor,
        input: usize,
    ) -> (r: usize)
        requires
            old(g).wf(),
            projection < old(g).exprs().len(),
            old(g).exprs()[projection as int] == expr(
                Op::Reshape2d(
                    weight(t),
                    Dim::Fixed(self.config.codebook_dim as i64),
                    Dim::Fixed(self.config.hidden_dim as i64),
                ),
            ),
        ensures
            final(g).wf(),
            old(g).grows_to(*final(g)),
            r < final(g).exprs().len(),
            final(g).exprs()[r as int] == codebook_part(self.config, n_frames, t, codebook, input),
    {
        reveal(codebook_part);
        let w = g.add_node(Op::Input(Leaf::Weight(codebook)));
        let codes = g.add_node(Op::Input(Leaf::Codes(input)));
        let rows = g.add_node(Op::GetRows(w, codes));
        let shaped = g.add_node(
            Op::Reshape2d(
                rows,
                Dim::Fixed(self.config.codebook_dim as i64),
                Dim::Fixed(n_frames as i64),
            ),
        );
        g.add_node(Op::MulMat(projection, shaped))
    }

    fn apply_projection(&self, g: &mut Graph, t: VocoderTensor) -> (r: usize)
        requires
            old(g).wf(),
        ensures
            final(g).wf(),
            old(g).grows_to(*final(g)),
            r < final(g).exprs().len(),
            final(g).exprs()[r as int] == expr(
                Op::Reshape2d(
                    weight(t),
                    Dim::Fixed(self.config.codebook_dim as i64),
                    Dim::Fixed(self.config.hidden_dim as i64),
                ),
            ),
    {
        let w = g.add_node(Op::Input(Leaf::Weight(t)));
        g.add_node(
            Op::Reshape2d(
                w,
                Dim::Fixed(self.config.codebook_dim as i64),
                Dim::Fixed(self.config.hidden_dim as i64),
            ),
        )
    }

    fn apply_latent(&self, g: &mut Graph, n_frames: usize) -> (r: usize)
        requires
            old(g).wf(),
            self.weights.rest >= 1,
        ensures
            final(g).wf(),
            old(g).grows_to(*final(g)),
            r < final(g).exprs().len(),
            final(g).exprs()[r as int] == latent(self.config, self.weights, n_frames),
    {
        reveal(latent);
        let first_proj = self.apply_projection(g, VocoderTensor::VqFirstOutputProj);
        let first = self.apply_codebook(
            g,
            n_frames,
            first_proj,
            Ghost(VocoderTensor::VqFirstOutputProj),
            VocoderTensor::VqFirstCodebook,
            0,
        );
        let rest_proj = self.apply_projection(g, VocoderTensor::VqRestOutputProj);
        let mut rest = self.apply_codebook(
            g,
            n_frames,
            rest_proj,
            Ghost(VocoderTensor::VqRestOutputProj),
            VocoderTensor::VqRestCodebook(0),
            1,
        );
        let mut cb: usize = 1;
        while cb < self.weights.rest
            invariant
                1 <= cb <= self.weights.rest,
                g.wf(),
                old(g).grows_to(*g),
                first < g.exprs().len(),
                rest < g.exprs().len(),
                rest_proj < g.exprs().len(),
                g.exprs()[first as int] == codebook_part(
                    self.config,
                    n_frames,
                    VocoderTensor::VqFirstOutputProj,
                    VocoderTensor::VqFirstCodebook,
                    0,
                ),
                g.exprs()[rest_proj as int] == expr(
                    Op::Reshape2d(
                        weight(VocoderTensor::VqRestOutputProj),
                        Dim::Fixed(self.config.codebook_dim as i64),
                        Dim::Fixed(self.config.hidden_dim as i64),
                    ),
                ),
                g.exprs()[rest as int] == rest_parts(self.config, n_frames, cb as nat),
            decreases self.weights.rest - cb,
        {
            let part = self.apply_codebook(
                g,
                n_frames,
                rest_proj,
                Ghost(VocoderTensor::VqRestOutputProj),
                VocoderTensor::VqRestCodebook(cb),
                cb + 1,
            );
            rest = g.add_node(Op::Add(rest, part));
            cb += 1;
        }
        g.add_node(Op::Add(first, rest))
    }

    fn apply_context(&self, g: &mut Graph, n_frames: usize) -> (r: usize)
        requires
            old(g).wf(),
            self.decodable(),
        ensures
            final(g).wf(),
            old(g).grows_to(*final(g)),
            r < final(g).exprs().len(),
            final(g).exprs()[r as int] == contextual(self.config, self.weights, n_frames),
    {
        reveal(contextual);
        let c = self.config;
        let positions = g.add_node(Op::Input(Leaf::Positions));
        let latent_2d = self.apply_latent(g, n_frames);
        let latent_t = g.add_node(Op::Transpose(latent_2d));
        let latent_cont = g.add_node(Op::Cont(latent_t));
        let z = g.add_node(
            Op::Reshape3d(
                latent_cont,
                Dim::Fixed(n_frames as i64),
                Dim::Fixed(c.hidden_dim as i64),
                Dim::Fixed(1),
            ),
        );
        let z_cont = g.add_node(Op::Cont(z));
        let conv = Self::apply_causal_conv(g, VocoderTensor::PreConvW, z_cont, 2, 1);
        let convolved = self.apply_channel_bias_if_loaded(
            g,
            conv,
            VocoderTensor::PreConvB,
            Dim::Fixed(c.latent_dim as i64),
        );
        let flat = g.add_node(
            Op::Reshape2d(
                convolved,
                Dim::Fixed(n_frames as i64),
                Dim::Fixed(c.latent_dim as i64),
            ),
        );
        let flat_t = g.add_node(Op::Transpose(flat));
        let columns = g.add_node(Op::Cont(flat_t));
        let projected = Self::apply_mapped(g, VocoderTensor::PreTfmInputProjW, columns);
        let mut x = self.apply_bias_if_loaded(g, projected, VocoderTensor::PreTfmInputProjB);
        let ghost entered = g.exprs()[x as int];
        let mut i: usize = 0;
        while i < self.weights.count
            invariant
                i <= self.weights.count,
                self.decodable(),
                g.wf(),
                old(g).grows_to(*g),
                x < g.exprs().len(),
                positions < g.exprs().len(),
                g.exprs()[positions as int] == Expr::Leaf(Leaf::Positions),
                g.exprs()[x as int] == layered(
                    self.config,
                    self.weights,
                    entered,
                    n_frames,
                    i as nat,
                ),
            decreases self.weights.count - i,
        {
            x = self.apply_pre_tfm_layer(g, x, i, n_frames, positions);
            i += 1;
        }
        let normed = if self.weights.has(VocoderTensor::PreTfmNormW) {
            Self::apply_rms_norm(g, x, VocoderTensor::PreTfmNormW, c.rms_norm_eps)
        } else {
            x
        };
        let out = Self::apply_mapped(g, VocoderTensor::PreTfmOutputProjW, normed);
        let left = self.apply_bias_if_loaded(g, out, VocoderTensor::PreTfmOutputProjB);
        let swapped = g.add_node(Op::Permute(left, 1, 0, 2, 3));
        let cont = g.add_node(Op::Cont(swapped));
        g.add_node(
            Op::Reshape3d(
                cont,
                Dim::Fixed(n_frames as i64),
                Dim::Fixed(c.latent_dim as i64),
                Dim::Fixed(1),
            ),
        )
    }

    fn apply_decoder_entry(&self, g: &mut Graph, n_frames: usize) -> (r: usize)
        requires
            old(g).wf(),
            self.decodable(),
        ensures
            final(g).wf(),
            old(g).grows_to(*final(g)),
            r < final(g).exprs().len(),
            final(g).exprs()[r as int] == decoder_entry(self.config, self.weights, n_frames),
    {
        reveal(decoder_entry);
        let context = self.apply_context(g, n_frames);
        let up0 = self.apply_upsample_block(g, context, 0);
        let up = self.apply_upsample_block(g, up0, 1);
        let conv = Self::apply_causal_conv(g, VocoderTensor::Dec0ConvW, up, 6, 1);
        self.apply_channel_bias_if_loaded(
            g,
            conv,
            VocoderTensor::Dec0ConvB,
            Dim::Fixed(self.config.decoder_dim as i64),
        )
    }

    fn apply_decoder_blocks(&self, g: &mut Graph, x: usize) -> (r: usize)
        requires
            old(g).wf(),
            x < old(g).exprs().len(),
        ensures
            final(g).wf(),
            old(g).grows_to(*final(g)),
            r < final(g).exprs().len(),
            final(g).exprs()[r as int] == decoder_blocks(self.weights, old(g).exprs()[x as int]),
    {
        reveal(decoder_blocks);
        let b1 = self.apply_decoder_block(g, x, 1, 8);
        let b2 = self.apply_decoder_block(g, b1, 2, 5);
        let b3 = self.apply_decoder_block(g, b2, 3, 4);
        self.apply_decoder_block(g, b3, 4, 3)
    }

    fn apply_decoder_exit(&self, g: &mut Graph, x: usize) -> (r: usize)
        requires
            old(g).wf(),
            x < old(g).exprs().len(),
        ensures
            final(g).wf(),
            old(g).grows_to(*final(g)),
            r < final(g).exprs().len(),
            final(g).exprs()[r as int] == decoder_exit(self.weights, old(g).exprs()[x as int]),
    {
        reveal(decoder_exit);
        let active = self.apply_snake_if_loaded(
            g,
            x,
            VocoderTensor::Dec5SnakeAlpha,
            VocoderTensor::Dec5SnakeBeta,
        );
        let conv = Self::apply_causal_conv(g, VocoderTensor::Dec6ConvW, active, 6, 1);
        let exit = self.apply_channel_bias_if_loaded(
            g,
            conv,
            VocoderTensor::Dec6ConvB,
            Dim::Fixed(1),
        );
        let bounded = g.add_node(Op::Tanh(exit));
        let flat = g.add_node(Op::Reshape1d(bounded, Dim::Extent(bounded, 0)));
        g.add_node(Op::Cont(flat))
    }

    fn apply_waveform(&self, g: &mut Graph, n_frames: usize) -> (r: usize)
        requires
            old(g).wf(),
            self.decodable(),
        ensures
            final(g).wf(),
            old(g).grows_to(*final(g)),
            r < final(g).exprs().len(),
            final(g).exprs()[r as int] == waveform(self.config, self.weights, n_frames),
    {
        let entry = self.apply_decoder_entry(g, n_frames);
        let blocks = self.apply_decoder_blocks(g, entry);
        self.apply_decoder_exit(g, blocks)
    }

    /// Plans the decoding of `n_frames` frames, whose codes stand in `codes` frame by frame: no
    /// plan where there is no frame, an error where the codes do not fill the frames.
    pub fn decode(&self, codes: &Vec<i32>, n_frames: usize) -> (r: Result<
        Option<DecodePlan>,
        Qwen3TtsError,
    >)
        requires
            n_frames > 0 ==> {
                &&& self.config.n_codebooks >= 0
                &&& n_frames * self.config.n_codebooks <= usize::MAX
            },
            n_frames > 0 && codes@.len() == n_frames * self.config.n_codebooks ==> {
                &&& self.decodable()
                &&& n_frames <= i32::MAX
            },
        ensures
            match r {
                Ok(None) => n_frames == 0,
                Ok(Some(plan)) => {
                    &&& n_frames > 0
                    &&& codes@.len() == n_frames * self.config.n_codebooks
                    &&& decodes(plan, self.config, self.weights, codes@, n_frames)
                },
                Err(e) => {
                    &&& n_frames > 0
                    &&& codes@.len() != n_frames * self.config.n_codebooks
                    &&& e@ == ErrorModel::InvalidInput("vocoder codes shape is invalid"@)
                },
            },
    {
        if n_frames == 0 {
            return Ok(None);
        }
        let n: usize = self.config.n_codebooks as usize;
        if codes.len() != n_frames * n {
            return Err(Qwen3TtsError::InvalidInput("vocoder codes shape is invalid".to_string()));
        }
        let mut positions: Vec<i32> = Vec::new();
        let mut frame: usize = 0;
        while frame < n_frames
            invariant
                frame <= n_frames <= i32::MAX,
                positions@ == Seq::new(frame as nat, |i: int| i as i32),
            decreases n_frames - frame,
        {
            positions.push(frame as i32);
            frame += 1;
            assert(positions@ == Seq::new(frame as nat, |i: int| i as i32));
        }
        let mut cb_values: Vec<Vec<i32>> = Vec::new();
        let mut cb: usize = 0;
        while cb < n
            invariant
                cb <= n,
                n == self.config.n_codebooks,
                codes@.len() == n_frames * n,
                n_frames * n <= usize::MAX,
                cb_values@.len() == cb,
                forall|k: int|
                    0 <= k < cb ==> (#[trigger] cb_values@[k])@ == Seq::new(
                        n_frames as nat,
                        |frame: int| codes@[frame * self.config.n_codebooks + k],
                    ),
            decreases n - cb,
        {
            let mut cb_codes: Vec<i32> = Vec::new();
            let mut frame: usize = 0;
            while frame < n_frames
                invariant
                    cb < n,
                    n == self.config.n_codebooks,
                    codes@.len() == n_frames * n,
                    n_frames * n <= usize::MAX,
                    frame <= n_frames,
                    cb_codes@ == Seq::new(
                        frame as nat,
                        |frame: int| codes@[frame * self.config.n_codebooks + cb],
                    ),
                decreases n_frames - frame,
            {
                proof {
                    lemma_code_index(frame as int, cb as int, n_frames as int, n as int);
                }
                cb_codes.push(codes[frame * n + cb]);
                frame += 1;
                assert(cb_codes@ == Seq::new(
                    frame as nat,
                    |frame: int| codes@[frame * self.config.n_codebooks + cb],
                ));
            }
            cb_values.push(cb_codes);
            cb += 1;
        }
        let mut graph = Graph::new();
        let output = self.apply_waveform(&mut graph, n_frames);
        Ok(Some(DecodePlan { graph, output, positions, codes: cb_values }))
    }
}

} // verus!
