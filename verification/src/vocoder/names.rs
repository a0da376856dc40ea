//! The names of the vocoder's tensors, part by part, and that no two tensors share one.

use vstd::prelude::*;
#[allow(unused_imports)]
use crate::text::{decimal, is_digit, lemma_decimal_injective, lemma_decimal_round_trip};
#[allow(unused_imports)]
use crate::vocoder::tensors::{
    DecoderTensor, LayerTensor, ResidualTensor, UpsampleTensor, VocoderTensor,
};
#[allow(unused_imports)]
use crate::vocoder::weights::belongs;

verus! {

/// Whether a part of a name holds no dot.
pub open spec fn plain(part: Seq<char>) -> bool {
    forall|i: int| 0 <= i < part.len() ==> #[trigger] part[i] != '.'
}

/// Some parts, joined by dots.
pub open spec fn dotted(parts: Seq<Seq<char>>) -> Seq<char>
    decreases parts.len(),
{
    if parts.len() == 0 {
        Seq::empty()
    } else if parts.len() == 1 {
        parts[0]
    } else {
        parts[0].push('.') + dotted(parts.drop_first())
    }
}

/// Whether there are parts, none of which holds a dot.
pub open spec fn all_plain(parts: Seq<Seq<char>>) -> bool {
    parts.len() > 0 && forall|i: int| 0 <= i < parts.len() ==> plain(#[trigger] parts[i])
}

/// The parts can be told from the text that they are joined to.
pub proof fn lemma_dotted_injective(p: Seq<Seq<char>>, q: Seq<Seq<char>>)
    requires
        all_plain(p),
        all_plain(q),
        dotted(p) == dotted(q),
    ensures
        p == q,
    decreases p.len(),
{
    let s = dotted(p);
    if p.len() > 1 {
        assert(s[p[0].len() as int] == '.');
    }
    if q.len() > 1 {
        assert(s[q[0].len() as int] == '.');
    }
    if p.len() == 1 || q.len() == 1 {
        if p.len() == 1 && q.len() > 1 {
            assert(plain(p[0]));
            assert(p[0][q[0].len() as int] == '.');
        }
        if q.len() == 1 && p.len() > 1 {
            assert(plain(q[0]));
            assert(q[0][p[0].len() as int] == '.');
        }
        assert(p =~= q);
    } else {
        let (a, b) = (p[0].len() as int, q[0].len() as int);
        assert(plain(p[0]) && plain(q[0]));
        if a < b {
            assert(s[a] == q[0][a]);
        }
        if b < a {
            assert(s[b] == p[0][b]);
        }
        assert(a == b);
        assert(p[0] =~= s.take(a));
        assert(q[0] =~= s.take(b));
        assert(dotted(p.drop_first()) =~= s.skip(a + 1));
        assert(dotted(q.drop_first()) =~= s.skip(b + 1));
        assert forall|i: int| 0 <= i < p.drop_first().len() implies plain(
            #[trigger] p.drop_first()[i],
        ) by {
            assert(plain(p[i + 1]));
        }
        assert forall|i: int| 0 <= i < q.drop_first().len() implies plain(
            #[trigger] q.drop_first()[i],
        ) by {
            assert(plain(q[i + 1]));
        }
        lemma_dotted_injective(p.drop_first(), q.drop_first());
        assert(p =~= seq![p[0]] + p.drop_first());
        assert(q =~= seq![q[0]] + q.drop_first());
    }
}

proof fn lemma_dotted_two(a: Seq<char>, b: Seq<char>)
    ensures
        dotted(seq![a, b]) == a.push('.') + b,
{
    reveal_with_fuel(dotted, 3);
    assert(seq![a, b].drop_first() =~= seq![b]);
}

proof fn lemma_dotted_more(a: Seq<char>, rest: Seq<Seq<char>>)
    requires
        rest.len() > 0,
    ensures
        dotted(seq![a] + rest) == a.push('.') + dotted(rest),
{
    assert((seq![a] + rest).drop_first() =~= rest);
}

/// The parts of the name of a layer's tensor behind the layer's number.
pub open spec fn layer_parts(part: LayerTensor) -> Seq<Seq<char>> {
    match part {
        LayerTensor::AttnNorm => seq!["attn_norm"@, "weight"@],
        LayerTensor::AttnQ => seq!["attn_q"@, "weight"@],
        LayerTensor::AttnK => seq!["attn_k"@, "weight"@],
        LayerTensor::AttnV => seq!["attn_v"@, "weight"@],
        LayerTensor::AttnOutput => seq!["attn_output"@, "weight"@],
        LayerTensor::AttnScale => seq!["attn_scale"@],
        LayerTensor::FfnNorm => seq!["ffn_norm"@, "weight"@],
        LayerTensor::FfnGate => seq!["ffn_gate"@, "weight"@],
        LayerTensor::FfnUp => seq!["ffn_up"@, "weight"@],
        LayerTensor::FfnDown => seq!["ffn_down"@, "weight"@],
        LayerTensor::FfnScale => seq!["ffn_scale"@],
    }
}

/// The parts of the name of an upsampling block's tensor behind the block's number.
pub open spec fn upsample_parts(part: UpsampleTensor) -> Seq<Seq<char>> {
    match part {
        UpsampleTensor::ConvW => seq!["conv"@, "weight"@],
        UpsampleTensor::ConvB => seq!["conv"@, "bias"@],
        UpsampleTensor::DwconvW => seq!["dwconv"@, "weight"@],
        UpsampleTensor::DwconvB => seq!["dwconv"@, "bias"@],
        UpsampleTensor::NormW => seq!["norm"@, "weight"@],
        UpsampleTensor::NormB => seq!["norm"@, "bias"@],
        UpsampleTensor::Pwconv1W => seq!["pwconv1"@, "weight"@],
        UpsampleTensor::Pwconv1B => seq!["pwconv1"@, "bias"@],
        UpsampleTensor::Pwconv2W => seq!["pwconv2"@, "weight"@],
        UpsampleTensor::Pwconv2B => seq!["pwconv2"@, "bias"@],
        UpsampleTensor::Gamma => seq!["gamma"@],
    }
}

/// The parts of the name of a residual unit's tensor behind the unit's number.
pub open spec fn residual_parts(part: ResidualTensor) -> Seq<Seq<char>> {
    match part {
        ResidualTensor::Act1Alpha => seq!["act1"@, "alpha"@],
        ResidualTensor::Act1Beta => seq!["act1"@, "beta"@],
        ResidualTensor::Conv1W => seq!["conv1"@, "weight"@],
        ResidualTensor::Conv1B => seq!["conv1"@, "bias"@],
        ResidualTensor::Act2Alpha => seq!["act2"@, "alpha"@],
        ResidualTensor::Act2Beta => seq!["act2"@, "beta"@],
        ResidualTensor::Conv2W => seq!["conv2"@, "weight"@],
        ResidualTensor::Conv2B => seq!["conv2"@, "bias"@],
    }
}

/// The parts of the name of a decoder block's tensor behind the block's number.
pub open spec fn decoder_parts(part: DecoderTensor) -> Seq<Seq<char>> {
    match part {
        DecoderTensor::SnakeAlpha => seq!["snake"@, "alpha"@],
        DecoderTensor::SnakeBeta => seq!["snake"@, "beta"@],
        DecoderTensor::ConvTW => seq!["conv_t"@, "weight"@],
        DecoderTensor::ConvTB => seq!["conv_t"@, "bias"@],
    }
}

proof fn lemma_layer_suffix(part: LayerTensor)
    ensures
        part.suffix() == dotted(layer_parts(part)),
        all_plain(layer_parts(part)),
{
    reveal_strlit("weight");
    match part {
        LayerTensor::AttnNorm => {
            reveal_strlit("attn_norm.weight");
            reveal_strlit("attn_norm");
            lemma_dotted_two("attn_norm"@, "weight"@);
            assert("attn_norm.weight"@ =~= "attn_norm"@.push('.') + "weight"@);
        },
        LayerTensor::AttnQ => {
            reveal_strlit("attn_q.weight");
            reveal_strlit("attn_q");
            lemma_dotted_two("attn_q"@, "weight"@);
            assert("attn_q.weight"@ =~= "attn_q"@.push('.') + "weight"@);
        },
        LayerTensor::AttnK => {
            reveal_strlit("attn_k.weight");
            reveal_strlit("attn_k");
            lemma_dotted_two("attn_k"@, "weight"@);
            assert("attn_k.weight"@ =~= "attn_k"@.push('.') + "weight"@);
        },
        LayerTensor::AttnV => {
            reveal_strlit("attn_v.weight");
            reveal_strlit("attn_v");
            lemma_dotted_two("attn_v"@, "weight"@);
            assert("attn_v.weight"@ =~= "attn_v"@.push('.') + "weight"@);
        },
        LayerTensor::AttnOutput => {
            reveal_strlit("attn_output.weight");
            reveal_strlit("attn_output");
            lemma_dotted_two("attn_output"@, "weight"@);
            assert("attn_output.weight"@ =~= "attn_output"@.push('.') + "weight"@);
        },
        LayerTensor::AttnScale => {
            reveal_strlit("attn_scale");
        },
        LayerTensor::FfnNorm => {
            reveal_strlit("ffn_norm.weight");
            reveal_strlit("ffn_norm");
            lemma_dotted_two("ffn_norm"@, "weight"@);
            assert("ffn_norm.weight"@ =~= "ffn_norm"@.push('.') + "weight"@);
        },
        LayerTensor::FfnGate => {
            reveal_strlit("ffn_gate.weight");
            reveal_strlit("ffn_gate");
            lemma_dotted_two("ffn_gate"@, "weight"@);
            assert("ffn_gate.weight"@ =~= "ffn_gate"@.push('.') + "weight"@);
        },
        LayerTensor::FfnUp => {
            reveal_strlit("ffn_up.weight");
            reveal_strlit("ffn_up");
            lemma_dotted_two("ffn_up"@, "weight"@);
            assert("ffn_up.weight"@ =~= "ffn_up"@.push('.') + "weight"@);
        },
        LayerTensor::FfnDown => {
            reveal_strlit("ffn_down.weight");
            reveal_strlit("ffn_down");
            lemma_dotted_two("ffn_down"@, "weight"@);
            assert("ffn_down.weight"@ =~= "ffn_down"@.push('.') + "weight"@);
        },
        LayerTensor::FfnScale => {
            reveal_strlit("ffn_scale");
        },
    }
}

proof fn lemma_layer_parts_injective(a: LayerTensor, b: LayerTensor)
    requires
        layer_parts(a) == layer_parts(b),
    ensures
        a == b,
{
    reveal_strlit("attn_norm");
    reveal_strlit("attn_q");
    reveal_strlit("attn_k");
    reveal_strlit("attn_v");
    reveal_strlit("attn_output");
    reveal_strlit("attn_scale");
    reveal_strlit("ffn_norm");
    reveal_strlit("ffn_gate");
    reveal_strlit("ffn_up");
    reveal_strlit("ffn_down");
    reveal_strlit("ffn_scale");
    let (x, y) = (layer_parts(a)[0], layer_parts(b)[0]);
    assert(x.len() == y.len());
    assert(x[0] == y[0]);
    assert(x[4] == y[4]);
    assert(x[5] == y[5]);
}

proof fn lemma_upsample_suffix(part: UpsampleTensor)
    ensures
        part.suffix() == dotted(upsample_parts(part)),
        all_plain(upsample_parts(part)),
{
    match part {
        UpsampleTensor::ConvW => {
            reveal_strlit("conv.weight");
            reveal_strlit("conv");
            reveal_strlit("weight");
            lemma_dotted_two("conv"@, "weight"@);
            assert("conv.weight"@ =~= "conv"@.push('.') + "weight"@);
        },
        UpsampleTensor::ConvB => {
            reveal_strlit("conv.bias");
            reveal_strlit("conv");
            reveal_strlit("bias");
            lemma_dotted_two("conv"@, "bias"@);
            assert("conv.bias"@ =~= "conv"@.push('.') + "bias"@);
        },
        UpsampleTensor::DwconvW => {
            reveal_strlit("dwconv.weight");
            reveal_strlit("dwconv");
            reveal_strlit("weight");
            lemma_dotted_two("dwconv"@, "weight"@);
            assert("dwconv.weight"@ =~= "dwconv"@.push('.') + "weight"@);
        },
        UpsampleTensor::DwconvB => {
            reveal_strlit("dwconv.bias");
            reveal_strlit("dwconv");
            reveal_strlit("bias");
            lemma_dotted_two("dwconv"@, "bias"@);
            assert("dwconv.bias"@ =~= "dwconv"@.push('.') + "bias"@);
        },
        UpsampleTensor::NormW => {
            reveal_strlit("norm.weight");
            reveal_strlit("norm");
            reveal_strlit("weight");
            lemma_dotted_two("norm"@, "weight"@);
            assert("norm.weight"@ =~= "norm"@.push('.') + "weight"@);
        },
        UpsampleTensor::NormB => {
            reveal_strlit("norm.bias");
            reveal_strlit("norm");
            reveal_strlit("bias");
            lemma_dotted_two("norm"@, "bias"@);
            assert("norm.bias"@ =~= "norm"@.push('.') + "bias"@);
        },
        UpsampleTensor::Pwconv1W => {
            reveal_strlit("pwconv1.weight");
            reveal_strlit("pwconv1");
            reveal_strlit("weight");
            lemma_dotted_two("pwconv1"@, "weight"@);
            assert("pwconv1.weight"@ =~= "pwconv1"@.push('.') + "weight"@);
        },
        UpsampleTensor::Pwconv1B => {
            reveal_strlit("pwconv1.bias");
            reveal_strlit("pwconv1");
            reveal_strlit("bias");
            lemma_dotted_two("pwconv1"@, "bias"@);
            assert("pwconv1.bias"@ =~= "pwconv1"@.push('.') + "bias"@);
        },
        UpsampleTensor::Pwconv2W => {
            reveal_strlit("pwconv2.weight");
            reveal_strlit("pwconv2");
            reveal_strlit("weight");
            lemma_dotted_two("pwconv2"@, "weight"@);
            assert("pwconv2.weight"@ =~= "pwconv2"@.push('.') + "weight"@);
        },
        UpsampleTensor::Pwconv2B => {
            reveal_strlit("pwconv2.bias");
            reveal_strlit("pwconv2");
            reveal_strlit("bias");
            lemma_dotted_two("pwconv2"@, "bias"@);
            assert("pwconv2.bias"@ =~= "pwconv2"@.push('.') + "bias"@);
        },
        UpsampleTensor::Gamma => {
            reveal_strlit("gamma");
        },
    }
}

proof fn lemma_upsample_parts_injective(a: UpsampleTensor, b: UpsampleTensor)
    requires
        upsample_parts(a) == upsample_parts(b),
    ensures
        a == b,
{
    reveal_strlit("conv");
    reveal_strlit("dwconv");
    reveal_strlit("norm");
    reveal_strlit("pwconv1");
    reveal_strlit("pwconv2");
    reveal_strlit("gamma");
    reveal_strlit("weight");
    reveal_strlit("bias");
    let (x, y) = (upsample_parts(a), upsample_parts(b));
    assert(x.len() == y.len());
    assert(x[0].len() == y[0].len());
    assert(x[0][0] == y[0][0]);
    assert(x[0][6] == y[0][6]);
    assert(x[1].len() == y[1].len());
}

proof fn lemma_residual_suffix(part: ResidualTensor)
    ensures
        part.suffix() == dotted(residual_parts(part)),
        all_plain(residual_parts(part)),
{
    match part {
        ResidualTensor::Act1Alpha => {
            reveal_strlit("act1.alpha");
            reveal_strlit("act1");
            reveal_strlit("alpha");
            lemma_dotted_two("act1"@, "alpha"@);
            assert("act1.alpha"@ =~= "act1"@.push('.') + "alpha"@);
        },
        ResidualTensor::Act1Beta => {
            reveal_strlit("act1.beta");
            reveal_strlit("act1");
            reveal_strlit("beta");
            lemma_dotted_two("act1"@, "beta"@);
            assert("act1.beta"@ =~= "act1"@.push('.') + "beta"@);
        },
        ResidualTensor::Conv1W => {
            reveal_strlit("conv1.weight");
            reveal_strlit("conv1");
            reveal_strlit("weight");
            lemma_dotted_two("conv1"@, "weight"@);
            assert("conv1.weight"@ =~= "conv1"@.push('.') + "weight"@);
        },
        ResidualTensor::Conv1B => {
            reveal_strlit("conv1.bias");
            reveal_strlit("conv1");
            reveal_strlit("bias");
            lemma_dotted_two("conv1"@, "bias"@);
            assert("conv1.bias"@ =~= "conv1"@.push('.') + "bias"@);
        },
        ResidualTensor::Act2Alpha => {
            reveal_strlit("act2.alpha");
            reveal_strlit("act2");
            reveal_strlit("alpha");
            lemma_dotted_two("act2"@, "alpha"@);
            assert("act2.alpha"@ =~= "act2"@.push('.') + "alpha"@);
        },
        ResidualTensor::Act2Beta => {
            reveal_strlit("act2.beta");
            reveal_strlit("act2");
            reveal_strlit("beta");
            lemma_dotted_two("act2"@, "beta"@);
            assert("act2.beta"@ =~= "act2"@.push('.') + "beta"@);
        },
        ResidualTensor::Conv2W => {
            reveal_strlit("conv2.weight");
            reveal_strlit("conv2");
            reveal_strlit("weight");
            lemma_dotted_two("conv2"@, "weight"@);
            assert("conv2.weight"@ =~= "conv2"@.push('.') + "weight"@);
        },
        ResidualTensor::Conv2B => {
            reveal_strlit("conv2.bias");
            reveal_strlit("conv2");
            reveal_strlit("bias");
            lemma_dotted_two("conv2"@, "bias"@);
            assert("conv2.bias"@ =~= "conv2"@.push('.') + "bias"@);
        },
    }
}

proof fn lemma_residual_parts_injective(a: ResidualTensor, b: ResidualTensor)
    requires
        residual_parts(a) == residual_parts(b),
    ensures
        a == b,
{
    reveal_strlit("act1");
    reveal_strlit("act2");
    reveal_strlit("conv1");
    reveal_strlit("conv2");
    reveal_strlit("alpha");
    reveal_strlit("beta");
    reveal_strlit("weight");
    reveal_strlit("bias");
    let (x, y) = (residual_parts(a), residual_parts(b));
    assert(x.len() == y.len());
    assert(x[0].len() == y[0].len());
    assert(x[0][3] == y[0][3]);
    assert(x[0][4] == y[0][4]);
    assert(x[1].len() == y[1].len());
}

proof fn lemma_decoder_suffix(part: DecoderTensor)
    ensures
        part.suffix() == dotted(decoder_parts(part)),
        all_plain(decoder_parts(part)),
{
    match part {
        DecoderTensor::SnakeAlpha => {
            reveal_strlit("snake.alpha");
            reveal_strlit("snake");
            reveal_strlit("alpha");
            lemma_dotted_two("snake"@, "alpha"@);
            assert("snake.alpha"@ =~= "snake"@.push('.') + "alpha"@);
        },
        DecoderTensor::SnakeBeta => {
            reveal_strlit("snake.beta");
            reveal_strlit("snake");
            reveal_strlit("beta");
            lemma_dotted_two("snake"@, "beta"@);
            assert("snake.beta"@ =~= "snake"@.push('.') + "beta"@);
        },
        DecoderTensor::ConvTW => {
            reveal_strlit("conv_t.weight");
            reveal_strlit("conv_t");
            reveal_strlit("weight");
            lemma_dotted_two("conv_t"@, "weight"@);
            assert("conv_t.weight"@ =~= "conv_t"@.push('.') + "weight"@);
        },
        DecoderTensor::ConvTB => {
            reveal_strlit("conv_t.bias");
            reveal_strlit("conv_t");
            reveal_strlit("bias");
            lemma_dotted_two("conv_t"@, "bias"@);
            assert("conv_t.bias"@ =~= "conv_t"@.push('.') + "bias"@);
        },
    }
}

proof fn lemma_decoder_parts_injective(a: DecoderTensor, b: DecoderTensor)
    requires
        decoder_parts(a) == decoder_parts(b),
    ensures
        a == b,
{
    reveal_strlit("snake");
    reveal_strlit("conv_t");
    reveal_strlit("alpha");
    reveal_strlit("beta");
    reveal_strlit("weight");
    reveal_strlit("bias");
    let (x, y) = (decoder_parts(a), decoder_parts(b));
    assert(x.len() == y.len());
    assert(x[0].len() == y[0].len());
    assert(x[1].len() == y[1].len());
}

/// The parts of a tensor's name.
pub open spec fn name_parts(t: VocoderTensor) -> Seq<Seq<char>> {
    match t {
        VocoderTensor::VqFirstOutputProj => seq!["tok_dec"@, "vq_first"@, "output_proj"@, "weight"@],
        VocoderTensor::VqFirstCodebook => seq!["tok_dec"@, "vq_first"@, "0"@, "codebook"@],
        VocoderTensor::VqFirstUsage => seq!["tok_dec"@, "vq_first"@, "0"@, "usage"@],
        VocoderTensor::VqRestOutputProj => seq!["tok_dec"@, "vq_rest"@, "output_proj"@, "weight"@],
        VocoderTensor::PreConvW => seq!["tok_dec"@, "pre_conv"@, "weight"@],
        VocoderTensor::PreConvB => seq!["tok_dec"@, "pre_conv"@, "bias"@],
        VocoderTensor::PreTfmInputProjW => seq!["tok_dec"@, "pre_tfm"@, "input_proj"@, "weight"@],
        VocoderTensor::PreTfmInputProjB => seq!["tok_dec"@, "pre_tfm"@, "input_proj"@, "bias"@],
        VocoderTensor::PreTfmNormW => seq!["tok_dec"@, "pre_tfm"@, "norm"@, "weight"@],
        VocoderTensor::PreTfmOutputProjW => seq!["tok_dec"@, "pre_tfm"@, "output_proj"@, "weight"@],
        VocoderTensor::PreTfmOutputProjB => seq!["tok_dec"@, "pre_tfm"@, "output_proj"@, "bias"@],
        VocoderTensor::Dec0ConvW => seq!["tok_dec"@, "dec"@, "0"@, "conv"@, "weight"@],
        VocoderTensor::Dec0ConvB => seq!["tok_dec"@, "dec"@, "0"@, "conv"@, "bias"@],
        VocoderTensor::Dec5SnakeAlpha => seq!["tok_dec"@, "dec"@, "5"@, "snake"@, "alpha"@],
        VocoderTensor::Dec5SnakeBeta => seq!["tok_dec"@, "dec"@, "5"@, "snake"@, "beta"@],
        VocoderTensor::Dec6ConvW => seq!["tok_dec"@, "dec"@, "6"@, "conv"@, "weight"@],
        VocoderTensor::Dec6ConvB => seq!["tok_dec"@, "dec"@, "6"@, "conv"@, "bias"@],
        VocoderTensor::VqRestCodebook(i) => seq![
            "tok_dec"@,
            "vq_rest"@,
            decimal(i as nat),
            "codebook"@,
        ],
        VocoderTensor::VqRestUsage(i) => seq![
            "tok_dec"@,
            "vq_rest"@,
            decimal(i as nat),
            "usage"@,
        ],
        VocoderTensor::Layer(i, part) => seq!["tok_dec"@, "pre_tfm"@, "blk"@, decimal(i as nat)]
            + layer_parts(part),
        VocoderTensor::Upsample(i, part) => seq!["tok_dec"@, "upsample"@, decimal(i as nat)]
            + upsample_parts(part),
        VocoderTensor::Residual(b, r, part) => seq![
            "tok_dec"@,
            "dec"@,
            decimal(b as nat),
            "res"@,
            decimal(r as nat),
        ] + residual_parts(part),
        VocoderTensor::Decoder(b, part) => seq!["tok_dec"@, "dec"@, decimal(b as nat)]
            + decoder_parts(part),
    }
}

proof fn lemma_decimal_plain(n: nat)
    ensures
        plain(decimal(n)),
        decimal(n).len() > 0,
        is_digit(decimal(n)[0]),
        n < 10 ==> decimal(n) == seq![(('0' as u8) + n) as char],
{
    lemma_decimal_round_trip(n);
    assert forall|i: int| 0 <= i < decimal(n).len() implies #[trigger] decimal(n)[i] != '.' by {
        assert(is_digit(decimal(n)[i]));
    }
}

proof fn lemma_dotted_prefix(head: Seq<Seq<char>>, tail: Seq<Seq<char>>)
    requires
        head.len() > 0,
        tail.len() > 0,
    ensures
        dotted(head + tail) == dotted(head).push('.') + dotted(tail),
    decreases head.len(),
{
    if head.len() == 1 {
        assert(head + tail =~= seq![head[0]] + tail);
        lemma_dotted_more(head[0], tail);
        assert(dotted(head) == head[0]);
    } else {
        let rest = head.drop_first();
        lemma_dotted_prefix(rest, tail);
        assert((head + tail).drop_first() =~= rest + tail);
        assert(dotted(head + tail) =~= head[0].push('.') + dotted(rest + tail));
        assert(dotted(head) == head[0].push('.') + dotted(rest));
        assert(dotted(head + tail) =~= dotted(head).push('.') + dotted(tail));
    }
}

proof fn lemma_plain_concat(a: Seq<Seq<char>>, b: Seq<Seq<char>>)
    requires
        all_plain(a),
        all_plain(b),
    ensures
        all_plain(a + b),
{
    assert forall|i: int| 0 <= i < (a + b).len() implies plain(#[trigger] (a + b)[i]) by {
        if i < a.len() {
            assert(plain(a[i]));
        } else {
            assert(plain(b[i - a.len()]));
        }
    }
}

proof fn lemma_dotted_three(a: Seq<char>, b: Seq<char>, c: Seq<char>)
    ensures
        dotted(seq![a, b, c]) == a.push('.') + (b.push('.') + c),
{
    lemma_dotted_two(b, c);
    lemma_dotted_more(a, seq![b, c]);
    assert(seq![a] + seq![b, c] =~= seq![a, b, c]);
}

proof fn lemma_dotted_four(a: Seq<char>, b: Seq<char>, c: Seq<char>, d: Seq<char>)
    ensures
        dotted(seq![a, b, c, d]) == a.push('.') + (b.push('.') + (c.push('.') + d)),
{
    lemma_dotted_three(b, c, d);
    lemma_dotted_more(a, seq![b, c, d]);
    assert(seq![a] + seq![b, c, d] =~= seq![a, b, c, d]);
}

proof fn lemma_dotted_five(a: Seq<char>, b: Seq<char>, c: Seq<char>, d: Seq<char>, e: Seq<char>)
    ensures
        dotted(seq![a, b, c, d, e]) == a.push('.') + (b.push('.') + (c.push('.') + (d.push('.')
            + e))),
{
    lemma_dotted_four(b, c, d, e);
    lemma_dotted_more(a, seq![b, c, d, e]);
    assert(seq![a] + seq![b, c, d, e] =~= seq![a, b, c, d, e]);
}

proof fn lemma_fixed_name(t: VocoderTensor)
    requires
        !(t is VqRestCodebook) && !(t is VqRestUsage) && !(t is Layer) && !(t is Upsample) && !(
        t is Residual) && !(t is Decoder),
    ensures
        t.spec_name() == dotted(name_parts(t)),
        all_plain(name_parts(t)),
{
    reveal_strlit("tok_dec");
    match t {
        VocoderTensor::VqFirstOutputProj => {
            reveal_strlit("tok_dec.vq_first.output_proj.weight");
            reveal_strlit("vq_first");
            reveal_strlit("output_proj");
            reveal_strlit("weight");
            lemma_dotted_four("tok_dec"@, "vq_first"@, "output_proj"@, "weight"@);
            assert(dotted(name_parts(t)) =~= "tok_dec.vq_first.output_proj.weight"@);
        },
        VocoderTensor::VqFirstCodebook => {
            reveal_strlit("tok_dec.vq_first.0.codebook");
            reveal_strlit("vq_first");
            reveal_strlit("0");
            reveal_strlit("codebook");
            lemma_dotted_four("tok_dec"@, "vq_first"@, "0"@, "codebook"@);
            assert(dotted(name_parts(t)) =~= "tok_dec.vq_first.0.codebook"@);
        },
        VocoderTensor::VqFirstUsage => {
            reveal_strlit("tok_dec.vq_first.0.usage");
            reveal_strlit("vq_first");
            reveal_strlit("0");
            reveal_strlit("usage");
            lemma_dotted_four("tok_dec"@, "vq_first"@, "0"@, "usage"@);
            assert(dotted(name_parts(t)) =~= "tok_dec.vq_first.0.usage"@);
        },
        VocoderTensor::VqRestOutputProj => {
            reveal_strlit("tok_dec.vq_rest.output_proj.weight");
            reveal_strlit("vq_rest");
            reveal_strlit("output_proj");
            reveal_strlit("weight");
            lemma_dotted_four("tok_dec"@, "vq_rest"@, "output_proj"@, "weight"@);
            assert(dotted(name_parts(t)) =~= "tok_dec.vq_rest.output_proj.weight"@);
        },
        VocoderTensor::PreConvW => {
            reveal_strlit("tok_dec.pre_conv.weight");
            reveal_strlit("pre_conv");
            reveal_strlit("weight");
            lemma_dotted_three("tok_dec"@, "pre_conv"@, "weight"@);
            assert(dotted(name_parts(t)) =~= "tok_dec.pre_conv.weight"@);
        },
        VocoderTensor::PreConvB => {
            reveal_strlit("tok_dec.pre_conv.bias");
            reveal_strlit("pre_conv");
            reveal_strlit("bias");
            lemma_dotted_three("tok_dec"@, "pre_conv"@, "bias"@);
            assert(dotted(name_parts(t)) =~= "tok_dec.pre_conv.bias"@);
        },
        VocoderTensor::PreTfmInputProjW => {
            reveal_strlit("tok_dec.pre_tfm.input_proj.weight");
            reveal_strlit("pre_tfm");
            reveal_strlit("input_proj");
            reveal_strlit("weight");
            lemma_dotted_four("tok_dec"@, "pre_tfm"@, "input_proj"@, "weight"@);
            assert(dotted(name_parts(t)) =~= "tok_dec.pre_tfm.input_proj.weight"@);
        },
        VocoderTensor::PreTfmInputProjB => {
            reveal_strlit("tok_dec.pre_tfm.input_proj.bias");
            reveal_strlit("pre_tfm");
            reveal_strlit("input_proj");
            reveal_strlit("bias");
            lemma_dotted_four("tok_dec"@, "pre_tfm"@, "input_proj"@, "bias"@);
            assert(dotted(name_parts(t)) =~= "tok_dec.pre_tfm.input_proj.bias"@);
        },
        VocoderTensor::PreTfmNormW => {
            reveal_strlit("tok_dec.pre_tfm.norm.weight");
            reveal_strlit("pre_tfm");
            reveal_strlit("norm");
            reveal_strlit("weight");
            lemma_dotted_four("tok_dec"@, "pre_tfm"@, "norm"@, "weight"@);
            assert(dotted(name_parts(t)) =~= "tok_dec.pre_tfm.norm.weight"@);
        },
        VocoderTensor::PreTfmOutputProjW => {
            reveal_strlit("tok_dec.pre_tfm.output_proj.weight");
            reveal_strlit("pre_tfm");
            reveal_strlit("output_proj");
            reveal_strlit("weight");
            lemma_dotted_four("tok_dec"@, "pre_tfm"@, "output_proj"@, "weight"@);
            assert(dotted(name_parts(t)) =~= "tok_dec.pre_tfm.output_proj.weight"@);
        },
        VocoderTensor::PreTfmOutputProjB => {
            reveal_strlit("tok_dec.pre_tfm.output_proj.bias");
            reveal_strlit("pre_tfm");
            reveal_strlit("output_proj");
            reveal_strlit("bias");
            lemma_dotted_four("tok_dec"@, "pre_tfm"@, "output_proj"@, "bias"@);
            assert(dotted(name_parts(t)) =~= "tok_dec.pre_tfm.output_proj.bias"@);
        },
        VocoderTensor::Dec0ConvW => {
            reveal_strlit("tok_dec.dec.0.conv.weight");
            reveal_strlit("dec");
            reveal_strlit("0");
            reveal_strlit("conv");
            reveal_strlit("weight");
            lemma_dotted_five("tok_dec"@, "dec"@, "0"@, "conv"@, "weight"@);
            assert(dotted(name_parts(t)) =~= "tok_dec.dec.0.conv.weight"@);
        },
        VocoderTensor::Dec0ConvB => {
            reveal_strlit("tok_dec.dec.0.conv.bias");
            reveal_strlit("dec");
            reveal_strlit("0");
            reveal_strlit("conv");
            reveal_strlit("bias");
            lemma_dotted_five("tok_dec"@, "dec"@, "0"@, "conv"@, "bias"@);
            assert(dotted(name_parts(t)) =~= "tok_dec.dec.0.conv.bias"@);
        },
        VocoderTensor::Dec5SnakeAlpha => {
            reveal_strlit("tok_dec.dec.5.snake.alpha");
            reveal_strlit("dec");
            reveal_strlit("5");
            reveal_strlit("snake");
            reveal_strlit("alpha");
            lemma_dotted_five("tok_dec"@, "dec"@, "5"@, "snake"@, "alpha"@);
            assert(dotted(name_parts(t)) =~= "tok_dec.dec.5.snake.alpha"@);
        },
        VocoderTensor::Dec5SnakeBeta => {
            reveal_strlit("tok_dec.dec.5.snake.beta");
            reveal_strlit("dec");
            reveal_strlit("5");
            reveal_strlit("snake");
            reveal_strlit("beta");
            lemma_dotted_five("tok_dec"@, "dec"@, "5"@, "snake"@, "beta"@);
            assert(dotted(name_parts(t)) =~= "tok_dec.dec.5.snake.beta"@);
        },
        VocoderTensor::Dec6ConvW => {
            reveal_strlit("tok_dec.dec.6.conv.weight");
            reveal_strlit("dec");
            reveal_strlit("6");
            reveal_strlit("conv");
            reveal_strlit("weight");
            lemma_dotted_five("tok_dec"@, "dec"@, "6"@, "conv"@, "weight"@);
            assert(dotted(name_parts(t)) =~= "tok_dec.dec.6.conv.weight"@);
        },
        VocoderTensor::Dec6ConvB => {
            reveal_strlit("tok_dec.dec.6.conv.bias");
            reveal_strlit("dec");
            reveal_strlit("6");
            reveal_strlit("conv");
            reveal_strlit("bias");
            lemma_dotted_five("tok_dec"@, "dec"@, "6"@, "conv"@, "bias"@);
            assert(dotted(name_parts(t)) =~= "tok_dec.dec.6.conv.bias"@);
        },
        _ => {},
    }
}

proof fn lemma_numbered(head: Seq<Seq<char>>, prefix: Seq<char>, n: nat)
    requires
        all_plain(head),
        prefix == dotted(head).push('.'),
    ensures
        dotted(head.push(decimal(n))) == prefix + decimal(n),
        all_plain(head.push(decimal(n))),
{
    lemma_decimal_plain(n);
    let tail = seq![decimal(n)];
    lemma_dotted_prefix(head, tail);
    assert(all_plain(tail));
    lemma_plain_concat(head, tail);
    assert(head + tail =~= head.push(decimal(n)));
    assert(dotted(tail) == decimal(n));
}

proof fn lemma_heads()
    ensures
        all_plain(seq!["tok_dec"@, "vq_rest"@]),
        dotted(seq!["tok_dec"@, "vq_rest"@]).push('.') == "tok_dec.vq_rest."@,
        all_plain(seq!["tok_dec"@, "pre_tfm"@, "blk"@]),
        dotted(seq!["tok_dec"@, "pre_tfm"@, "blk"@]).push('.') == "tok_dec.pre_tfm.blk."@,
        all_plain(seq!["tok_dec"@, "upsample"@]),
        dotted(seq!["tok_dec"@, "upsample"@]).push('.') == "tok_dec.upsample."@,
        all_plain(seq!["tok_dec"@, "dec"@]),
        dotted(seq!["tok_dec"@, "dec"@]).push('.') == "tok_dec.dec."@,
{
    reveal_strlit("tok_dec");
    reveal_strlit("vq_rest");
    reveal_strlit("pre_tfm");
    reveal_strlit("blk");
    reveal_strlit("upsample");
    reveal_strlit("dec");
    reveal_strlit("tok_dec.vq_rest.");
    reveal_strlit("tok_dec.pre_tfm.blk.");
    reveal_strlit("tok_dec.upsample.");
    reveal_strlit("tok_dec.dec.");
    lemma_dotted_two("tok_dec"@, "vq_rest"@);
    assert(dotted(seq!["tok_dec"@, "vq_rest"@]).push('.') =~= "tok_dec.vq_rest."@);
    lemma_dotted_two("pre_tfm"@, "blk"@);
    lemma_dotted_more("tok_dec"@, seq!["pre_tfm"@, "blk"@]);
    assert(seq!["tok_dec"@] + seq!["pre_tfm"@, "blk"@] =~= seq!["tok_dec"@, "pre_tfm"@, "blk"@]);
    assert(dotted(seq!["tok_dec"@, "pre_tfm"@, "blk"@]).push('.') =~= "tok_dec.pre_tfm.blk."@);
    lemma_dotted_two("tok_dec"@, "upsample"@);
    assert(dotted(seq!["tok_dec"@, "upsample"@]).push('.') =~= "tok_dec.upsample."@);
    lemma_dotted_two("tok_dec"@, "dec"@);
    assert(dotted(seq!["tok_dec"@, "dec"@]).push('.') =~= "tok_dec.dec."@);
}

/// A tensor's name is its parts, joined by dots.
pub proof fn lemma_name_is_dotted(t: VocoderTensor)
    ensures
        t.spec_name() == dotted(name_parts(t)),
        all_plain(name_parts(t)),
{
    lemma_heads();
    reveal_strlit(".");
    match t {
        VocoderTensor::VqRestCodebook(i) => {
            let head = seq!["tok_dec"@, "vq_rest"@];
            lemma_numbered(head, "tok_dec.vq_rest."@, i as nat);
            lemma_one_more(head.push(decimal(i as nat)), "codebook"@, ".codebook"@);
            assert(head.push(decimal(i as nat)) + seq!["codebook"@] =~= name_parts(t));
        },
        VocoderTensor::VqRestUsage(i) => {
            let head = seq!["tok_dec"@, "vq_rest"@];
            lemma_numbered(head, "tok_dec.vq_rest."@, i as nat);
            lemma_one_more(head.push(decimal(i as nat)), "usage"@, ".usage"@);
            assert(head.push(decimal(i as nat)) + seq!["usage"@] =~= name_parts(t));
        },
        VocoderTensor::Layer(i, part) => {
            let head = seq!["tok_dec"@, "pre_tfm"@, "blk"@];
            lemma_numbered(head, "tok_dec.pre_tfm.blk."@, i as nat);
            lemma_layer_suffix(part);
            lemma_behind_number(head.push(decimal(i as nat)), layer_parts(part));
            assert(head.push(decimal(i as nat)) + layer_parts(part) =~= name_parts(t));
        },
        VocoderTensor::Upsample(i, part) => {
            let head = seq!["tok_dec"@, "upsample"@];
            lemma_numbered(head, "tok_dec.upsample."@, i as nat);
            lemma_upsample_suffix(part);
            lemma_behind_number(head.push(decimal(i as nat)), upsample_parts(part));
            assert(head.push(decimal(i as nat)) + upsample_parts(part) =~= name_parts(t));
        },
        VocoderTensor::Decoder(b, part) => {
            let head = seq!["tok_dec"@, "dec"@];
            lemma_numbered(head, "tok_dec.dec."@, b as nat);
            lemma_decoder_suffix(part);
            lemma_behind_number(head.push(decimal(b as nat)), decoder_parts(part));
            assert(head.push(decimal(b as nat)) + decoder_parts(part) =~= name_parts(t));
        },
        VocoderTensor::Residual(b, r, part) => {
            reveal_strlit("res");
            reveal_strlit(".res.");
            let head = seq!["tok_dec"@, "dec"@];
            let block = head.push(decimal(b as nat));
            lemma_numbered(head, "tok_dec.dec."@, b as nat);
            let unit = block.push("res"@);
            lemma_dotted_prefix(block, seq!["res"@]);
            assert(all_plain(seq!["res"@]));
            lemma_plain_concat(block, seq!["res"@]);
            assert(block + seq!["res"@] =~= unit);
            assert(dotted(seq!["res"@]) == "res"@);
            let prefix = "tok_dec.dec."@ + decimal(b as nat) + ".res."@;
            assert(prefix =~= dotted(unit).push('.'));
            lemma_numbered(unit, prefix, r as nat);
            lemma_residual_suffix(part);
            lemma_behind_number(unit.push(decimal(r as nat)), residual_parts(part));
            assert(unit.push(decimal(r as nat)) + residual_parts(part) =~= name_parts(t));
        },
        _ => {
            lemma_fixed_name(t);
        },
    }
}

proof fn lemma_one_more(head: Seq<Seq<char>>, part: Seq<char>, tail: Seq<char>)
    requires
        all_plain(head),
        part == "codebook"@ && tail == ".codebook"@ || part == "usage"@ && tail == ".usage"@,
    ensures
        dotted(head + seq![part]) == dotted(head) + tail,
        all_plain(head + seq![part]),
{
    reveal_strlit("codebook");
    reveal_strlit(".codebook");
    reveal_strlit("usage");
    reveal_strlit(".usage");
    lemma_dotted_prefix(head, seq![part]);
    assert(dotted(seq![part]) == part);
    assert(all_plain(seq![part]));
    lemma_plain_concat(head, seq![part]);
    assert(dotted(head).push('.') + part =~= dotted(head) + tail);
}

proof fn lemma_behind_number(head: Seq<Seq<char>>, tail: Seq<Seq<char>>)
    requires
        all_plain(head),
        all_plain(tail),
    ensures
        dotted(head + tail) == dotted(head) + "."@ + dotted(tail),
        all_plain(head + tail),
{
    reveal_strlit(".");
    lemma_dotted_prefix(head, tail);
    lemma_plain_concat(head, tail);
    assert(dotted(head).push('.') =~= dotted(head) + "."@);
}

/// No two tensors of a vocoder have the same name.
pub proof fn lemma_names_are_distinct(t: VocoderTensor, u: VocoderTensor, rest: nat, count: nat)
    requires
        belongs(t, rest, count),
        belongs(u, rest, count),
        t.spec_name() == u.spec_name(),
    ensures
        t == u,
{
    lemma_name_is_dotted(t);
    lemma_name_is_dotted(u);
    let (p, q) = (name_parts(t), name_parts(u));
    lemma_dotted_injective(p, q);
    lemma_same_group(t, u);
    if group(t) == 5 {
        lemma_decoder_group(t, u);
    } else if group(t) == 3 {
        lemma_transformer_group(t, u);
    } else {
        lemma_small_groups(t, u);
    }
}

/// The group that a tensor's name puts it in.
spec fn group(t: VocoderTensor) -> int {
    match t {
        VocoderTensor::VqFirstOutputProj
        | VocoderTensor::VqFirstCodebook
        | VocoderTensor::VqFirstUsage => 0,
        VocoderTensor::VqRestOutputProj
        | VocoderTensor::VqRestCodebook(_)
        | VocoderTensor::VqRestUsage(_) => 1,
        VocoderTensor::PreConvW | VocoderTensor::PreConvB => 2,
        VocoderTensor::PreTfmInputProjW
        | VocoderTensor::PreTfmInputProjB
        | VocoderTensor::PreTfmNormW
        | VocoderTensor::PreTfmOutputProjW
        | VocoderTensor::PreTfmOutputProjB
        | VocoderTensor::Layer(_, _) => 3,
        VocoderTensor::Upsample(_, _) => 4,
        _ => 5,
    }
}

proof fn lemma_same_group(t: VocoderTensor, u: VocoderTensor)
    requires
        name_parts(t) == name_parts(u),
    ensures
        group(t) == group(u),
{
    reveal_strlit("vq_first");
    reveal_strlit("vq_rest");
    reveal_strlit("pre_conv");
    reveal_strlit("pre_tfm");
    reveal_strlit("upsample");
    reveal_strlit("dec");
    let (x, y) = (name_parts(t)[1], name_parts(u)[1]);
    assert(x.len() == y.len());
    assert(x[0] == y[0]);
}

proof fn lemma_small_groups(t: VocoderTensor, u: VocoderTensor)
    requires
        name_parts(t) == name_parts(u),
        group(t) == group(u),
        group(t) <= 2 || group(t) == 4,
    ensures
        t == u,
{
    let (p, q) = (name_parts(t), name_parts(u));
    reveal_strlit("output_proj");
    reveal_strlit("0");
    reveal_strlit("weight");
    reveal_strlit("bias");
    reveal_strlit("codebook");
    reveal_strlit("usage");
    assert(p[2].len() == q[2].len());
    if group(t) <= 1 {
        assert(p[3].len() == q[3].len());
    }
    match (t, u) {
        (VocoderTensor::VqRestCodebook(i), VocoderTensor::VqRestCodebook(j)) => {
            assert(p[2] == q[2]);
            lemma_decimal_injective(i as nat, j as nat);
        },
        (VocoderTensor::VqRestUsage(i), VocoderTensor::VqRestUsage(j)) => {
            assert(p[2] == q[2]);
            lemma_decimal_injective(i as nat, j as nat);
        },
        (VocoderTensor::Upsample(i, a), VocoderTensor::Upsample(j, b)) => {
            assert(p[2] == q[2]);
            lemma_decimal_injective(i as nat, j as nat);
            assert(upsample_parts(a) =~= p.skip(3));
            assert(upsample_parts(b) =~= q.skip(3));
            lemma_upsample_parts_injective(a, b);
        },
        _ => {},
    }
}

proof fn lemma_transformer_group(t: VocoderTensor, u: VocoderTensor)
    requires
        name_parts(t) == name_parts(u),
        group(t) == 3,
        group(u) == 3,
    ensures
        t == u,
{
    let (p, q) = (name_parts(t), name_parts(u));
    reveal_strlit("input_proj");
    reveal_strlit("norm");
    reveal_strlit("output_proj");
    reveal_strlit("blk");
    reveal_strlit("weight");
    reveal_strlit("bias");
    assert(p[2].len() == q[2].len());
    assert(p[3].len() == q[3].len());
    match (t, u) {
        (VocoderTensor::Layer(i, a), VocoderTensor::Layer(j, b)) => {
            assert(p[3] == q[3]);
            lemma_decimal_injective(i as nat, j as nat);
            assert(layer_parts(a) =~= p.skip(4));
            assert(layer_parts(b) =~= q.skip(4));
            lemma_layer_parts_injective(a, b);
        },
        _ => {},
    }
}

proof fn lemma_decoder_group(t: VocoderTensor, u: VocoderTensor)
    requires
        name_parts(t) == name_parts(u),
        group(t) == 5,
        group(u) == 5,
        belongs(t, 0, 0),
        belongs(u, 0, 0),
    ensures
        t == u,
{
    let (p, q) = (name_parts(t), name_parts(u));
    reveal_strlit("0");
    reveal_strlit("5");
    reveal_strlit("6");
    reveal_strlit("alpha");
    reveal_strlit("beta");
    reveal_strlit("weight");
    reveal_strlit("bias");
    assert(p.len() == q.len());
    assert(p[2][0] == q[2][0]);
    assert(p[2] == q[2]);
    assert(p[4].len() == q[4].len());
    match t {
        VocoderTensor::Residual(b, r, _) => {
            lemma_decimal_plain(b as nat);
            lemma_decimal_plain(r as nat);
        },
        VocoderTensor::Decoder(b, _) => {
            lemma_decimal_plain(b as nat);
        },
        _ => {},
    }
    match u {
        VocoderTensor::Residual(b, r, _) => {
            lemma_decimal_plain(b as nat);
            lemma_decimal_plain(r as nat);
        },
        VocoderTensor::Decoder(b, _) => {
            lemma_decimal_plain(b as nat);
        },
        _ => {},
    }
    match (t, u) {
        (VocoderTensor::Residual(b, r, x), VocoderTensor::Residual(c, s, y)) => {
            lemma_decimal_injective(b as nat, c as nat);
            assert(p[4] == q[4]);
            lemma_decimal_injective(r as nat, s as nat);
            assert(residual_parts(x) =~= p.skip(5));
            assert(residual_parts(y) =~= q.skip(5));
            lemma_residual_parts_injective(x, y);
        },
        (VocoderTensor::Decoder(b, x), VocoderTensor::Decoder(c, y)) => {
            lemma_decimal_injective(b as nat, c as nat);
            assert(decoder_parts(x) =~= p.skip(3));
            assert(decoder_parts(y) =~= q.skip(3));
            lemma_decoder_parts_injective(x, y);
        },
        _ => {},
    }
}

} // verus!
