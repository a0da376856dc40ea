//! The tensors of the vocoder, their names in the model file, and which of them it works without.

use vstd::prelude::*;
use crate::text::decimal_text;
#[allow(unused_imports)]
use crate::text::decimal;

verus! {

/// The tensors of one transformer layer.
#[derive(Debug, Clone, Copy, PartialEq, Eq, Structural)]
pub enum LayerTensor {
    AttnNorm,
    AttnQ,
    AttnK,
    AttnV,
    AttnOutput,
    AttnScale,
    FfnNorm,
    FfnGate,
    FfnUp,
    FfnDown,
    FfnScale,
}

/// The tensors of one upsampling block.
#[derive(Debug, Clone, Copy, PartialEq, Eq, Structural)]
pub enum UpsampleTensor {
    ConvW,
    ConvB,
    DwconvW,
    DwconvB,
    NormW,
    NormB,
    Pwconv1W,
    Pwconv1B,
    Pwconv2W,
    Pwconv2B,
    Gamma,
}

/// The tensors of one residual unit.
#[derive(Debug, Clone, Copy, PartialEq, Eq, Structural)]
pub enum ResidualTensor {
    Act1Alpha,
    Act1Beta,
    Conv1W,
    Conv1B,
    Act2Alpha,
    Act2Beta,
    Conv2W,
    Conv2B,
}

/// The tensors of one decoder block, its residual units apart.
#[derive(Debug, Clone, Copy, PartialEq, Eq, Structural)]
pub enum DecoderTensor {
    SnakeAlpha,
    SnakeBeta,
    ConvTW,
    ConvTB,
}

/// A tensor of the vocoder.
#[derive(Debug, Clone, Copy, PartialEq, Eq, Structural)]
pub enum VocoderTensor {
    VqFirstOutputProj,
    VqFirstCodebook,
    VqFirstUsage,
    VqRestOutputProj,
    /// The codebook of the given index among those after the first.
    VqRestCodebook(usize),
    VqRestUsage(usize),
    PreConvW,
    PreConvB,
    PreTfmInputProjW,
    PreTfmInputProjB,
    PreTfmNormW,
    PreTfmOutputProjW,
    PreTfmOutputProjB,
    /// A tensor of the transformer layer of the given index.
    Layer(usize, LayerTensor),
    /// A tensor of the upsampling block of the given index.
    Upsample(usize, UpsampleTensor),
    Dec0ConvW,
    Dec0ConvB,
    /// A tensor of a residual unit: the decoder block's number, then the unit's.
    Residual(usize, usize, ResidualTensor),
    /// A tensor of the decoder block of the given number.
    Decoder(usize, DecoderTensor),
    Dec5SnakeAlpha,
    Dec5SnakeBeta,
    Dec6ConvW,
    Dec6ConvB,
}

impl LayerTensor {
    pub open spec fn suffix(self) -> Seq<char> {
        match self {
            LayerTensor::AttnNorm => "attn_norm.weight"@,
            LayerTensor::AttnQ => "attn_q.weight"@,
            LayerTensor::AttnK => "attn_k.weight"@,
            LayerTensor::AttnV => "attn_v.weight"@,
            LayerTensor::AttnOutput => "attn_output.weight"@,
            LayerTensor::AttnScale => "attn_scale"@,
            LayerTensor::FfnNorm => "ffn_norm.weight"@,
            LayerTensor::FfnGate => "ffn_gate.weight"@,
            LayerTensor::FfnUp => "ffn_up.weight"@,
            LayerTensor::FfnDown => "ffn_down.weight"@,
            LayerTensor::FfnScale => "ffn_scale"@,
        }
    }

    fn suffix_text(self) -> (r: &'static str)
        ensures
            r@ == self.suffix(),
    {
        match self {
            LayerTensor::AttnNorm => "attn_norm.weight",
            LayerTensor::AttnQ => "attn_q.weight",
            LayerTensor::AttnK => "attn_k.weight",
            LayerTensor::AttnV => "attn_v.weight",
            LayerTensor::AttnOutput => "attn_output.weight",
            LayerTensor::AttnScale => "attn_scale",
            LayerTensor::FfnNorm => "ffn_norm.weight",
            LayerTensor::FfnGate => "ffn_gate.weight",
            LayerTensor::FfnUp => "ffn_up.weight",
            LayerTensor::FfnDown => "ffn_down.weight",
            LayerTensor::FfnScale => "ffn_scale",
        }
    }
}

impl UpsampleTensor {
    pub open spec fn suffix(self) -> Seq<char> {
        match self {
            UpsampleTensor::ConvW => "conv.weight"@,
            UpsampleTensor::ConvB => "conv.bias"@,
            UpsampleTensor::DwconvW => "dwconv.weight"@,
            UpsampleTensor::DwconvB => "dwconv.bias"@,
            UpsampleTensor::NormW => "norm.weight"@,
            UpsampleTensor::NormB => "norm.bias"@,
            UpsampleTensor::Pwconv1W => "pwconv1.weight"@,
            UpsampleTensor::Pwconv1B => "pwconv1.bias"@,
            UpsampleTensor::Pwconv2W => "pwconv2.weight"@,
            UpsampleTensor::Pwconv2B => "pwconv2.bias"@,
            UpsampleTensor::Gamma => "gamma"@,
        }
    }

    fn suffix_text(self) -> (r: &'static str)
        ensures
            r@ == self.suffix(),
    {
        match self {
            UpsampleTensor::ConvW => "conv.weight",
            UpsampleTensor::ConvB => "conv.bias",
            UpsampleTensor::DwconvW => "dwconv.weight",
            UpsampleTensor::DwconvB => "dwconv.bias",
            UpsampleTensor::NormW => "norm.weight",
            UpsampleTensor::NormB => "norm.bias",
            UpsampleTensor::Pwconv1W => "pwconv1.weight",
            UpsampleTensor::Pwconv1B => "pwconv1.bias",
            UpsampleTensor::Pwconv2W => "pwconv2.weight",
            UpsampleTensor::Pwconv2B => "pwconv2.bias",
            UpsampleTensor::Gamma => "gamma",
        }
    }
}

impl ResidualTensor {
    pub open spec fn suffix(self) -> Seq<char> {
        match self {
            ResidualTensor::Act1Alpha => "act1.alpha"@,
            ResidualTensor::Act1Beta => "act1.beta"@,
            ResidualTensor::Conv1W => "conv1.weight"@,
            ResidualTensor::Conv1B => "conv1.bias"@,
            ResidualTensor::Act2Alpha => "act2.alpha"@,
            ResidualTensor::Act2Beta => "act2.beta"@,
            ResidualTensor::Conv2W => "conv2.weight"@,
            ResidualTensor::Conv2B => "conv2.bias"@,
        }
    }

    fn suffix_text(self) -> (r: &'static str)
        ensures
            r@ == self.suffix(),
    {
        match self {
            ResidualTensor::Act1Alpha => "act1.alpha",
            ResidualTensor::Act1Beta => "act1.beta",
            ResidualTensor::Conv1W => "conv1.weight",
            ResidualTensor::Conv1B => "conv1.bias",
            ResidualTensor::Act2Alpha => "act2.alpha",
            ResidualTensor::Act2Beta => "act2.beta",
            ResidualTensor::Conv2W => "conv2.weight",
            ResidualTensor::Conv2B => "conv2.bias",
        }
    }
}

impl DecoderTensor {
    pub open spec fn suffix(self) -> Seq<char> {
        match self {
            DecoderTensor::SnakeAlpha => "snake.alpha"@,
            DecoderTensor::SnakeBeta => "snake.beta"@,
            DecoderTensor::ConvTW => "conv_t.weight"@,
            DecoderTensor::ConvTB => "conv_t.bias"@,
        }
    }

    fn suffix_text(self) -> (r: &'static str)
        ensures
            r@ == self.suffix(),
    {
        match self {
            DecoderTensor::SnakeAlpha => "snake.alpha",
            DecoderTensor::SnakeBeta => "snake.beta",
            DecoderTensor::ConvTW => "conv_t.weight",
            DecoderTensor::ConvTB => "conv_t.bias",
        }
    }
}

/// `{head}{index}{tail}`.
fn numbered(head: &str, index: usize, tail: &str) -> (r: String)
    ensures
        r@ == head@ + decimal(index as nat) + tail@,
{
    let mut r = head.to_string();
    let number = decimal_text(index as u64);
    r.append(number.as_str());
    r.append(tail);
    r
}

impl VocoderTensor {
    /// The tensor's name in the model file.
    pub open spec fn spec_name(self) -> Seq<char> {
        match self {
            VocoderTensor::VqFirstOutputProj => "tok_dec.vq_first.output_proj.weight"@,
            VocoderTensor::VqFirstCodebook => "tok_dec.vq_first.0.codebook"@,
            VocoderTensor::VqFirstUsage => "tok_dec.vq_first.0.usage"@,
            VocoderTensor::VqRestOutputProj => "tok_dec.vq_rest.output_proj.weight"@,
            VocoderTensor::VqRestCodebook(i) => "tok_dec.vq_rest."@ + decimal(i as nat)
                + ".codebook"@,
            VocoderTensor::VqRestUsage(i) => "tok_dec.vq_rest."@ + decimal(i as nat) + ".usage"@,
            VocoderTensor::PreConvW => "tok_dec.pre_conv.weight"@,
            VocoderTensor::PreConvB => "tok_dec.pre_conv.bias"@,
            VocoderTensor::PreTfmInputProjW => "tok_dec.pre_tfm.input_proj.weight"@,
            VocoderTensor::PreTfmInputProjB => "tok_dec.pre_tfm.input_proj.bias"@,
            VocoderTensor::PreTfmNormW => "tok_dec.pre_tfm.norm.weight"@,
            VocoderTensor::PreTfmOutputProjW => "tok_dec.pre_tfm.output_proj.weight"@,
            VocoderTensor::PreTfmOutputProjB => "tok_dec.pre_tfm.output_proj.bias"@,
            VocoderTensor::Layer(i, part) => "tok_dec.pre_tfm.blk."@ + decimal(i as nat) + "."@
                + part.suffix(),
            VocoderTensor::Upsample(i, part) => "tok_dec.upsample."@ + decimal(i as nat) + "."@
                + part.suffix(),
            VocoderTensor::Dec0ConvW => "tok_dec.dec.0.conv.weight"@,
            VocoderTensor::Dec0ConvB => "tok_dec.dec.0.conv.bias"@,
            VocoderTensor::Residual(b, r, part) => "tok_dec.dec."@ + decimal(b as nat) + ".res."@
                + decimal(r as nat) + "."@ + part.suffix(),
            VocoderTensor::Decoder(b, part) => "tok_dec.dec."@ + decimal(b as nat) + "."@
                + part.suffix(),
            VocoderTensor::Dec5SnakeAlpha => "tok_dec.dec.5.snake.alpha"@,
            VocoderTensor::Dec5SnakeBeta => "tok_dec.dec.5.snake.beta"@,
            VocoderTensor::Dec6ConvW => "tok_dec.dec.6.conv.weight"@,
            VocoderTensor::Dec6ConvB => "tok_dec.dec.6.conv.bias"@,
        }
    }

    /// The tensor's name in the model file.
    pub fn name(self) -> (r: String)
        ensures
            r@ == self.spec_name(),
    {
        match self {
            VocoderTensor::VqFirstOutputProj => "tok_dec.vq_first.output_proj.weight".to_string(),
            VocoderTensor::VqFirstCodebook => "tok_dec.vq_first.0.codebook".to_string(),
            VocoderTensor::VqFirstUsage => "tok_dec.vq_first.0.usage".to_string(),
            VocoderTensor::VqRestOutputProj => "tok_dec.vq_rest.output_proj.weight".to_string(),
            VocoderTensor::VqRestCodebook(i) => numbered("tok_dec.vq_rest.", i, ".codebook"),
            VocoderTensor::VqRestUsage(i) => numbered("tok_dec.vq_rest.", i, ".usage"),
            VocoderTensor::PreConvW => "tok_dec.pre_conv.weight".to_string(),
            VocoderTensor::PreConvB => "tok_dec.pre_conv.bias".to_string(),
            VocoderTensor::PreTfmInputProjW => "tok_dec.pre_tfm.input_proj.weight".to_string(),
            VocoderTensor::PreTfmInputProjB => "tok_dec.pre_tfm.input_proj.bias".to_string(),
            VocoderTensor::PreTfmNormW => "tok_dec.pre_tfm.norm.weight".to_string(),
            VocoderTensor::PreTfmOutputProjW => "tok_dec.pre_tfm.output_proj.weight".to_string(),
            VocoderTensor::PreTfmOutputProjB => "tok_dec.pre_tfm.output_proj.bias".to_string(),
            VocoderTensor::Layer(i, part) => {
                let mut r = numbered("tok_dec.pre_tfm.blk.", i, ".");
                r.append(part.suffix_text());
                r
            },
            VocoderTensor::Upsample(i, part) => {
                let mut r = numbered("tok_dec.upsample.", i, ".");
                r.append(part.suffix_text());
                r
            },
            VocoderTensor::Dec0ConvW => "tok_dec.dec.0.conv.weight".to_string(),
            VocoderTensor::Dec0ConvB => "tok_dec.dec.0.conv.bias".to_string(),
            VocoderTensor::Residual(b, unit, part) => {
                let mut r = numbered("tok_dec.dec.", b, ".res.");
                let number = decimal_text(unit as u64);
                r.append(number.as_str());
                r.append(".");
                r.append(part.suffix_text());
                r
            },
            VocoderTensor::Decoder(b, part) => {
                let mut r = numbered("tok_dec.dec.", b, ".");
                r.append(part.suffix_text());
                r
            },
            VocoderTensor::Dec5SnakeAlpha => "tok_dec.dec.5.snake.alpha".to_string(),
            VocoderTensor::Dec5SnakeBeta => "tok_dec.dec.5.snake.beta".to_string(),
            VocoderTensor::Dec6ConvW => "tok_dec.dec.6.conv.weight".to_string(),
            VocoderTensor::Dec6ConvB => "tok_dec.dec.6.conv.bias".to_string(),
        }
    }

    /// Whether the vocoder works without this tensor.
    pub open spec fn optional(self) -> bool {
        match self {
            VocoderTensor::VqFirstUsage
            | VocoderTensor::VqRestUsage(_)
            | VocoderTensor::PreConvB
            | VocoderTensor::PreTfmInputProjB
            | VocoderTensor::PreTfmNormW
            | VocoderTensor::PreTfmOutputProjB
            | VocoderTensor::Dec0ConvB
            | VocoderTensor::Dec5SnakeAlpha
            | VocoderTensor::Dec5SnakeBeta
            | VocoderTensor::Dec6ConvB => true,
            VocoderTensor::Layer(_, part) => part == LayerTensor::AttnScale || part
                == LayerTensor::FfnScale,
            VocoderTensor::Upsample(_, part) => !(part == UpsampleTensor::ConvW || part
                == UpsampleTensor::Pwconv1W || part == UpsampleTensor::Pwconv2W),
            VocoderTensor::Residual(_, _, part) => !(part == ResidualTensor::Conv1W || part
                == ResidualTensor::Conv2W),
            VocoderTensor::Decoder(_, part) => part != DecoderTensor::ConvTW,
            _ => false,
        }
    }

    /// Whether the vocoder works without this tensor.
    pub fn is_optional(self) -> (r: bool)
        ensures
            r == self.optional(),
    {
        match self {
            VocoderTensor::VqFirstUsage
            | VocoderTensor::VqRestUsage(_)
            | VocoderTensor::PreConvB
            | VocoderTensor::PreTfmInputProjB
            | VocoderTensor::PreTfmNormW
            | VocoderTensor::PreTfmOutputProjB
            | VocoderTensor::Dec0ConvB
            | VocoderTensor::Dec5SnakeAlpha
            | VocoderTensor::Dec5SnakeBeta
            | VocoderTensor::Dec6ConvB => true,
            VocoderTensor::Layer(_, part) => part == LayerTensor::AttnScale || part
                == LayerTensor::FfnScale,
            VocoderTensor::Upsample(_, part) => !(part == UpsampleTensor::ConvW || part
                == UpsampleTensor::Pwconv1W || part == UpsampleTensor::Pwconv2W),
            VocoderTensor::Residual(_, _, part) => !(part == ResidualTensor::Conv1W || part
                == ResidualTensor::Conv2W),
            VocoderTensor::Decoder(_, part) => part != DecoderTensor::ConvTW,
            _ => false,
        }
    }
}

} // verus!
