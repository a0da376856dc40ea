//! Codebooks: which ones are normalised, and by what.

use vstd::prelude::*;
use crate::error::Qwen3TtsError;
use crate::vocoder::tensors::VocoderTensor;
use crate::vocoder::weights::VocoderWeights;
#[allow(unused_imports)]
use crate::error::ErrorModel;

verus! {

/// The element type of a codebook.
#[derive(Debug, Clone, Copy, PartialEq, Eq, Structural)]
pub enum ElementType {
    F16,
    F32,
    Other,
}

/// How a codebook is normalised, or why it cannot be. A codebook without usage counts stays as it
/// is.
pub open spec fn normalization(
    usage: Option<bool>,
    element: ElementType,
    has_data: bool,
) -> Result<Option<ElementType>, ErrorModel> {
    match usage {
        None => Ok(None),
        Some(false) => Err(ErrorModel::InvalidTensor("codebook usage has no data"@)),
        Some(true) => match element {
            ElementType::F16 => if has_data {
                Ok(Some(ElementType::F16))
            } else {
                Err(ErrorModel::InvalidTensor("f16 codebook has no data"@))
            },
            ElementType::F32 => if has_data {
                Ok(Some(ElementType::F32))
            } else {
                Err(ErrorModel::InvalidTensor("f32 codebook has no data"@))
            },
            ElementType::Other => Err(
                ErrorModel::UnsupportedTensorType("tok_dec codebook normalization"@),
            ),
        },
    }
}

/// Decides how a codebook is normalised: `usage` says whether there are usage counts and, if so,
/// whether they have data.
pub fn normalize_codebook(usage: Option<bool>, element: ElementType, has_data: bool) -> (r: Result<
    Option<ElementType>,
    Qwen3TtsError,
>)
    ensures
        match r {
            Ok(kind) => normalization(usage, element, has_data) == Ok::<_, ErrorModel>(kind),
            Err(e) => normalization(usage, element, has_data) == Err::<Option<ElementType>, _>(e@),
        },
{
    match usage {
        None => Ok(None),
        Some(false) => Err(Qwen3TtsError::InvalidTensor("codebook usage has no data".to_string())),
        Some(true) => match element {
            ElementType::F16 => if has_data {
                Ok(Some(ElementType::F16))
            } else {
                Err(Qwen3TtsError::InvalidTensor("f16 codebook has no data".to_string()))
            },
            ElementType::F32 => if has_data {
                Ok(Some(ElementType::F32))
            } else {
                Err(Qwen3TtsError::InvalidTensor("f32 codebook has no data".to_string()))
            },
            ElementType::Other => Err(
                Qwen3TtsError::UnsupportedTensorType("tok_dec codebook normalization".to_string()),
            ),
        },
    }
}

/// Where the entry of index `dim` of the embedding of index `row` stands in a codebook whose
/// embeddings have `width` entries.
pub fn codebook_index(row: usize, dim: usize, width: usize, rows: usize) -> (r: usize)
    requires
        row < rows,
        dim < width,
        rows * width <= usize::MAX,
    ensures
        r == dim + row * width,
        r < rows * width,
{
    assert(0 <= row * width && dim + row * width < rows * width) by (nonlinear_arith)
        requires
            row < rows,
            dim < width,
    ;
    dim + row * width
}

/// Every entry of a codebook is an entry of one of its embeddings.
pub proof fn lemma_codebook_index_covers(k: int, width: int, rows: int)
    by (nonlinear_arith)
    requires
        0 < width,
        0 <= k < rows * width,
    ensures
        0 <= k / width < rows,
        0 <= k % width < width,
        k == k % width + (k / width) * width,
{
}

/// No two entries of a codebook's embeddings stand in the same place.
pub proof fn lemma_codebook_index_unique(row: int, dim: int, width: int)
    by (nonlinear_arith)
    requires
        0 <= dim < width,
    ensures
        (dim + row * width) / width == row,
        (dim + row * width) % width == dim,
{
}

impl VocoderWeights {
    /// The codebooks in the order in which they are normalised, each with its usage counts where
    /// they are loaded.
    pub open spec fn normalised(self, rest: nat) -> Seq<(VocoderTensor, Option<VocoderTensor>)>
        decreases rest,
    {
        let pair = |codebook: VocoderTensor, usage: VocoderTensor|
            (
                codebook,
                if self.holds(usage) {
                    Some(usage)
                } else {
                    None
                },
            );
        if rest == 0 {
            seq![pair(VocoderTensor::VqFirstCodebook, VocoderTensor::VqFirstUsage)]
        } else {
            self.normalised((rest - 1) as nat).push(
                pair(
                    VocoderTensor::VqRestCodebook((rest - 1) as usize),
                    VocoderTensor::VqRestUsage((rest - 1) as usize),
                ),
            )
        }
    }

    fn usage_if_loaded(&self, usage: VocoderTensor) -> (r: Option<VocoderTensor>)
        ensures
            r == (if self.holds(usage) {
                Some(usage)
            } else {
                None::<VocoderTensor>
            }),
    {
        if self.has(usage) {
            Some(usage)
        } else {
            None
        }
    }

    /// The codebooks in the order in which they are normalised, each with its usage counts where
    /// they are loaded.
    pub fn codebooks(&self) -> (list: Vec<(VocoderTensor, Option<VocoderTensor>)>)
        ensures
            list@ == self.normalised(self.rest as nat),
    {
        let mut list: Vec<(VocoderTensor, Option<VocoderTensor>)> = Vec::new();
        let first = self.usage_if_loaded(VocoderTensor::VqFirstUsage);
        list.push((VocoderTensor::VqFirstCodebook, first));
        assert(list@ == self.normalised(0));
        let mut i: usize = 0;
        while i < self.rest
            invariant
                i <= self.rest,
                list@ == self.normalised(i as nat),
            decreases self.rest - i,
        {
            let usage = self.usage_if_loaded(VocoderTensor::VqRestUsage(i));
            list.push((VocoderTensor::VqRestCodebook(i), usage));
            i += 1;
        }
        list
    }
}

} // verus!
