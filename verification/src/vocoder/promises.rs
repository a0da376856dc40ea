//! What a vocoder is made of, and what it is handed.

use vstd::prelude::*;
#[allow(unused_imports)]
use crate::error::{ErrorModel, Qwen3TtsError};
#[allow(unused_imports)]
use crate::vocoder::codebook::{codebook_index, normalize_codebook, ElementType};
#[allow(unused_imports)]
use crate::vocoder::config::VocoderConfig;
#[allow(unused_imports)]
use crate::vocoder::decode::DecodePlan;
#[allow(unused_imports)]
use crate::vocoder::graph::{Graph, Op};
#[allow(unused_imports)]
use crate::vocoder::network::Vocoder;
#[allow(unused_imports)]
use crate::vocoder::shape::{
    graph_metadata_mem_size, tensor_extents, tensor_metadata_size, transposed_trim, Trim,
};
#[allow(unused_imports)]
use crate::vocoder::tensors::VocoderTensor;
#[allow(unused_imports)]
use crate::vocoder::weights::{admit_tensor, TensorOutcome, VocoderWeights};

verus! {

/// The dimensions of the published checkpoints, and which of them a model file sets.
pub proof fn lemma_dimensions(
    published: VocoderConfig,
    sample_rate: u32,
    num_codebooks: u32,
    codebook_size: u32,
    r: VocoderConfig,
)
    requires
        call_ensures(VocoderConfig::default, (), published),
        call_ensures(
            VocoderConfig::with_metadata,
            (published, sample_rate, num_codebooks, codebook_size),
            r,
        ),
        sample_rate <= i32::MAX,
        num_codebooks <= i32::MAX,
        codebook_size <= i32::MAX,
    ensures
        published.sample_rate == 24_000,
        published.n_codebooks == 16,
        published.codebook_size == 2_048,
        r.sample_rate == sample_rate,
        r.n_codebooks == num_codebooks,
        r.codebook_size == codebook_size,
        r.codebook_dim == 256,
        r.latent_dim == 1_024,
        r.hidden_dim == 512,
        r.n_pre_tfm_layers == 8,
        r.n_heads == 16,
        r.ffn_dim == 1_024,
        r.decoder_dim == 1_536,
        r.rms_norm_eps.bits == 0x3727_c5ac,
        r.rope_theta.bits == 0x461c_4000,
{
}

/// The keys under which a model file sets the dimensions that it may set, and the number of nodes
/// that a graph has room for.
pub proof fn lemma_metadata_keys()
    ensures
        crate::vocoder::decode::GRAPH_NODES == 32_768,
        crate::vocoder::config::SAMPLE_RATE_KEY@ == "qwen3-tts.tokenizer.sample_rate"@,
        crate::vocoder::config::NUM_CODEBOOKS_KEY@ == "qwen3-tts.tokenizer.num_codebooks"@,
        crate::vocoder::config::CODEBOOK_SIZE_KEY@ == "qwen3-tts.tokenizer.codebook_size"@,
{
}

/// A decoding gives each frame its place as its position, and each codebook its codes: code `cb` of
/// frame `i` is the one at `i * n_codebooks + cb`. It is refused where the codes do not fill the
/// frames, and there is nothing to do without frames.
pub proof fn lemma_decoding_inputs(
    v: Vocoder,
    codes: Vec<i32>,
    n: usize,
    r: Result<Option<DecodePlan>, Qwen3TtsError>,
    i: int,
    cb: int,
)
    requires
        call_ensures(Vocoder::decode, (&v, &codes, n), r),
        n <= i32::MAX,
        v.config.n_codebooks >= 0,
    ensures
        n == 0 <==> r == Ok::<Option<DecodePlan>, Qwen3TtsError>(None),
        n > 0 && codes@.len() != n * v.config.n_codebooks ==> r is Err && r->Err_0@
            == ErrorModel::InvalidInput("vocoder codes shape is invalid"@),
        n > 0 && codes@.len() == n * v.config.n_codebooks ==> r is Ok,
        r matches Ok(Some(plan)) ==> {
            &&& plan.positions@.len() == n
            &&& plan.codes@.len() == v.config.n_codebooks
            &&& 0 <= i < n ==> plan.positions@[i] == i
            &&& 0 <= i < n && 0 <= cb < v.config.n_codebooks ==> plan.codes@[cb]@.len() == n
                && plan.codes@[cb]@[i] == codes@[i * v.config.n_codebooks + cb]
        },
{
}

/// A codebook with usage counts is normalised as what it is, half or single precision, and one
/// without stays as it is. What has no data, or is of another type, is refused.
pub proof fn lemma_codebooks_normalised(
    usage: Option<bool>,
    element: ElementType,
    has_data: bool,
    r: Result<Option<ElementType>, Qwen3TtsError>,
)
    requires
        call_ensures(normalize_codebook, (usage, element, has_data), r),
    ensures
        usage is None ==> r is Ok && r->Ok_0 is None,
        usage == Some(false) ==> r is Err && r->Err_0@ == ErrorModel::InvalidTensor(
            "codebook usage has no data"@,
        ),
        usage == Some(true) && element != ElementType::Other && has_data ==> r is Ok && r->Ok_0
            == Some(element),
        usage == Some(true) && element == ElementType::F16 && !has_data ==> r is Err && r->Err_0@
            == ErrorModel::InvalidTensor("f16 codebook has no data"@),
        usage == Some(true) && element == ElementType::F32 && !has_data ==> r is Err && r->Err_0@
            == ErrorModel::InvalidTensor("f32 codebook has no data"@),
        usage == Some(true) && element == ElementType::Other ==> r is Err && r->Err_0@
            == ErrorModel::UnsupportedTensorType("tok_dec codebook normalization"@),
{
}

/// The embeddings of a codebook stand one behind the other.
pub proof fn lemma_embeddings_in_rows(row: usize, dim: usize, width: usize, rows: usize, r: usize)
    requires
        call_ensures(codebook_index, (row, dim, width, rows), r),
        dim < width,
    ensures
        r as int / width as int == row,
        r as int % width as int == dim,
{
    crate::vocoder::codebook::lemma_codebook_index_unique(row as int, dim as int, width as int);
}

proof fn lemma_normalised_at(w: VocoderWeights, rest: nat, i: int)
    requires
        0 <= i <= rest <= usize::MAX,
    ensures
        w.normalised(rest).len() == rest + 1,
        w.normalised(rest)[i].0 == (if i == 0 {
            VocoderTensor::VqFirstCodebook
        } else {
            VocoderTensor::VqRestCodebook((i - 1) as usize)
        }),
        ({
            let usage = if i == 0 {
                VocoderTensor::VqFirstUsage
            } else {
                VocoderTensor::VqRestUsage((i - 1) as usize)
            };
            w.normalised(rest)[i].1 == (if w.holds(usage) {
                Some(usage)
            } else {
                None::<VocoderTensor>
            })
        }),
    decreases rest,
{
    if rest > 0 {
        if i < rest {
            lemma_normalised_at(w, (rest - 1) as nat, i);
        } else {
            lemma_normalised_at(w, (rest - 1) as nat, 0);
        }
    }
}

/// Every codebook is normalised by its own usage counts, where they are loaded: the first by those of
/// the first, and each of the others by those of the same number.
pub proof fn lemma_codebooks_with_their_usage(
    w: VocoderWeights,
    list: Vec<(VocoderTensor, Option<VocoderTensor>)>,
    i: usize,
)
    requires
        call_ensures(VocoderWeights::codebooks, (&w,), list),
        i < w.rest,
    ensures
        list@.len() == w.rest + 1,
        list@[0].0 == VocoderTensor::VqFirstCodebook,
        list@[i + 1].0 == VocoderTensor::VqRestCodebook(i),
        w.holds(VocoderTensor::VqFirstUsage) ==> list@[0].1 == Some(VocoderTensor::VqFirstUsage),
        !w.holds(VocoderTensor::VqFirstUsage) ==> list@[0].1 is None,
        w.holds(VocoderTensor::VqRestUsage(i)) ==> list@[i + 1].1 == Some(
            VocoderTensor::VqRestUsage(i),
        ),
        !w.holds(VocoderTensor::VqRestUsage(i)) ==> list@[i + 1].1 is None,
{
    lemma_normalised_at(w, w.rest as nat, 0);
    lemma_normalised_at(w, w.rest as nat, i + 1);
}

/// A tensor has the sizes that the model file lists, and one along every further axis.
pub proof fn lemma_listed_sizes(dims: Vec<u64>, ne: [i64; 4], i: int)
    requires
        call_ensures(tensor_extents, (&dims,), ne),
        dims@.len() <= 4,
        0 <= i < 4,
    ensures
        i < dims@.len() && dims@[i] <= i64::MAX ==> ne@[i] == dims@[i],
        i >= dims@.len() ==> ne@[i] == 1,
{
}

/// A transposed convolution of `l` entries makes `(l - 1) * rate + kernel` of them. Trimming leaves
/// the ones in the middle: as many are cut off before the first as are behind the last.
pub proof fn lemma_trim_leaves_the_middle(
    kernel: i32,
    rate: i32,
    l: int,
    made: i64,
    entry_bytes: usize,
    r: Trim,
)
    requires
        call_ensures(transposed_trim, (kernel, rate, made, entry_bytes), r),
        0 <= rate <= kernel,
        made == (l - 1) * rate + kernel,
    ensures
        r.len == l * rate + rate - kernel,
        made - r.len == 2 * (kernel - rate),
        r.offset == (kernel - rate) * entry_bytes,
{
    assert((l - 1) * rate == l * rate - rate) by (nonlinear_arith);
}

/// The memory for metadata: so much for each tensor, and for one where there is none. A graph takes
/// that of its nodes sixteen times beside its own, and a mebibyte at least.
pub proof fn lemma_metadata_memory(
    n: usize,
    overhead: usize,
    graph_overhead: usize,
    tensors: usize,
    graph: usize,
)
    requires
        call_ensures(tensor_metadata_size, (n, overhead), tensors),
        call_ensures(graph_metadata_mem_size, (n, overhead, graph_overhead), graph),
    ensures
        n > 0 ==> tensors == n * overhead,
        n == 0 ==> tensors == overhead,
        graph >= 1_048_576,
        graph >= graph_overhead + overhead * n * 16,
        graph > 1_048_576 ==> graph == graph_overhead + overhead * n * 16,
{
    assert(1 * overhead == overhead) by (nonlinear_arith);
}

/// A tensor that was found is there. One that is missing is done without where it may be, and is an
/// error where it may not; whatever else went wrong is an error either way.
pub proof fn lemma_tensor_admitted(
    t: VocoderTensor,
    optional: bool,
    outcome: TensorOutcome,
    name: String,
    r: Result<bool, Qwen3TtsError>,
)
    requires
        call_ensures(VocoderTensor::is_optional, (t,), optional),
        call_ensures(VocoderTensor::name, (t,), name),
        call_ensures(admit_tensor, (t, &outcome), r),
    ensures
        outcome is Ready ==> r == Ok::<_, Qwen3TtsError>(true),
        outcome matches TensorOutcome::Failed(e) ==> {
            &&& e is MissingTensor && optional ==> r == Ok::<_, Qwen3TtsError>(false)
            &&& !(e is MissingTensor && optional) ==> r is Err && r->Err_0@ == e@
        },
        outcome is Unallocated ==> r is Err && r->Err_0@ == ErrorModel::InvalidTensor(name@),
{
}

/// Which vocoders decode: those with a codebook after the first, all of whose codebooks and layers
/// are loaded, and whose transformer has heads.
pub proof fn lemma_decodable(v: Vocoder, r: bool)
    requires
        call_ensures(Vocoder::is_decodable, (&v,), r),
    ensures
        r <==> v.config.n_codebooks >= 2 && v.weights.rest == v.config.n_codebooks - 1
            && v.weights.count == v.config.n_pre_tfm_layers && v.config.n_heads > 0
            && v.config.latent_dim >= 0,
{
}

/// Every loaded tensor is uploaded, once, and nothing else is.
pub proof fn lemma_uploads(w: VocoderWeights, list: Vec<VocoderTensor>, t: VocoderTensor, has: bool)
    requires
        call_ensures(VocoderWeights::uploads, (&w,), list),
        call_ensures(VocoderWeights::has, (&w, t), has),
    ensures
        list@.no_duplicates(),
        list@.contains(t) <==> w.loaded@.contains(t),
        has <==> w.loaded@.contains(t),
{
    assert(list@.contains(t) <==> w.holds(t));
}

/// A vocoder is loaded with its dimensions and its tensors, and cannot be where they cannot.
pub proof fn lemma_vocoder_is_its_tensors(
    config: VocoderConfig,
    outcomes: Vec<TensorOutcome>,
    r: Result<Vocoder, Qwen3TtsError>,
    tensors: Result<VocoderWeights, Qwen3TtsError>,
    held: &VocoderConfig,
)
    requires
        call_ensures(Vocoder::load_from_gguf, (config, &outcomes), r),
        call_ensures(VocoderWeights::load, (&config, &outcomes), tensors),
        r matches Ok(v) ==> call_ensures(Vocoder::config, (&v,), held),
    ensures
        r is Ok && tensors is Ok ==> {
            &&& r->Ok_0.config == config
            &&& *held == config
            &&& r->Ok_0.weights.loaded@ == tensors->Ok_0.loaded@
            &&& r->Ok_0.weights.rest == config.n_codebooks - 1
            &&& r->Ok_0.weights.count == config.n_pre_tfm_layers
        },
{
}

/// A graph grows by one node at a time, and is handed out node by node.
pub proof fn lemma_graphs_grow(g: &mut Graph, op: Op<usize>, r: usize, last: Graph, nodes: Vec<Op<usize>>)
    requires
        old(g).wf(),
        call_ensures(Graph::add_node, (g, op), r),
        call_ensures(Graph::into_nodes, (last,), nodes),
    ensures
        final(g).ops() == old(g).ops().push(op),
        r == old(g).ops().len(),
        final(g).wf(),
        nodes@ == last.ops(),
{
    old(g).lemma_lengths();
}

} // verus!
