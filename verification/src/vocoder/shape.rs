//! Sizes: of tensors, of what a transposed convolution leaves, and of metadata.

use vstd::prelude::*;

verus! {

/// The four axis sizes of a tensor whose dimensions the model file lists: those listed, then ones.
pub fn tensor_extents(dims: &Vec<u64>) -> (ne: [i64; 4])
    requires
        dims@.len() <= 4,
    ensures
        forall|i: int|
            0 <= i < 4 ==> #[trigger] ne@[i] == (if i < dims@.len() {
                dims@[i] as i64
            } else {
                1
            }),
{
    let mut ne: [i64; 4] = [1, 1, 1, 1];
    let mut i: usize = 0;
    while i < dims.len()
        invariant
            i <= dims@.len() <= 4,
            forall|j: int|
                0 <= j < 4 ==> #[trigger] ne@[j] == (if j < i {
                    dims@[j] as i64
                } else {
                    1
                }),
        decreases dims@.len() - i,
    {
        ne[i] = #[verifier::truncate] (dims[i] as i64);
        i += 1;
    }
    ne
}

/// What is kept of a transposed convolution's output.
#[derive(Debug, Clone, Copy, PartialEq, Eq, Structural)]
pub struct Trim {
    /// How many entries are kept.
    pub len: i64,
    /// How many bytes come before the first one.
    pub offset: usize,
}

/// What is kept of a transposed convolution's output: on either side as many entries fall away as
/// the kernel is longer than the stride.
pub fn transposed_trim(kernel_size: i32, rate: i32, seq_len: i64, entry_bytes: usize) -> (r: Trim)
    requires
        0 <= rate <= kernel_size,
        i64::MIN <= seq_len - 2 * (kernel_size - rate),
        2 * (kernel_size - rate) <= i32::MAX,
        (kernel_size - rate) * entry_bytes <= usize::MAX,
    ensures
        r.len == seq_len - 2 * (kernel_size - rate),
        r.offset == (kernel_size - rate) * entry_bytes,
{
    let pad: i32 = kernel_size - rate;
    Trim { len: seq_len - (pad * 2) as i64, offset: pad as usize * entry_bytes }
}

/// The size of the metadata of `n_tensors` tensors, of which at least one is counted.
pub fn tensor_metadata_size(n_tensors: usize, tensor_overhead: usize) -> (r: usize)
    requires
        n_tensors * tensor_overhead <= usize::MAX,
    ensures
        r == (if n_tensors == 0 {
            1
        } else {
            n_tensors as int
        }) * tensor_overhead,
{
    let counted: usize = if n_tensors == 0 {
        1
    } else {
        n_tensors
    };
    counted * tensor_overhead
}

/// The size of the metadata of a graph of up to `max_nodes` nodes: at least a mebibyte.
pub fn graph_metadata_mem_size(
    max_nodes: usize,
    tensor_overhead: usize,
    graph_overhead: usize,
) -> (r: usize)
    requires
        graph_overhead + tensor_overhead * max_nodes * 16 <= usize::MAX,
    ensures
        r == (if graph_overhead + tensor_overhead * max_nodes * 16 < 1024 * 1024 {
            1024 * 1024int
        } else {
            graph_overhead + tensor_overhead * max_nodes * 16
        }),
{
    assert(0 <= tensor_overhead * max_nodes) by (nonlinear_arith)
        requires
            0 <= tensor_overhead,
            0 <= max_nodes,
    ;
    let needed: usize = graph_overhead + tensor_overhead * max_nodes * 16;
    if needed < 1024 * 1024 {
        1024 * 1024
    } else {
        needed
    }
}

} // verus!
