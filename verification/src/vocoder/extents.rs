//! The extents of the tensors that a graph computes.

use vstd::prelude::*;
#[allow(unused_imports)]
use crate::vocoder::graph::{denoted, expr, op_below, Dim, Expr, Graph, Leaf, Op};

verus! {

/// The extents of a tensor along its four axes.
pub struct Extents {
    pub n0: int,
    pub n1: int,
    pub n2: int,
    pub n3: int,
}

/// The extents of a tensor of up to three axes.
pub open spec fn ext(n0: int, n1: int, n2: int) -> Extents {
    Extents { n0, n1, n2, n3: 1 }
}

impl Extents {
    /// The number of entries.
    pub open spec fn entries(self) -> int {
        self.n0 * self.n1 * self.n2 * self.n3
    }

    /// The extent along an axis.
    pub open spec fn along(self, axis: usize) -> int {
        if axis == 0 {
            self.n0
        } else if axis == 1 {
            self.n1
        } else if axis == 2 {
            self.n2
        } else {
            self.n3
        }
    }

    /// Whether a tensor of these extents is repeated to one of the other extents: along each axis it
    /// has as many entries, or one.
    pub open spec fn repeats_to(self, other: Extents) -> bool {
        &&& self.n0 == other.n0 || self.n0 == 1
        &&& self.n1 == other.n1 || self.n1 == 1
        &&& self.n2 == other.n2 || self.n2 == 1
        &&& self.n3 == other.n3 || self.n3 == 1
    }
}

/// Rows of a table: one of the table's width for each index.
pub open spec fn rows(table: Option<Extents>, indices: Option<Extents>) -> Option<Extents> {
    match (table, indices) {
        (Some(a), Some(b)) => if a.n2 == b.n1 && a.n3 == 1 && b.n2 == 1 && b.n3 == 1 {
            Some(ext(a.n0, b.n0, b.n1))
        } else {
            None
        },
        _ => None,
    }
}

/// A matrix product over the first axes of both operands.
pub open spec fn product(a: Option<Extents>, b: Option<Extents>) -> Option<Extents> {
    match (a, b) {
        (Some(a), Some(b)) => if a.n0 == b.n0 && (a.n2 == b.n2 || a.n2 == 1) && (a.n3 == b.n3
            || a.n3 == 1) {
            Some(Extents { n0: a.n1, n1: b.n1, n2: b.n2, n3: b.n3 })
        } else {
            None
        },
        _ => None,
    }
}

/// An entry-wise operation, for which the second operand is repeated to the extents of the first.
pub open spec fn entrywise(a: Option<Extents>, b: Option<Extents>) -> Option<Extents> {
    match (a, b) {
        (Some(a), Some(b)) => if b.repeats_to(a) {
            Some(a)
        } else {
            None
        },
        _ => None,
    }
}

/// Other extents for the same entries.
pub open spec fn reshaped(
    a: Option<Extents>,
    n0: Option<int>,
    n1: Option<int>,
    n2: Option<int>,
) -> Option<Extents> {
    match (a, n0, n1, n2) {
        (Some(a), Some(n0), Some(n1), Some(n2)) => if a.entries() == ext(n0, n1, n2).entries() {
            Some(ext(n0, n1, n2))
        } else {
            None
        },
        _ => None,
    }
}

/// The first two axes swapped.
pub open spec fn transposed(a: Option<Extents>) -> Option<Extents> {
    match a {
        Some(a) => Some(Extents { n0: a.n1, n1: a.n0, n2: a.n2, n3: a.n3 }),
        None => None,
    }
}

/// Entries in front, along the first axis.
pub open spec fn padded(a: Option<Extents>, zeros: i32) -> Option<Extents> {
    match a {
        Some(a) => Some(Extents { n0: a.n0 + zeros, ..a }),
        None => None,
    }
}

/// A convolution along the first axis, of stride one: what the dilated kernel covers but for one
/// entry falls away. The channels along the second axis become those of the kernel's third.
pub open spec fn convolved(k: Option<Extents>, x: Option<Extents>, dilation: i32) -> Option<
    Extents,
> {
    match (k, x) {
        (Some(k), Some(x)) => if k.n1 == x.n1 && k.n3 == 1 && x.n3 == 1 && x.n0 > dilation * (k.n0
            - 1) {
            Some(ext(x.n0 - dilation * (k.n0 - 1), k.n2, x.n2))
        } else {
            None
        },
        _ => None,
    }
}

/// A convolution of each channel by itself.
pub open spec fn convolved_apart(k: Option<Extents>, x: Option<Extents>) -> Option<Extents> {
    match (k, x) {
        (Some(k), Some(x)) => if k.n1 == 1 && k.n2 == x.n1 && k.n3 == 1 && x.n2 == 1 && x.n3 == 1
            && x.n0 > k.n0 - 1 {
            Some(ext(x.n0 - (k.n0 - 1), x.n1, 1))
        } else {
            None
        },
        _ => None,
    }
}

/// A transposed convolution along the first axis: each entry stands for `stride` entries, and the
/// last one for the whole kernel. The channels become those of the kernel's second axis.
pub open spec fn stretched(k: Option<Extents>, x: Option<Extents>, stride: i32) -> Option<Extents> {
    match (k, x) {
        (Some(k), Some(x)) => if k.n2 == x.n1 && k.n3 == 1 && x.n2 == 1 && x.n3 == 1 {
            Some(ext((x.n0 - 1) * stride + k.n0, k.n1, 1))
        } else {
            None
        },
        _ => None,
    }
}

/// What is left of the first axis when on either side as much falls away as the kernel exceeds the
/// rate.
pub open spec fn trimmed_to(a: Option<Extents>, k: Option<Extents>, rate: i32) -> Option<Extents> {
    match (a, k) {
        (Some(a), Some(k)) => if k.n0 >= rate && a.n0 > 2 * (k.n0 - rate) && a.n2 == 1 && a.n3 == 1 {
            Some(ext(a.n0 - 2 * (k.n0 - rate), a.n1, 1))
        } else {
            None
        },
        _ => None,
    }
}

/// The extent that lands on an axis when axes are reordered.
pub open spec fn landing(a: Extents, p0: i32, p1: i32, p2: i32, axis: i32) -> int {
    if p0 == axis {
        a.n0
    } else if p1 == axis {
        a.n1
    } else if p2 == axis {
        a.n2
    } else {
        a.n3
    }
}

/// Whether each axis goes to a place of its own.
pub open spec fn places(p0: i32, p1: i32, p2: i32, p3: i32) -> bool {
    &&& 0 <= p0 <= 3 && 0 <= p1 <= 3 && 0 <= p2 <= 3 && 0 <= p3 <= 3
    &&& p0 != p1 && p0 != p2 && p0 != p3 && p1 != p2 && p1 != p3 && p2 != p3
}

/// The axes reordered: each goes to the place that is given for it.
pub open spec fn permuted(a: Option<Extents>, p0: i32, p1: i32, p2: i32, p3: i32) -> Option<
    Extents,
> {
    match a {
        Some(a) => if places(p0, p1, p2, p3) {
            Some(
                Extents {
                    n0: landing(a, p0, p1, p2, 0),
                    n1: landing(a, p0, p1, p2, 1),
                    n2: landing(a, p0, p1, p2, 2),
                    n3: landing(a, p0, p1, p2, 3),
                },
            )
        } else {
            None
        },
        None => None,
    }
}

/// A rotation at the positions of the third axis.
pub open spec fn rotated_at(a: Option<Extents>, positions: Option<Extents>) -> Option<Extents> {
    match (a, positions) {
        (Some(a), Some(p)) => if p.n0 == a.n2 && p.n1 == 1 && p.n2 == 1 && p.n3 == 1 {
            Some(a)
        } else {
            None
        },
        _ => None,
    }
}

/// The extent of a tensor along an axis.
pub open spec fn extent_along(a: Option<Extents>, axis: usize) -> Option<int> {
    match a {
        Some(a) => Some(a.along(axis)),
        None => None,
    }
}

/// The number that the size along an axis comes to.
pub open spec fn dim_value(d: Dim<Expr>, sizes: spec_fn(Leaf) -> Extents) -> Option<int> {
    match d {
        Dim::Fixed(n) => Some(n as int),
        Dim::Extent(x, axis) => extent_along(extents(x, sizes), axis),
    }
}

/// The extents of the tensor that an expression denotes, given those of the tensors from outside.
/// There are none where an operation does not take its operands.
pub open spec fn extents(e: Expr, sizes: spec_fn(Leaf) -> Extents) -> Option<Extents>
    decreases e,
{
    match e {
        Expr::Leaf(leaf) => Some(sizes(leaf)),
        Expr::Apply(op) => match *op {
            Op::Input(leaf) => Some(sizes(leaf)),
            Op::GetRows(a, b) => rows(extents(a, sizes), extents(b, sizes)),
            Op::MulMat(a, b) => product(extents(a, sizes), extents(b, sizes)),
            Op::Add(a, b) => entrywise(extents(a, sizes), extents(b, sizes)),
            Op::Mul(a, b) => entrywise(extents(a, sizes), extents(b, sizes)),
            Op::Reshape1d(a, d) => reshaped(extents(a, sizes), match d {
                Dim::Fixed(n) => Some(n as int),
                Dim::Extent(x, axis) => extent_along(extents(x, sizes), axis),
            }, Some(1), Some(1)),
            Op::Reshape2d(a, d, e) => reshaped(extents(a, sizes), match d {
                Dim::Fixed(n) => Some(n as int),
                Dim::Extent(x, axis) => extent_along(extents(x, sizes), axis),
            }, match e {
                Dim::Fixed(n) => Some(n as int),
                Dim::Extent(x, axis) => extent_along(extents(x, sizes), axis),
            }, Some(1)),
            Op::Reshape3d(a, d, e, f) => reshaped(extents(a, sizes), match d {
                Dim::Fixed(n) => Some(n as int),
                Dim::Extent(x, axis) => extent_along(extents(x, sizes), axis),
            }, match e {
                Dim::Fixed(n) => Some(n as int),
                Dim::Extent(x, axis) => extent_along(extents(x, sizes), axis),
            }, match f {
                Dim::Fixed(n) => Some(n as int),
                Dim::Extent(x, axis) => extent_along(extents(x, sizes), axis),
            }),
            Op::Transpose(a) => transposed(extents(a, sizes)),
            Op::Cont(a) => extents(a, sizes),
            Op::Cont2d(a, m, n) => reshaped(extents(a, sizes), Some(m as int), Some(n as int), Some(1)),
            Op::PadFront(a, n) => padded(extents(a, sizes), n),
            Op::Conv1d(a, b, n) => convolved(extents(a, sizes), extents(b, sizes), n),
            Op::Conv1dDepthwise(a, b) => convolved_apart(extents(a, sizes), extents(b, sizes)),
            Op::ConvTranspose1d(a, b, n) => stretched(extents(a, sizes), extents(b, sizes), n),
            Op::Permute(a, i, j, k, l) => permuted(extents(a, sizes), i, j, k, l),
            Op::RmsNorm(a, _) => extents(a, sizes),
            Op::Norm(a, _) => extents(a, sizes),
            Op::Exp(a) => extents(a, sizes),
            Op::Sin(a) => extents(a, sizes),
            Op::Sqr(a) => extents(a, sizes),
            Op::Scale(a, _) => extents(a, sizes),
            Op::Rope(a, b, _, _) => rotated_at(extents(a, sizes), extents(b, sizes)),
            Op::DiagMaskInf(a) => extents(a, sizes),
            Op::SoftMax(a) => extents(a, sizes),
            Op::Silu(a) => extents(a, sizes),
            Op::Gelu(a) => extents(a, sizes),
            Op::Tanh(a) => extents(a, sizes),
            Op::Trim(a, b, rate) => trimmed_to(extents(a, sizes), extents(b, sizes), rate),
        },
    }
}

/// The extents of the tensor that a node of a graph computes, operation by operation.
pub open spec fn node_extents(
    ops: Seq<Op<usize>>,
    i: int,
    sizes: spec_fn(Leaf) -> Extents,
) -> Option<Extents>
    decreases i,
{
    if !(0 <= i < ops.len() && op_below(ops[i], i)) {
        None
    } else {
        match ops[i] {
            Op::Input(leaf) => Some(sizes(leaf)),
            Op::GetRows(a, b) => rows(node_extents(ops, a as int, sizes), node_extents(ops, b as int, sizes)),
            Op::MulMat(a, b) => product(node_extents(ops, a as int, sizes), node_extents(ops, b as int, sizes)),
            Op::Add(a, b) => entrywise(node_extents(ops, a as int, sizes), node_extents(ops, b as int, sizes)),
            Op::Mul(a, b) => entrywise(node_extents(ops, a as int, sizes), node_extents(ops, b as int, sizes)),
            Op::Reshape1d(a, d) => reshaped(node_extents(ops, a as int, sizes), match d {
                Dim::Fixed(n) => Some(n as int),
                Dim::Extent(x, axis) => extent_along(node_extents(ops, x as int, sizes), axis),
            }, Some(1), Some(1)),
            Op::Reshape2d(a, d, e) => reshaped(node_extents(ops, a as int, sizes), match d {
                Dim::Fixed(n) => Some(n as int),
                Dim::Extent(x, axis) => extent_along(node_extents(ops, x as int, sizes), axis),
            }, match e {
                Dim::Fixed(n) => Some(n as int),
                Dim::Extent(x, axis) => extent_along(node_extents(ops, x as int, sizes), axis),
            }, Some(1)),
            Op::Reshape3d(a, d, e, f) => reshaped(node_extents(ops, a as int, sizes), match d {
                Dim::Fixed(n) => Some(n as int),
                Dim::Extent(x, axis) => extent_along(node_extents(ops, x as int, sizes), axis),
            }, match e {
                Dim::Fixed(n) => Some(n as int),
                Dim::Extent(x, axis) => extent_along(node_extents(ops, x as int, sizes), axis),
            }, match f {
                Dim::Fixed(n) => Some(n as int),
                Dim::Extent(x, axis) => extent_along(node_extents(ops, x as int, sizes), axis),
            }),
            Op::Transpose(a) => transposed(node_extents(ops, a as int, sizes)),
            Op::Cont(a) => node_extents(ops, a as int, sizes),
            Op::Cont2d(a, m, n) => reshaped(node_extents(ops, a as int, sizes), Some(m as int), Some(n as int), Some(1)),
            Op::PadFront(a, n) => padded(node_extents(ops, a as int, sizes), n),
            Op::Conv1d(a, b, n) => convolved(node_extents(ops, a as int, sizes), node_extents(ops, b as int, sizes), n),
            Op::Conv1dDepthwise(a, b) => convolved_apart(node_extents(ops, a as int, sizes), node_extents(ops, b as int, sizes)),
            Op::ConvTranspose1d(a, b, n) => stretched(node_extents(ops, a as int, sizes), node_extents(ops, b as int, sizes), n),
            Op::Permute(a, i, j, k, l) => permuted(node_extents(ops, a as int, sizes), i, j, k, l),
            Op::RmsNorm(a, _) => node_extents(ops, a as int, sizes),
            Op::Norm(a, _) => node_extents(ops, a as int, sizes),
            Op::Exp(a) => node_extents(ops, a as int, sizes),
            Op::Sin(a) => node_extents(ops, a as int, sizes),
            Op::Sqr(a) => node_extents(ops, a as int, sizes),
            Op::Scale(a, _) => node_extents(ops, a as int, sizes),
            Op::Rope(a, b, _, _) => rotated_at(node_extents(ops, a as int, sizes), node_extents(ops, b as int, sizes)),
            Op::DiagMaskInf(a) => node_extents(ops, a as int, sizes),
            Op::SoftMax(a) => node_extents(ops, a as int, sizes),
            Op::Silu(a) => node_extents(ops, a as int, sizes),
            Op::Gelu(a) => node_extents(ops, a as int, sizes),
            Op::Tanh(a) => node_extents(ops, a as int, sizes),
            Op::Trim(a, b, rate) => trimmed_to(node_extents(ops, a as int, sizes), node_extents(ops, b as int, sizes), rate),
        }
    }
}

/// A node computes a tensor of the extents of the expression that it denotes.
pub proof fn lemma_node_extents(g: Graph, i: int, sizes: spec_fn(Leaf) -> Extents)
    requires
        g.wf(),
        0 <= i < g.ops().len(),
    ensures
        node_extents(g.ops(), i, sizes) == extents(g.exprs()[i], sizes),
    decreases i,
{
    g.lemma_topological(i);
    let ops = g.ops();
    let env = g.exprs();
    match ops[i] {
        Op::Input(_) => {
        },
        Op::GetRows(a, b) => {
            lemma_node_extents(g, a as int, sizes);
            lemma_node_extents(g, b as int, sizes);
        },
        Op::MulMat(a, b) => {
            lemma_node_extents(g, a as int, sizes);
            lemma_node_extents(g, b as int, sizes);
        },
        Op::Add(a, b) => {
            lemma_node_extents(g, a as int, sizes);
            lemma_node_extents(g, b as int, sizes);
        },
        Op::Mul(a, b) => {
            lemma_node_extents(g, a as int, sizes);
            lemma_node_extents(g, b as int, sizes);
        },
        Op::Reshape1d(a, d) => {
            lemma_node_extents(g, a as int, sizes);
            if let Dim::Extent(x, _) = d {
                lemma_node_extents(g, x as int, sizes);
            }
        },
        Op::Reshape2d(a, d, e) => {
            lemma_node_extents(g, a as int, sizes);
            if let Dim::Extent(x, _) = d {
                lemma_node_extents(g, x as int, sizes);
            }
            if let Dim::Extent(x, _) = e {
                lemma_node_extents(g, x as int, sizes);
            }
        },
        Op::Reshape3d(a, d, e, f) => {
            lemma_node_extents(g, a as int, sizes);
            if let Dim::Extent(x, _) = d {
                lemma_node_extents(g, x as int, sizes);
            }
            if let Dim::Extent(x, _) = e {
                lemma_node_extents(g, x as int, sizes);
            }
            if let Dim::Extent(x, _) = f {
                lemma_node_extents(g, x as int, sizes);
            }
        },
        Op::Transpose(a) => {
            lemma_node_extents(g, a as int, sizes);
        },
        Op::Cont(a) => {
            lemma_node_extents(g, a as int, sizes);
        },
        Op::Cont2d(a, _, _) => {
            lemma_node_extents(g, a as int, sizes);
        },
        Op::PadFront(a, _) => {
            lemma_node_extents(g, a as int, sizes);
        },
        Op::Conv1d(a, b, _) => {
            lemma_node_extents(g, a as int, sizes);
            lemma_node_extents(g, b as int, sizes);
        },
        Op::Conv1dDepthwise(a, b) => {
            lemma_node_extents(g, a as int, sizes);
            lemma_node_extents(g, b as int, sizes);
        },
        Op::ConvTranspose1d(a, b, _) => {
            lemma_node_extents(g, a as int, sizes);
            lemma_node_extents(g, b as int, sizes);
        },
        Op::Permute(a, _, _, _, _) => {
            lemma_node_extents(g, a as int, sizes);
        },
        Op::RmsNorm(a, _) => {
            lemma_node_extents(g, a as int, sizes);
        },
        Op::Norm(a, _) => {
            lemma_node_extents(g, a as int, sizes);
        },
        Op::Exp(a) => {
            lemma_node_extents(g, a as int, sizes);
        },
        Op::Sin(a) => {
            lemma_node_extents(g, a as int, sizes);
        },
        Op::Sqr(a) => {
            lemma_node_extents(g, a as int, sizes);
        },
        Op::Scale(a, _) => {
            lemma_node_extents(g, a as int, sizes);
        },
        Op::Rope(a, b, _, _) => {
            lemma_node_extents(g, a as int, sizes);
            lemma_node_extents(g, b as int, sizes);
        },
        Op::DiagMaskInf(a) => {
            lemma_node_extents(g, a as int, sizes);
        },
        Op::SoftMax(a) => {
            lemma_node_extents(g, a as int, sizes);
        },
        Op::Silu(a) => {
            lemma_node_extents(g, a as int, sizes);
        },
        Op::Gelu(a) => {
            lemma_node_extents(g, a as int, sizes);
        },
        Op::Tanh(a) => {
            lemma_node_extents(g, a as int, sizes);
        },
        Op::Trim(a, b, _) => {
            lemma_node_extents(g, a as int, sizes);
            lemma_node_extents(g, b as int, sizes);
        },
    }
}

} // verus!
