//! Tensor graphs: straight-line lists of operations, and the expressions that their nodes denote.

use vstd::prelude::*;
use crate::real32::Real32;
use crate::vocoder::tensors::VocoderTensor;

verus! {

/// The size of a tensor along one axis: a number, or the size of another tensor along an axis.
#[derive(Debug)]
pub enum Dim<X> {
    Fixed(i64),
    Extent(X, usize),
}

/// A number by which a tensor is scaled.
#[derive(Debug, Clone, Copy)]
pub enum Scalar {
    MinusOne,
    /// One over the square root of the given number.
    InverseRoot(i32),
}

/// A tensor that a graph takes from outside.
#[derive(Debug, Clone, Copy)]
pub enum Leaf {
    /// A loaded tensor.
    Weight(VocoderTensor),
    /// The codes of one codebook, one per frame.
    Codes(usize),
    /// The frames' positions.
    Positions,
}

/// A tensor operation on operands of type `X`.
#[derive(Debug)]
pub enum Op<X> {
    /// A tensor from outside.
    Input(Leaf),
    /// The rows of the first operand that the second one names.
    GetRows(X, X),
    /// The matrix product of the first operand's transpose with the second one.
    MulMat(X, X),
    Add(X, X),
    Mul(X, X),
    Reshape1d(X, Dim<X>),
    Reshape2d(X, Dim<X>, Dim<X>),
    Reshape3d(X, Dim<X>, Dim<X>, Dim<X>),
    Transpose(X),
    /// A contiguous copy.
    Cont(X),
    /// A contiguous copy of the given shape.
    Cont2d(X, i64, i64),
    /// Zeros in front, along the first axis.
    PadFront(X, i32),
    /// The convolution of the second operand with the first: stride one, no padding, and the given
    /// dilation.
    Conv1d(X, X, i32),
    /// The depthwise convolution of the second operand with the first.
    Conv1dDepthwise(X, X),
    /// The transposed convolution of the second operand with the first, of the given stride.
    ConvTranspose1d(X, X, i32),
    Permute(X, i32, i32, i32, i32),
    RmsNorm(X, Real32),
    Norm(X, Real32),
    Exp(X),
    Sin(X),
    Sqr(X),
    Scale(X, Scalar),
    /// Rotary position embedding of the first operand at the positions that the second one holds:
    /// the number of rotated dimensions and the base.
    Rope(X, X, i32, Real32),
    /// Minus infinity above the diagonal.
    DiagMaskInf(X),
    SoftMax(X),
    Silu(X),
    Gelu(X),
    Tanh(X),
    /// The middle of the first operand along its first axis: what is left when, on either side,
    /// as many entries fall away as the second operand's first axis exceeds the given rate.
    Trim(X, X, i32),
}

/// A tensor expression.
pub enum Expr {
    Leaf(Leaf),
    Apply(Box<Op<Expr>>),
}

/// The expression with the given operation at its root.
pub open spec fn expr(op: Op<Expr>) -> Expr {
    match op {
        Op::Input(leaf) => Expr::Leaf(leaf),
        _ => Expr::Apply(Box::new(op)),
    }
}

/// Whether the axis size speaks of nodes below `n` only.
pub open spec fn dim_below(d: Dim<usize>, n: int) -> bool {
    match d {
        Dim::Fixed(_) => true,
        Dim::Extent(x, _) => x < n,
    }
}

/// The axis size with expressions in place of nodes.
pub open spec fn dim_denoted(d: Dim<usize>, env: Seq<Expr>) -> Dim<Expr> {
    match d {
        Dim::Fixed(k) => Dim::Fixed(k),
        Dim::Extent(x, axis) => Dim::Extent(env[x as int], axis),
    }
}

/// Whether the operation's operands are nodes below `n`.
pub open spec fn op_below(op: Op<usize>, n: int) -> bool {
    match op {
        Op::Input(_) => true,
        Op::GetRows(a, b) => a < n && b < n,
        Op::MulMat(a, b) => a < n && b < n,
        Op::Add(a, b) => a < n && b < n,
        Op::Mul(a, b) => a < n && b < n,
        Op::Reshape1d(a, d) => a < n && dim_below(d, n),
        Op::Reshape2d(a, d, e) => a < n && dim_below(d, n) && dim_below(e, n),
        Op::Reshape3d(a, d, e, f) => a < n && dim_below(d, n) && dim_below(e, n) && dim_below(f, n),
        Op::Transpose(a) => a < n,
        Op::Cont(a) => a < n,
        Op::Cont2d(a, _, _) => a < n,
        Op::PadFront(a, _) => a < n,
        Op::Conv1d(a, b, _) => a < n && b < n,
        Op::Conv1dDepthwise(a, b) => a < n && b < n,
        Op::ConvTranspose1d(a, b, _) => a < n && b < n,
        Op::Permute(a, _, _, _, _) => a < n,
        Op::RmsNorm(a, _) => a < n,
        Op::Norm(a, _) => a < n,
        Op::Exp(a) => a < n,
        Op::Sin(a) => a < n,
        Op::Sqr(a) => a < n,
        Op::Scale(a, _) => a < n,
        Op::Rope(a, b, _, _) => a < n && b < n,
        Op::DiagMaskInf(a) => a < n,
        Op::SoftMax(a) => a < n,
        Op::Silu(a) => a < n,
        Op::Gelu(a) => a < n,
        Op::Tanh(a) => a < n,
        Op::Trim(a, b, _) => a < n && b < n,
    }
}

/// The expression that an operation denotes where its operands denote the expressions of `env`.
pub open spec fn denoted(op: Op<usize>, env: Seq<Expr>) -> Expr {
    expr(
        match op {
            Op::Input(leaf) => Op::Input(leaf),
            Op::GetRows(a, b) => Op::GetRows(env[a as int], env[b as int]),
            Op::MulMat(a, b) => Op::MulMat(env[a as int], env[b as int]),
            Op::Add(a, b) => Op::Add(env[a as int], env[b as int]),
            Op::Mul(a, b) => Op::Mul(env[a as int], env[b as int]),
            Op::Reshape1d(a, d) => Op::Reshape1d(env[a as int], dim_denoted(d, env)),
            Op::Reshape2d(a, d, e) => Op::Reshape2d(
                env[a as int],
                dim_denoted(d, env),
                dim_denoted(e, env),
            ),
            Op::Reshape3d(a, d, e, f) => Op::Reshape3d(
                env[a as int],
                dim_denoted(d, env),
                dim_denoted(e, env),
                dim_denoted(f, env),
            ),
            Op::Transpose(a) => Op::Transpose(env[a as int]),
            Op::Cont(a) => Op::Cont(env[a as int]),
            Op::Cont2d(a, m, n) => Op::Cont2d(env[a as int], m, n),
            Op::PadFront(a, n) => Op::PadFront(env[a as int], n),
            Op::Conv1d(a, b, n) => Op::Conv1d(env[a as int], env[b as int], n),
            Op::Conv1dDepthwise(a, b) => Op::Conv1dDepthwise(env[a as int], env[b as int]),
            Op::ConvTranspose1d(a, b, n) => Op::ConvTranspose1d(env[a as int], env[b as int], n),
            Op::Permute(a, i, j, k, l) => Op::Permute(env[a as int], i, j, k, l),
            Op::RmsNorm(a, eps) => Op::RmsNorm(env[a as int], eps),
            Op::Norm(a, eps) => Op::Norm(env[a as int], eps),
            Op::Exp(a) => Op::Exp(env[a as int]),
            Op::Sin(a) => Op::Sin(env[a as int]),
            Op::Sqr(a) => Op::Sqr(env[a as int]),
            Op::Scale(a, s) => Op::Scale(env[a as int], s),
            Op::Rope(a, b, n, theta) => Op::Rope(env[a as int], env[b as int], n, theta),
            Op::DiagMaskInf(a) => Op::DiagMaskInf(env[a as int]),
            Op::SoftMax(a) => Op::SoftMax(env[a as int]),
            Op::Silu(a) => Op::Silu(env[a as int]),
            Op::Gelu(a) => Op::Gelu(env[a as int]),
            Op::Tanh(a) => Op::Tanh(env[a as int]),
            Op::Trim(a, b, rate) => Op::Trim(env[a as int], env[b as int], rate),
        },
    )
}

/// A tensor graph under construction. Each node is an operation on nodes before it.
pub struct Graph {
    nodes: Vec<Op<usize>>,
    exprs: Ghost<Seq<Expr>>,
}

impl Graph {
    /// The expressions that the nodes denote.
    pub closed spec fn exprs(self) -> Seq<Expr> {
        self.exprs@
    }

    /// The nodes' operations.
    pub closed spec fn ops(self) -> Seq<Op<usize>> {
        self.nodes@
    }

    /// Every node's operands come before it, and it denotes what its operation makes of them.
    pub closed spec fn wf(self) -> bool {
        &&& self.exprs@.len() == self.nodes@.len()
        &&& forall|i: int|
            #![trigger self.nodes@[i]]
            0 <= i < self.nodes@.len() ==> op_below(self.nodes@[i], i) && self.exprs@[i] == denoted(
                self.nodes@[i],
                self.exprs@,
            )
    }

    /// Whether `later` is this graph with nodes added.
    pub open spec fn grows_to(self, later: Graph) -> bool {
        &&& self.exprs().len() <= later.exprs().len()
        &&& forall|i: int|
            0 <= i < self.exprs().len() ==> #[trigger] later.exprs()[i] == self.exprs()[i]
    }

    /// In a well-formed graph each node is an operation on nodes before it, and denotes that
    /// operation's expression.
    pub proof fn lemma_topological(self, i: int)
        requires
            self.wf(),
            0 <= i < self.ops().len(),
        ensures
            self.exprs().len() == self.ops().len(),
            op_below(self.ops()[i], i),
            self.exprs()[i] == denoted(self.ops()[i], self.exprs()),
    {
    }

    /// Every node denotes one expression.
    pub proof fn lemma_lengths(self)
        requires
            self.wf(),
        ensures
            self.exprs().len() == self.ops().len(),
    {
    }

    /// The graph without nodes.
    pub fn new() -> (g: Graph)
        ensures
            g.wf(),
            g.exprs() == Seq::<Expr>::empty(),
            g.ops() == Seq::<Op<usize>>::empty(),
    {
        Graph { nodes: Vec::new(), exprs: Ghost(Seq::empty()) }
    }

    /// Adds a node and returns its index.
    pub fn add_node(&mut self, op: Op<usize>) -> (r: usize)
        requires
            old(self).wf(),
            op_below(op, old(self).exprs().len() as int),
        ensures
            final(self).wf(),
            old(self).grows_to(*final(self)),
            final(self).exprs() == old(self).exprs().push(denoted(op, old(self).exprs())),
            final(self).ops() == old(self).ops().push(op),
            r == old(self).exprs().len(),
    {
        let ghost before = self.exprs@;
        let r: usize = self.nodes.len();
        self.nodes.push(op);
        proof {
            self.exprs@ = before.push(denoted(op, before));
            assert forall|i: int|
                #![trigger self.nodes@[i]]
                0 <= i < self.nodes@.len() implies op_below(self.nodes@[i], i) && self.exprs@[i]
                == denoted(self.nodes@[i], self.exprs@) by {
                if i < before.len() {
                    assert(self.nodes@[i] == old(self).nodes@[i]);
                    assert(before[i] == denoted(self.nodes@[i], before));
                }
                lemma_denoted_grows(self.nodes@[i], before, denoted(op, before));
            }
        }
        r
    }

    /// The nodes' operations, in order.
    pub fn into_nodes(self) -> (nodes: Vec<Op<usize>>)
        requires
            self.wf(),
        ensures
            nodes@ == self.ops(),
    {
        self.nodes
    }
}

proof fn lemma_denoted_grows(op: Op<usize>, env: Seq<Expr>, e: Expr)
    requires
        op_below(op, env.len() as int),
    ensures
        denoted(op, env) == denoted(op, env.push(e)),
{
}

} // verus!
