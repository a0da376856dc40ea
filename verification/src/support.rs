//! How much of a graph a backend supports, for diagnosis.

use vstd::prelude::*;
use crate::text::{chars_of, decimal_text};
#[allow(unused_imports)]
use crate::text::decimal;

verus! {

/// How many operations that are not supported are printed.
pub const LISTED_OPS: usize = 12;

/// The order of texts by their first different character, shorter before longer.
pub open spec fn before(a: Seq<char>, b: Seq<char>) -> bool
    decreases a.len(),
{
    if b.len() == 0 {
        false
    } else if a.len() == 0 {
        true
    } else if a[0] != b[0] {
        a[0] < b[0]
    } else {
        before(a.drop_first(), b.drop_first())
    }
}

proof fn lemma_before_is_strict(a: Seq<char>, b: Seq<char>)
    ensures
        !(before(a, b) && before(b, a)),
        !before(a, a),
        a != b ==> before(a, b) || before(b, a),
    decreases a.len(),
{
    if a.len() > 0 {
        lemma_before_is_strict(
            a.drop_first(),
            if b.len() > 0 {
                b.drop_first()
            } else {
                b
            },
        );
        if b.len() > 0 && a[0] == b[0] && a.drop_first() == b.drop_first() {
            assert(a =~= b) by {
                assert(a =~= seq![a[0]] + a.drop_first());
                assert(b =~= seq![b[0]] + b.drop_first());
            }
        }
    } else if b.len() == 0 {
        assert(a =~= b);
    }
}

proof fn lemma_before_is_transitive(a: Seq<char>, b: Seq<char>, c: Seq<char>)
    requires
        before(a, b),
        before(b, c),
    ensures
        before(a, c),
    decreases a.len(),
{
    if a.len() > 0 && a[0] == b[0] && b[0] == c[0] {
        lemma_before_is_transitive(a.drop_first(), b.drop_first(), c.drop_first());
    }
}

/// Whether a text comes before another.
fn is_before(a: &Vec<char>, b: &Vec<char>) -> (r: bool)
    ensures
        r == before(a@, b@),
{
    let mut i: usize = 0;
    assert(a@.skip(0) =~= a@ && b@.skip(0) =~= b@);
    while i < a.len() && i < b.len() && a[i] == b[i]
        invariant
            i <= a@.len(),
            i <= b@.len(),
            before(a@, b@) == before(a@.skip(i as int), b@.skip(i as int)),
        decreases a@.len() - i,
    {
        assert(a@.skip(i as int).drop_first() =~= a@.skip(i + 1));
        assert(b@.skip(i as int).drop_first() =~= b@.skip(i + 1));
        i = i + 1;
    }
    if i >= b.len() {
        false
    } else if i >= a.len() {
        true
    } else {
        a[i] < b[i]
    }
}

/// What a backend says of a node of a graph. An operation without a description has none.
#[derive(Debug)]
pub struct NodeSupport {
    pub supported: bool,
    pub offloaded: bool,
    pub op: Option<String>,
}

impl NodeSupport {
    /// The operation's description.
    pub open spec fn spec_op(&self) -> Seq<char> {
        match self.op {
            Some(op) => op@,
            None => "<unknown>"@,
        }
    }

    fn op_text(&self) -> (r: String)
        ensures
            r@ == self.spec_op(),
    {
        match &self.op {
            Some(op) => op.clone(),
            None => "<unknown>".to_string(),
        }
    }
}

/// How many of some nodes are supported. Where there is no node, nothing is counted.
pub open spec fn supported_nodes(nodes: Seq<Option<NodeSupport>>) -> nat
    decreases nodes.len(),
{
    if nodes.len() == 0 {
        0
    } else {
        supported_nodes(nodes.drop_last()) + (if nodes.last() matches Some(node) && node.supported {
            1nat
        } else {
            0
        })
    }
}

/// How many of some nodes are offloaded.
pub open spec fn offloaded_nodes(nodes: Seq<Option<NodeSupport>>) -> nat
    decreases nodes.len(),
{
    if nodes.len() == 0 {
        0
    } else {
        offloaded_nodes(nodes.drop_last()) + (if nodes.last() matches Some(node) && node.offloaded {
            1nat
        } else {
            0
        })
    }
}

/// How many of some nodes with an operation are not supported.
pub open spec fn unsupported_nodes(nodes: Seq<Option<NodeSupport>>, op: Seq<char>) -> nat
    decreases nodes.len(),
{
    if nodes.len() == 0 {
        0
    } else {
        unsupported_nodes(nodes.drop_last(), op) + (if nodes.last() matches Some(node)
            && !node.supported && node.spec_op() == op {
            1nat
        } else {
            0
        })
    }
}

/// Whether a list is that of the operations of some nodes that are not supported: in order, each
/// once and with its count.
pub open spec fn lists_unsupported(
    ops: Seq<(String, usize)>,
    nodes: Seq<Option<NodeSupport>>,
) -> bool {
    &&& forall|i: int, j: int|
        0 <= i < j < ops.len() ==> before((#[trigger] ops[i]).0@, (#[trigger] ops[j]).0@)
    &&& forall|i: int|
        0 <= i < ops.len() ==> (#[trigger] ops[i]).1 == unsupported_nodes(nodes, ops[i].0@)
            && ops[i].1 > 0
    &&& forall|op: Seq<char>| #[trigger]
        unsupported_nodes(nodes, op) > 0 ==> exists|i: int|
            0 <= i < ops.len() && (#[trigger] ops[i]).0@ == op
}

/// How much of a graph a backend supports.
#[derive(Debug)]
pub struct SupportReport {
    pub nodes: usize,
    pub supported: usize,
    pub offloaded: usize,
    /// The operations that are not supported, in order, with how many nodes have them.
    pub unsupported: Vec<(String, usize)>,
}

proof fn lemma_counts_are_bounded(nodes: Seq<Option<NodeSupport>>)
    ensures
        supported_nodes(nodes) <= nodes.len(),
        offloaded_nodes(nodes) <= nodes.len(),
        forall|op: Seq<char>| #[trigger] unsupported_nodes(nodes, op) <= nodes.len(),
    decreases nodes.len(),
{
    if nodes.len() > 0 {
        let rest = nodes.drop_last();
        lemma_counts_are_bounded(rest);
        assert forall|op: Seq<char>| #[trigger] unsupported_nodes(nodes, op) <= nodes.len() by {
            assert(unsupported_nodes(rest, op) <= rest.len());
        }
    }
}

/// Counts one more node with an operation.
fn count_op(ops: &mut Vec<(String, usize)>, op: String, nodes: Ghost<Seq<Option<NodeSupport>>>)
    requires
        nodes@.len() > 0,
        nodes@.len() <= usize::MAX,
        lists_unsupported(old(ops)@, nodes@.drop_last()),
        nodes@.last() matches Some(node) && !node.supported && node.spec_op() == op@,
    ensures
        lists_unsupported(final(ops)@, nodes@),
{
    let ghost rest = nodes@.drop_last();
    let ghost was = ops@;
    proof {
        lemma_counts_are_bounded(nodes@);
        assert(unsupported_nodes(nodes@, op@) == unsupported_nodes(rest, op@) + 1);
        assert forall|other: Seq<char>| other != op@ implies #[trigger] unsupported_nodes(
            nodes@,
            other,
        ) == unsupported_nodes(rest, other) by {}
    }
    let key = chars_of(op.as_str());
    let mut i: usize = 0;
    while i < ops.len() && is_before(&chars_of(ops[i].0.as_str()), &key)
        invariant
            i <= ops@.len(),
            ops@ == was,
            key@ == op@,
            forall|k: int| 0 <= k < i ==> before((#[trigger] was[k]).0@, op@),
        decreases ops@.len() - i,
    {
        i = i + 1;
    }
    if i < ops.len() && !is_before(&key, &chars_of(ops[i].0.as_str())) {
        proof {
            lemma_before_is_strict(was[i as int].0@, op@);
            assert(was[i as int].0@ == op@);
            assert(unsupported_nodes(nodes@, op@) <= nodes@.len());
        }
        let entry = &mut ops[i];
        entry.1 = entry.1 + 1;
        proof {
            assert forall|j: int| 0 <= j < ops@.len() implies (#[trigger] ops@[j]).1
                == unsupported_nodes(nodes@, ops@[j].0@) && ops@[j].1 > 0 by {
                if j != i {
                    assert(ops@[j] == was[j]);
                    if j < i {
                        lemma_before_is_strict(was[j].0@, was[i as int].0@);
                    } else {
                        lemma_before_is_strict(was[i as int].0@, was[j].0@);
                    }
                }
            }
            assert forall|a: int, b: int| 0 <= a < b < ops@.len() implies before(
                (#[trigger] ops@[a]).0@,
                (#[trigger] ops@[b]).0@,
            ) by {
                assert(ops@[a].0@ == was[a].0@);
                assert(ops@[b].0@ == was[b].0@);
                assert(before(was[a].0@, was[b].0@));
            }
            assert forall|o: Seq<char>| #[trigger] unsupported_nodes(
                nodes@,
                o,
            ) > 0 implies exists|k: int| 0 <= k < ops@.len() && (#[trigger] ops@[k]).0@ == o by {
                if o == op@ {
                    assert(ops@[i as int].0@ == o);
                } else {
                    assert(unsupported_nodes(rest, o) > 0);
                    let k = choose|k: int| 0 <= k < was.len() && (#[trigger] was[k]).0@ == o;
                    assert(ops@[k].0@ == o);
                }
            }
        }
    } else {
        proof {
            assert forall|k: int| 0 <= k < was.len() implies (#[trigger] was[k]).0@ != op@ by {
                lemma_before_is_strict(was[k].0@, op@);
                if k >= i && was[k].0@ == op@ {
                    if k > i {
                        assert(before(was[i as int].0@, was[k].0@));
                        lemma_before_is_strict(was[i as int].0@, op@);
                    }
                }
            }
            if unsupported_nodes(rest, op@) > 0 {
                let k = choose|k: int| 0 <= k < was.len() && (#[trigger] was[k]).0@ == op@;
                assert(false);
            }
        }
        ops.insert(i, (op, 1));
        proof {
            assert(ops@ =~= was.insert(i as int, ops@[i as int]));
            assert forall|j: int| 0 <= j < ops@.len() implies (#[trigger] ops@[j]).1
                == unsupported_nodes(nodes@, ops@[j].0@) && ops@[j].1 > 0 by {
                if j < i {
                    assert(ops@[j] == was[j]);
                } else if j > i {
                    assert(ops@[j] == was[j - 1]);
                }
            }
            assert forall|a: int, b: int| 0 <= a < b < ops@.len() implies before(
                (#[trigger] ops@[a]).0@,
                (#[trigger] ops@[b]).0@,
            ) by {
                let pa = if a < i {
                    a
                } else {
                    a - 1
                };
                let pb = if b < i {
                    b
                } else {
                    b - 1
                };
                if a == i {
                    assert(ops@[b] == was[pb]);
                    if pb > i {
                        assert(before(was[i as int].0@, was[pb].0@));
                        lemma_before_is_transitive(op@, was[i as int].0@, was[pb].0@);
                    }
                } else if b == i {
                    assert(ops@[a] == was[pa]);
                } else {
                    assert(ops@[a] == was[pa] && ops@[b] == was[pb]);
                    assert(before(was[pa].0@, was[pb].0@));
                }
            }
            assert forall|o: Seq<char>| #[trigger] unsupported_nodes(
                nodes@,
                o,
            ) > 0 implies exists|k: int| 0 <= k < ops@.len() && (#[trigger] ops@[k]).0@ == o by {
                if o == op@ {
                    assert(ops@[i as int].0@ == o);
                } else {
                    assert(unsupported_nodes(rest, o) > 0);
                    let k = choose|k: int| 0 <= k < was.len() && (#[trigger] was[k]).0@ == o;
                    if k < i {
                        assert(ops@[k] == was[k]);
                    } else {
                        assert(ops@[k + 1] == was[k]);
                    }
                }
            }
        }
    }
}

impl SupportReport {
    /// Counts what a backend says of the nodes of a graph.
    pub fn tally(nodes: &Vec<Option<NodeSupport>>) -> (r: SupportReport)
        ensures
            r.nodes == nodes@.len(),
            r.supported == supported_nodes(nodes@),
            r.offloaded == offloaded_nodes(nodes@),
            lists_unsupported(r.unsupported@, nodes@),
    {
        let mut supported: usize = 0;
        let mut offloaded: usize = 0;
        let mut unsupported: Vec<(String, usize)> = Vec::new();
        let len: usize = nodes.len();
        let mut i: usize = 0;
        while i < len
            invariant
                i <= len,
                len == nodes@.len(),
                supported == supported_nodes(nodes@.take(i as int)),
                offloaded == offloaded_nodes(nodes@.take(i as int)),
                lists_unsupported(unsupported@, nodes@.take(i as int)),
            decreases len - i,
        {
            let ghost more = nodes@.take(i + 1);
            proof {
                assert(more.drop_last() =~= nodes@.take(i as int));
                assert(more.last() == nodes@[i as int]);
                lemma_counts_are_bounded(nodes@.take(i as int));
            }
            match &nodes[i] {
                Some(node) => {
                    if node.supported {
                        supported = supported + 1;
                    } else {
                        count_op(&mut unsupported, node.op_text(), Ghost(more));
                    }
                    if node.offloaded {
                        offloaded = offloaded + 1;
                    }
                },
                None => {},
            }
            i = i + 1;
            assert(lists_unsupported(unsupported@, more)) by {
                if nodes@[i - 1] matches Some(node) && !node.supported {
                } else {
                    assert forall|op: Seq<char>| #[trigger] unsupported_nodes(more, op)
                        == unsupported_nodes(nodes@.take(i - 1), op) by {}
                }
            }
        }
        assert(nodes@.take(i as int) =~= nodes@);
        SupportReport { nodes: len, supported, offloaded, unsupported }
    }

    /// The lines that are printed of a report: the counts, and the first operations that are not
    /// supported.
    pub fn lines(&self, label: &str) -> (r: Vec<String>)
        ensures
            r@.len() == 1 + (if self.unsupported@.len() < LISTED_OPS {
                self.unsupported@.len()
            } else {
                LISTED_OPS as nat
            }),
            r@[0]@ == "[backend-debug] "@ + label@ + ": nodes="@ + decimal(self.nodes as nat)
                + " supported="@ + decimal(self.supported as nat) + " offloaded="@ + decimal(
                self.offloaded as nat,
            ),
            forall|i: int|
                1 <= i < r@.len() ==> (#[trigger] r@[i])@ == unsupported_line(
                    self.unsupported@[i - 1].0@,
                    self.unsupported@[i - 1].1 as nat,
                ),
    {
        let mut r: Vec<String> = Vec::new();
        let mut head = "[backend-debug] ".to_string();
        head.append(label);
        head.append(": nodes=");
        head.append(decimal_text(self.nodes as u64).as_str());
        head.append(" supported=");
        head.append(decimal_text(self.supported as u64).as_str());
        head.append(" offloaded=");
        head.append(decimal_text(self.offloaded as u64).as_str());
        r.push(head);
        let ghost first = r@[0]@;
        let mut i: usize = 0;
        while i < self.unsupported.len() && i < LISTED_OPS
            invariant
                i <= self.unsupported@.len(),
                i <= LISTED_OPS,
                r@.len() == 1 + i,
                r@[0]@ == first,
                forall|k: int|
                    1 <= k < r@.len() ==> (#[trigger] r@[k])@ == unsupported_line(
                        self.unsupported@[k - 1].0@,
                        self.unsupported@[k - 1].1 as nat,
                    ),
            decreases self.unsupported@.len() - i,
        {
            let mut line = "[backend-debug] unsupported ".to_string();
            line.append(self.unsupported[i].0.as_str());
            line.append(": ");
            line.append(decimal_text(self.unsupported[i].1 as u64).as_str());
            r.push(line);
            i = i + 1;
        }
        r
    }
}

/// What is printed of an operation that is not supported.
pub open spec fn unsupported_line(op: Seq<char>, count: nat) -> Seq<char> {
    "[backend-debug] unsupported "@ + op + ": "@ + decimal(count)
}

/// What an operation is called in a report.
pub open spec fn called(node: NodeSupport) -> Seq<char> {
    match node.op {
        Some(op) => op@,
        None => "<unknown>"@,
    }
}

/// A report counts node by node: one more node that is supported, offloaded or not supported counts
/// as one more of those, and a place without a node only counts as a node. There is nothing to count
/// in an empty graph.
pub proof fn lemma_tally_counts_nodes(
    nodes: Vec<Option<NodeSupport>>,
    node: Option<NodeSupport>,
    more: Vec<Option<NodeSupport>>,
    r: SupportReport,
    s: SupportReport,
)
    requires
        call_ensures(SupportReport::tally, (&nodes,), r),
        call_ensures(SupportReport::tally, (&more,), s),
        more@ == nodes@.push(node),
    ensures
        nodes@.len() == 0 ==> r.nodes == 0 && r.supported == 0 && r.offloaded == 0
            && r.unsupported@.len() == 0,
        s.nodes == r.nodes + 1,
        s.supported == r.supported + (if node is Some && node->0.supported {
            1int
        } else {
            0
        }),
        s.offloaded == r.offloaded + (if node is Some && node->0.offloaded {
            1int
        } else {
            0
        }),
        forall|i: int, j: int|
            0 <= i < s.unsupported@.len() && 0 <= j < r.unsupported@.len() && (
            #[trigger] s.unsupported@[i]).0@ == (#[trigger] r.unsupported@[j]).0@
                ==> s.unsupported@[i].1 == r.unsupported@[j].1 + (if node is Some
                && !node->0.supported && called(node->0) == s.unsupported@[i].0@ {
                1int
            } else {
                0
            }),
        node is Some && !node->0.supported ==> exists|i: int|
            0 <= i < s.unsupported@.len() && (#[trigger] s.unsupported@[i]).0@ == called(node->0),
{
    assert(more@.drop_last() =~= nodes@);
    assert(more@.last() == node);
    if nodes@.len() == 0 && r.unsupported@.len() > 0 {
        assert(r.unsupported@[0].1 == unsupported_nodes(nodes@, r.unsupported@[0].0@));
    }
    assert forall|i: int, j: int|
        0 <= i < s.unsupported@.len() && 0 <= j < r.unsupported@.len() && (
        #[trigger] s.unsupported@[i]).0@ == (#[trigger] r.unsupported@[j]).0@ implies s.unsupported@[i].1
        == r.unsupported@[j].1 + (if node is Some && !node->0.supported && called(node->0)
        == s.unsupported@[i].0@ {
        1int
    } else {
        0
    }) by {
        let op = s.unsupported@[i].0@;
        assert(s.unsupported@[i].1 == unsupported_nodes(more@, op));
        assert(r.unsupported@[j].1 == unsupported_nodes(nodes@, op));
    }
    if node is Some && !node->0.supported {
        assert(unsupported_nodes(more@, called(node->0)) > 0);
    }
}

/// A report is printed as its counts and, behind them, the first twelve of the operations that are
/// not supported.
pub proof fn lemma_report_lines(report: SupportReport, label: &str, r: Vec<String>, i: int)
    requires
        call_ensures(SupportReport::lines, (&report, label), r),
    ensures
        report.unsupported@.len() <= 12 ==> r@.len() == 1 + report.unsupported@.len(),
        report.unsupported@.len() > 12 ==> r@.len() == 13,
        r@[0]@ == "[backend-debug] "@ + label@ + ": nodes="@ + decimal(report.nodes as nat)
            + " supported="@ + decimal(report.supported as nat) + " offloaded="@ + decimal(
            report.offloaded as nat,
        ),
        1 <= i < r@.len() ==> r@[i]@ == "[backend-debug] unsupported "@ + report.unsupported@[i
            - 1].0@ + ": "@ + decimal(report.unsupported@[i - 1].1 as nat),
{
}

} // verus!
