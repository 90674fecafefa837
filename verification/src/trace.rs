//! The graph tracer: flattening a value's operand history into an
//! explicit node/edge graph.
//!
//! The walk is depth-first and pre-order, left before right, and is not
//! memoized: every time a structurally identical node is reached again it
//! is added again.  Each operator application contributes a synthetic
//! operator node feeding the node it produced, with both operands feeding
//! the operator node.  Insertion order fixes the node indices, which the
//! renderer's byte-exact output depends on.

use crate::graph::{
    graph_add_edge, graph_add_node, graph_edges, graph_new, graph_nodes, TraceGraph,
    GRAPH_CAPACITY,
};
use crate::value::{op_chars, Value};
use vstd::prelude::*;

verus! {

/// Number of operator applications recorded in a value's history.
pub open spec fn op_count(v: Value) -> nat
    decreases v,
{
    match (v.op, v.prev.0, v.prev.1) {
        (Some(_), Some(l), Some(r)) => 1 + op_count(*l.node) + op_count(*r.node),
        _ => 0,
    }
}

/// Number of leaves in a value's history.
pub open spec fn leaf_count(v: Value) -> nat
    decreases v,
{
    match (v.op, v.prev.0, v.prev.1) {
        (Some(_), Some(l), Some(r)) => leaf_count(*l.node) + leaf_count(*r.node),
        _ => 1,
    }
}

/// The node labels the recursive walk below `v` appends, in insertion
/// order: the operator symbol, the left operand's display string, the
/// walk below the left operand, then the same for the right operand.
pub open spec fn build_nodes(v: Value, with_grad: bool) -> Seq<Seq<char>>
    decreases v,
{
    match (v.op, v.prev.0, v.prev.1) {
        (Some(o), Some(l), Some(r)) => seq![op_chars(o)] + seq![
            (*l.node).display_chars(with_grad),
        ] + build_nodes(*l.node, with_grad) + seq![(*r.node).display_chars(with_grad)]
            + build_nodes(*r.node, with_grad),
        _ => Seq::<Seq<char>>::empty(),
    }
}

/// The edges the recursive walk below `v` appends, in insertion order,
/// where `idx` is the graph index of `v`'s own entry and `n0` is the next
/// free index: operator feeds result, each operand feeds the operator.
pub open spec fn build_edges(v: Value, idx: int, n0: int) -> Seq<(int, int)>
    decreases v,
{
    match (v.op, v.prev.0, v.prev.1) {
        (Some(_), Some(l), Some(r)) => {
            let ri = n0 + 2 + 3 * op_count(*l.node);
            seq![(n0, idx), (n0 + 1, n0)] + build_edges(*l.node, n0 + 1, n0 + 2) + seq![(ri, n0)]
                + build_edges(*r.node, ri, ri + 1)
        },
        _ => Seq::<(int, int)>::empty(),
    }
}

/// All node labels of the trace of `v`: the root's display string, then
/// the walk below it.
pub open spec fn trace_nodes(v: Value, with_grad: bool) -> Seq<Seq<char>> {
    seq![v.display_chars(with_grad)] + build_nodes(v, with_grad)
}

/// All edges of the trace of `v`: the root sits at index 0 and the walk
/// starts at the next free index, 1.
pub open spec fn trace_edges(v: Value) -> Seq<(int, int)> {
    build_edges(v, 0, 1)
}

/// The walk below a node appends exactly three labels per operator
/// application in its history.
pub proof fn lemma_build_nodes_len(v: Value, with_grad: bool)
    ensures
        build_nodes(v, with_grad).len() == 3 * op_count(v),
    decreases v,
{
    match (v.op, v.prev.0, v.prev.1) {
        (Some(_), Some(l), Some(r)) => {
            lemma_build_nodes_len(*l.node, with_grad);
            lemma_build_nodes_len(*r.node, with_grad);
        },
        _ => {},
    }
}

/// The walk below a node appends exactly three edges per operator
/// application in its history.
pub proof fn lemma_build_edges_len(v: Value, idx: int, n0: int)
    ensures
        build_edges(v, idx, n0).len() == 3 * op_count(v),
    decreases v,
{
    match (v.op, v.prev.0, v.prev.1) {
        (Some(_), Some(l), Some(r)) => {
            lemma_build_edges_len(*l.node, n0 + 1, n0 + 2);
            lemma_build_edges_len(*r.node, n0 + 2 + 3 * op_count(*l.node), n0 + 3 + 3 * op_count(
                *l.node,
            ));
        },
        _ => {},
    }
}

/// A binary operator history has one operator application fewer than it
/// has leaves.
pub proof fn lemma_counts(v: Value)
    ensures
        leaf_count(v) == op_count(v) + 1,
    decreases v,
{
    match (v.op, v.prev.0, v.prev.1) {
        (Some(_), Some(l), Some(r)) => {
            lemma_counts(*l.node);
            lemma_counts(*r.node);
        },
        _ => {},
    }
}

/// Trace node count: a history of `n` leaves combined by `n - 1` operator
/// applications traces to exactly `3n - 2` graph nodes (each operator
/// application contributes its operator node and re-adds both operands)
/// and `3n - 3` edges.
pub proof fn lemma_trace_size(v: Value, with_grad: bool)
    ensures
        leaf_count(v) >= 1,
        trace_nodes(v, with_grad).len() as int == 3 * (leaf_count(v) as int) - 2,
        trace_edges(v).len() as int == 3 * (leaf_count(v) as int) - 3,
{
    lemma_build_nodes_len(v, with_grad);
    lemma_build_edges_len(v, 0, 1);
    lemma_counts(v);
}

/// Gradient passthrough, part 1: everything the walk appends below a root
/// depends only on the root's operator tag and operand links, never on
/// the root's own payload, gradient or label.
pub proof fn lemma_build_ignores_root_fields(
    v1: Value,
    v2: Value,
    with_grad: bool,
    idx: int,
    n0: int,
)
    requires
        v1.op == v2.op,
        v1.prev == v2.prev,
    ensures
        build_nodes(v1, with_grad) == build_nodes(v2, with_grad),
        build_edges(v1, idx, n0) == build_edges(v2, idx, n0),
{
}

/// Gradient passthrough, part 2: in the trace of an operator result, the
/// left operand's display string stands at index 2 and the right
/// operand's directly after the left operand's walk.  Each operand's
/// entry is its own display string, so a gradient written into an operand
/// (for instance through `borrow_mut`) shows up in that entry,
/// independent of the root's own gradient.
pub proof fn lemma_gradient_passthrough(v: Value, with_grad: bool)
    requires
        v.op is Some,
        v.prev.0 is Some,
        v.prev.1 is Some,
    ensures
        trace_nodes(v, with_grad)[2] == v.left().display_chars(with_grad),
        trace_nodes(v, with_grad)[3 + 3 * (op_count(v.left()) as int)] == v.right().display_chars(
            with_grad,
        ),
{
    lemma_build_nodes_len(v.left(), with_grad);
}

/// The display string of a well-formed node exists.
fn display_of(v: &Value, with_grad: bool) -> (s: String)
    requires
        v.displayable(),
    ensures
        s@ == v.display_chars(with_grad),
{
    match v.display(with_grad) {
        Ok(s) => s,
        Err(_) => {
            proof {
                assert(false);
            }
            String::new()
        },
    }
}

/// The recursive walk: below a well-formed node whose entry is already in
/// the graph at `index`, append the operator node, the operand entries
/// and their walks, and the connecting edges.
fn build(g: &mut TraceGraph, node: &Value, index: usize, with_grad: bool)
    requires
        node.wf(),
        (index as int) < graph_nodes(*old(g)).len(),
        graph_nodes(*old(g)).len() + 3 * op_count(*node) <= GRAPH_CAPACITY as int + 1,
        graph_edges(*old(g)).len() + 3 * op_count(*node) <= GRAPH_CAPACITY as int + 1,
    ensures
        graph_nodes(*final(g)) == graph_nodes(*old(g)) + build_nodes(*node, with_grad),
        graph_edges(*final(g)) == graph_edges(*old(g)) + build_edges(
            *node,
            index as int,
            graph_nodes(*old(g)).len() as int,
        ),
    decreases *node,
{
    let ghost old_nodes = graph_nodes(*g);
    let ghost old_edges = graph_edges(*g);
    match (&node.op, &node.prev.0, &node.prev.1) {
        (Some(o), Some(l), Some(r)) => {
            let lv = l.borrow();
            let rv = r.borrow();
            proof {
                assert(lv.wf() && rv.wf());
                lemma_build_nodes_len(*lv, with_grad);
                lemma_build_edges_len(*lv, old_nodes.len() as int + 1, old_nodes.len() as int + 2);
            }
            let op_index = graph_add_node(g, o.symbol().to_owned());
            graph_add_edge(g, op_index, index, String::new());
            let left_index = graph_add_node(g, display_of(lv, with_grad));
            graph_add_edge(g, left_index, op_index, String::new());
            build(g, lv, left_index, with_grad);
            let right_index = graph_add_node(g, display_of(rv, with_grad));
            graph_add_edge(g, right_index, op_index, String::new());
            build(g, rv, right_index, with_grad);
            proof {
                lemma_build_nodes_len(*rv, with_grad);
                lemma_build_edges_len(
                    *rv,
                    old_nodes.len() as int + 2 + 3 * op_count(*lv),
                    old_nodes.len() as int + 3 + 3 * op_count(*lv),
                );
                assert(graph_nodes(*g) =~= old_nodes + build_nodes(*node, with_grad));
                assert(graph_edges(*g) =~= old_edges + build_edges(
                    *node,
                    index as int,
                    old_nodes.len() as int,
                ));
            }
        },
        _ => {
            proof {
                assert(graph_nodes(*g) =~= old_nodes + build_nodes(*node, with_grad));
                assert(graph_edges(*g) =~= old_edges + build_edges(
                    *node,
                    index as int,
                    old_nodes.len() as int,
                ));
            }
        },
    }
}

impl Value {
    /// Traces this value's operand history into a fresh graph, display
    /// strings carrying their gradient segments.
    pub fn trace(&self) -> (g: TraceGraph)
        requires
            self.wf(),
            1 + 3 * op_count(*self) <= GRAPH_CAPACITY as int + 1,
        ensures
            graph_nodes(g) == trace_nodes(*self, true),
            graph_edges(g) == trace_edges(*self),
    {
        self.trace_with(true)
    }

    /// Traces this value's operand history into a fresh graph; with
    /// `with_grad` unset, display strings omit their gradient segments.
    pub fn trace_with(&self, with_grad: bool) -> (g: TraceGraph)
        requires
            self.wf(),
            1 + 3 * op_count(*self) <= GRAPH_CAPACITY as int + 1,
        ensures
            graph_nodes(g) == trace_nodes(*self, with_grad),
            graph_edges(g) == trace_edges(*self),
    {
        let mut g = graph_new();
        let origin = graph_add_node(&mut g, display_of(self, with_grad));
        build(&mut g, self, origin, with_grad);
        proof {
            assert(graph_nodes(g) =~= trace_nodes(*self, with_grad));
            assert(graph_edges(g) =~= trace_edges(*self));
        }
        g
    }
}

} // verus!
