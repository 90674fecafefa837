//! The trace graph: petgraph's adjacency-list graph, behind a small
//! trusted surface.
//!
//! The tracer materializes a value's operand history as a
//! `petgraph::graph::Graph` whose node weights are display strings and
//! whose edge weights are empty strings.  Verified code sees the graph
//! through two names — [`graph_nodes`], the node labels in insertion
//! order, and [`graph_edges`], the directed edges in insertion order —
//! and a handful of wrappers whose contracts state, over those names,
//! what petgraph's own source shows.

use vstd::prelude::*;

verus! {

/// Petgraph's adjacency-list graph, declared so that it may appear in
/// verified signatures.  Values of it are opaque to the verifier.
#[verifier::external_type_specification]
#[verifier::external_body]
#[verifier::reject_recursive_types(N)]
#[verifier::reject_recursive_types(E)]
#[verifier::reject_recursive_types(Ty)]
#[verifier::reject_recursive_types(Ix)]
pub struct ExGraph<N, E, Ty, Ix>(petgraph::graph::Graph<N, E, Ty, Ix>);

/// Petgraph's marker type for directed edges.
#[verifier::external_type_specification]
#[verifier::external_body]
pub struct ExDirected(petgraph::Directed);

/// The graph a trace produces: display strings on nodes, unlabeled
/// (empty-string) directed edges.
pub type TraceGraph = petgraph::graph::Graph<String, String, petgraph::Directed, u32>;

/// The node labels of a trace graph, in insertion order.
pub uninterp spec fn graph_nodes(g: TraceGraph) -> Seq<Seq<char>>;

/// The directed edges of a trace graph as (source, target) index pairs,
/// in insertion order.
pub uninterp spec fn graph_edges(g: TraceGraph) -> Seq<(int, int)>;

/// Most nodes or edges a `u32`-indexed petgraph graph can hold before
/// its `add` operations fail: one below the sentinel index.
pub const GRAPH_CAPACITY: usize = 0xFFFF_FFFE;

/// Relies on petgraph's `Graph::new`: a graph with no nodes and no edges.
#[verifier::external_body]
pub(crate) fn graph_new() -> (g: TraceGraph)
    ensures
        graph_nodes(g) == Seq::<Seq<char>>::empty(),
        graph_edges(g) == Seq::<(int, int)>::empty(),
{
    petgraph::graph::Graph::new()
}

/// Relies on petgraph's `Graph::add_node`: appends a node holding
/// `label` and returns its index, the former node count.  (Below the
/// index limit it cannot fail; the bound keeps it away from the
/// sentinel.)
#[verifier::external_body]
pub(crate) fn graph_add_node(g: &mut TraceGraph, label: String) -> (i: usize)
    requires
        graph_nodes(*old(g)).len() <= GRAPH_CAPACITY,
    ensures
        i as int == graph_nodes(*old(g)).len(),
        graph_nodes(*final(g)) == graph_nodes(*old(g)).push(label@),
        graph_edges(*final(g)) == graph_edges(*old(g)),
{
    g.add_node(label).index()
}

/// Relies on petgraph's `Graph::add_edge`: appends a directed edge from
/// node `a` to node `b`.  Both endpoints must exist, and the edge count
/// must stay below the index limit, else it panics.
#[verifier::external_body]
pub(crate) fn graph_add_edge(g: &mut TraceGraph, a: usize, b: usize, label: String)
    requires
        (a as int) < graph_nodes(*old(g)).len(),
        (b as int) < graph_nodes(*old(g)).len(),
        graph_edges(*old(g)).len() <= GRAPH_CAPACITY,
    ensures
        graph_nodes(*final(g)) == graph_nodes(*old(g)),
        graph_edges(*final(g)) == graph_edges(*old(g)).push((a as int, b as int)),
{
    g.add_edge(
        petgraph::graph::NodeIndex::new(a),
        petgraph::graph::NodeIndex::new(b),
        label,
    );
}

/// Relies on petgraph's `Graph::node_count`: the number of nodes.
#[verifier::external_body]
pub(crate) fn graph_node_count(g: &TraceGraph) -> (n: usize)
    ensures
        n as int == graph_nodes(*g).len(),
{
    g.node_count()
}

/// Relies on petgraph's `Graph::edge_count`: the number of edges.
#[verifier::external_body]
pub(crate) fn graph_edge_count(g: &TraceGraph) -> (n: usize)
    ensures
        n as int == graph_edges(*g).len(),
{
    g.edge_count()
}

/// Relies on petgraph's `Graph::node_weight`: the weight stored at an
/// existing node index.
#[verifier::external_body]
pub(crate) fn graph_node_label<'a>(g: &'a TraceGraph, i: usize) -> (s: &'a String)
    requires
        (i as int) < graph_nodes(*g).len(),
    ensures
        s@ == graph_nodes(*g)[i as int],
{
    g.node_weight(petgraph::graph::NodeIndex::new(i)).unwrap()
}

/// Relies on petgraph's `Graph::edge_endpoints`: the (source, target)
/// node indices of an existing edge index.
#[verifier::external_body]
pub(crate) fn graph_edge_endpoints(g: &TraceGraph, e: usize) -> (p: (usize, usize))
    requires
        (e as int) < graph_edges(*g).len(),
    ensures
        p.0 as int == graph_edges(*g)[e as int].0,
        p.1 as int == graph_edges(*g)[e as int].1,
{
    let (a, b) = g.edge_endpoints(petgraph::graph::EdgeIndex::new(e)).unwrap();
    (a.index(), b.index())
}

} // verus!
