//! A small library for recording and visualizing arithmetic expression
//! graphs.
//!
//! A [`Value`] is a scalar carrying its own derivation history: which
//! operator produced it and from which two operands.  Tracing a value
//! flattens that history into an explicit node/edge graph (petgraph's
//! adjacency-list graph), and rendering turns the graph into a textual
//! diagram in which data nodes appear as record-shaped boxes and operator
//! nodes as bare symbols.
//!
//! Numeric payloads are fixed-point: a signed count of ten-thousandths,
//! so that the four-decimal display format is exact.

mod demo;
mod fixed;
mod graph;
mod render;
mod text;
mod trace;
mod value;

pub use demo::lol;
pub use fixed::{
    digit_char, fixed_chars, fixed_div, fixed_mul, frac_digits, lemma_mul_exact, spec_abs,
    spec_digits, SCALE,
};
pub use graph::{graph_edges, graph_nodes, TraceGraph, GRAPH_CAPACITY};
pub use render::{
    edge_line, edge_lines_from, escape, escape_char, escape_from, is_op_label,
    lemma_render_deterministic, node_line, node_lines_from, render, render_chars,
};
pub use trace::{
    build_edges, build_nodes, leaf_count, lemma_build_ignores_root_fields,
    lemma_gradient_passthrough, lemma_trace_size, op_count, trace_edges, trace_nodes,
};
pub use value::{lemma_leaf_invariant, op_chars, reaches, record_chars, MalformedNode, Op, Value, ValueRef};
