//! The renderer: a pure transform from a trace graph to the textual
//! diagram format.
//!
//! Each node becomes one line carrying its index and its escaped label;
//! labels that are a bare operator symbol get no extra styling, all other
//! labels get `shape=record`.  Each edge becomes one unlabeled line.  Node
//! lines precede edge lines, both in insertion order, inside a fixed
//! `digraph` envelope, and the whole output is a committed byte-exact
//! contract.

use crate::fixed::{push_digits, spec_digits};
use crate::graph::{
    graph_edge_count, graph_edge_endpoints, graph_edges, graph_node_count, graph_node_label,
    graph_nodes, TraceGraph,
};
use crate::text::{chars_of, push_char, push_str};
use crate::trace::{trace_edges, trace_nodes};
use crate::value::Value;
use vstd::prelude::*;

verus! {

/// Whether a label is a bare operator symbol; such nodes are rendered
/// without the record styling.  This is how the renderer tells node kinds
/// apart without re-inspecting the original value.
pub open spec fn is_op_label(l: Seq<char>) -> bool {
    l == "+"@ || l == "*"@
}

/// The escape of one label character inside a quoted diagram string:
/// quote and backslash gain a backslash, a newline becomes a left-justified
/// break, everything else passes through.
pub open spec fn escape_char(c: char) -> Seq<char> {
    if c == '"' {
        seq!['\\', '"']
    } else if c == '\\' {
        seq!['\\', '\\']
    } else if c == '\n' {
        seq!['\\', 'l']
    } else {
        seq![c]
    }
}

/// The escape of a label from position `i` on.
pub open spec fn escape_from(l: Seq<char>, i: int) -> Seq<char>
    decreases l.len() - i,
{
    if i < 0 || i >= l.len() {
        Seq::<char>::empty()
    } else {
        escape_char(l[i]) + escape_from(l, i + 1)
    }
}

/// The escape of a whole label.
pub open spec fn escape(l: Seq<char>) -> Seq<char> {
    escape_from(l, 0)
}

/// The line declaring node `i` with label `l`.
pub open spec fn node_line(i: int, l: Seq<char>) -> Seq<char> {
    "    "@ + spec_digits(i as nat) + " [ label = \""@ + escape(l) + "\" "@ + (if is_op_label(l) {
        Seq::<char>::empty()
    } else {
        "shape=record"@
    }) + "]\n"@
}

/// The node lines for labels `i` and following, in insertion order.
pub open spec fn node_lines_from(nodes: Seq<Seq<char>>, i: int) -> Seq<char>
    decreases nodes.len() - i,
{
    if i < 0 || i >= nodes.len() {
        Seq::<char>::empty()
    } else {
        node_line(i, nodes[i]) + node_lines_from(nodes, i + 1)
    }
}

/// The line declaring one unlabeled directed edge.
pub open spec fn edge_line(e: (int, int)) -> Seq<char> {
    "    "@ + spec_digits(e.0 as nat) + " -> "@ + spec_digits(e.1 as nat) + " [ ]\n"@
}

/// The edge lines for edges `i` and following, in insertion order.
pub open spec fn edge_lines_from(edges: Seq<(int, int)>, i: int) -> Seq<char>
    decreases edges.len() - i,
{
    if i < 0 || i >= edges.len() {
        Seq::<char>::empty()
    } else {
        edge_line(edges[i]) + edge_lines_from(edges, i + 1)
    }
}

/// The complete rendered diagram: the `digraph` envelope around all node
/// lines followed by all edge lines.
pub open spec fn render_chars(nodes: Seq<Seq<char>>, edges: Seq<(int, int)>) -> Seq<char> {
    "digraph {\n"@ + node_lines_from(nodes, 0) + edge_lines_from(edges, 0) + "}\n"@
}

/// Determinism: the rendered text is a function of the traced value
/// alone, so any two renderings of traces of the same value — the same
/// expression traced twice — are byte-identical.
pub proof fn lemma_render_deterministic(v: Value, with_grad: bool, s1: Seq<char>, s2: Seq<char>)
    requires
        s1 == render_chars(trace_nodes(v, with_grad), trace_edges(v)),
        s2 == render_chars(trace_nodes(v, with_grad), trace_edges(v)),
    ensures
        s1 == s2,
{
}

/// Whether a node label is a bare operator symbol, executably.
fn is_op_symbol(w: &String) -> (r: bool)
    ensures
        r == is_op_label(w@),
{
    *w == "+".to_owned() || *w == "*".to_owned()
}

/// Appends the escaped form of a label.
fn push_escaped(out: &mut String, l: &String)
    ensures
        final(out)@ == old(out)@ + escape(l@),
{
    let cs = chars_of(l.as_str());
    let n = cs.len();
    let mut i: usize = 0;
    while i < n
        invariant
            n == cs.len(),
            cs@ == l@,
            i <= n,
            out@ + escape_from(l@, i as int) == old(out)@ + escape(l@),
        decreases n - i,
    {
        let ghost before = out@;
        let c = cs[i];
        if c == '"' {
            push_char(out, '\\');
            push_char(out, '"');
        } else if c == '\\' {
            push_char(out, '\\');
            push_char(out, '\\');
        } else if c == '\n' {
            push_char(out, '\\');
            push_char(out, 'l');
        } else {
            push_char(out, c);
        }
        proof {
            assert(out@ =~= before + escape_char(l@[i as int]));
            assert(out@ + escape_from(l@, i as int + 1) =~= before + escape_from(l@, i as int));
        }
        i = i + 1;
    }
}

/// Renders a trace graph into the textual diagram format, byte for byte.
pub fn render(g: &TraceGraph) -> (s: String)
    ensures
        s@ == render_chars(graph_nodes(*g), graph_edges(*g)),
{
    let ghost nodes = graph_nodes(*g);
    let ghost edges = graph_edges(*g);
    let mut out = String::new();
    push_str(&mut out, "digraph {\n");
    let n = graph_node_count(g);
    let mut i: usize = 0;
    while i < n
        invariant
            n as int == nodes.len(),
            nodes == graph_nodes(*g),
            edges == graph_edges(*g),
            i <= n,
            out@ + node_lines_from(nodes, i as int) == "digraph {\n"@ + node_lines_from(nodes, 0),
        decreases n - i,
    {
        let ghost before = out@;
        push_str(&mut out, "    ");
        push_digits(&mut out, i as u64);
        push_str(&mut out, " [ label = \"");
        let w = graph_node_label(g, i);
        push_escaped(&mut out, w);
        push_str(&mut out, "\" ");
        if !is_op_symbol(w) {
            push_str(&mut out, "shape=record");
        }
        push_str(&mut out, "]\n");
        proof {
            assert(out@ =~= before + node_line(i as int, nodes[i as int]));
            assert(out@ + node_lines_from(nodes, i as int + 1) =~= before + node_lines_from(
                nodes,
                i as int,
            ));
        }
        i = i + 1;
    }
    let m = graph_edge_count(g);
    let mut j: usize = 0;
    while j < m
        invariant
            m as int == edges.len(),
            nodes == graph_nodes(*g),
            edges == graph_edges(*g),
            j <= m,
            out@ + edge_lines_from(edges, j as int) == "digraph {\n"@ + node_lines_from(nodes, 0)
                + edge_lines_from(edges, 0),
        decreases m - j,
    {
        let ghost before = out@;
        let p = graph_edge_endpoints(g, j);
        push_str(&mut out, "    ");
        push_digits(&mut out, p.0 as u64);
        push_str(&mut out, " -> ");
        push_digits(&mut out, p.1 as u64);
        push_str(&mut out, " [ ]\n");
        proof {
            assert(out@ =~= before + edge_line(edges[j as int]));
            assert(out@ + edge_lines_from(edges, j as int + 1) =~= before + edge_lines_from(
                edges,
                j as int,
            ));
        }
        j = j + 1;
    }
    push_str(&mut out, "}\n");
    proof {
        assert(out@ =~= render_chars(nodes, edges));
    }
    out
}

} // verus!
