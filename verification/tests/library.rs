//! Tests for the expression-graph library: the arithmetic closure, the
//! recorded history shape, the tracer's node/edge layout and the
//! byte-exact rendered output.

use float_cmp::{ApproxEq, F64Margin};
use petgraph::graph::NodeIndex;
use valuegraph::{lol, render, MalformedNode, Op, Value, ValueRef};

/// The worked example: leaves a=2.0, b=-3.0, c=10.0, f=-2.0 combined as
/// L = ((a * b) + c) * f, with the intermediates labeled.
fn example() -> Value {
    let a = Value::new(20000, "a");
    let b = Value::new(-30000, "b");
    let c = Value::new(100000, "c");
    let mut e = a.mul(b);
    e.label = Some(String::from("e"));
    let mut d = e.add(c);
    d.label = Some(String::from("d"));
    let f = Value::new(-20000, "f");
    let mut l = d.mul(f);
    l.label = Some(String::from("L"));
    l
}

#[test]
fn add() {
    let a = Value::new(20000, "a");
    let b = Value::new(-30000, "b");
    let c = a.add(b);
    assert_eq!(c.data, -10000);
}

#[test]
fn mul() {
    let a = Value::new(20000, "a");
    let b = Value::new(-30000, "b");
    let c = Value::new(100000, "c");
    let d = a.mul(b).add(c);
    assert_eq!(d.data, 40000);
}

#[test]
fn test_graph() {
    let l = example();
    let graph = l.trace();
    let dot_graph = render(&graph);
    assert_eq!(dot_graph, String::from("digraph {\n    0 [ label = \"{ L| data: -8.0000 | grad 0.0000 }\" shape=record]\n    1 [ label = \"*\" ]\n    2 [ label = \"{ d| data: 4.0000 | grad 0.0000 }\" shape=record]\n    3 [ label = \"+\" ]\n    4 [ label = \"{ e| data: -6.0000 | grad 0.0000 }\" shape=record]\n    5 [ label = \"*\" ]\n    6 [ label = \"{ a| data: 2.0000 | grad 0.0000 }\" shape=record]\n    7 [ label = \"{ b| data: -3.0000 | grad 0.0000 }\" shape=record]\n    8 [ label = \"{ c| data: 10.0000 | grad 0.0000 }\" shape=record]\n    9 [ label = \"{ f| data: -2.0000 | grad 0.0000 }\" shape=record]\n    1 -> 0 [ ]\n    2 -> 1 [ ]\n    3 -> 2 [ ]\n    4 -> 3 [ ]\n    5 -> 4 [ ]\n    6 -> 5 [ ]\n    7 -> 5 [ ]\n    8 -> 3 [ ]\n    9 -> 1 [ ]\n}\n"));
}

#[test]
fn test_derivative() {
    let slope = (lol() as f64) / 10000.0;
    assert!(6.0f64.approx_eq(slope, F64Margin { epsilon: 0.00001, ulps: 0 }));
}

#[test]
fn closure_exact_values() {
    // 2.5 + (-1.25) = 1.25, exactly.
    let x = Value::new(25000, "x");
    let y = Value::new(-12500, "y");
    assert_eq!(x.add(y).data, 12500);
    // 1.5 * 2.0 = 3.0, exactly.
    let x = Value::new(15000, "x");
    let y = Value::new(20000, "y");
    assert_eq!(x.mul(y).data, 30000);
    // 0.0001 * 0.0001 truncates toward zero below the fourth decimal.
    let x = Value::new(1, "x");
    let y = Value::new(1, "y");
    assert_eq!(x.mul(y).data, 0);
    // -0.0003 * 0.5 = -0.00015 truncates toward zero, not downward.
    let x = Value::new(-3, "x");
    let y = Value::new(5000, "y");
    assert_eq!(x.mul(y).data, -1);
}

#[test]
fn history_shape() {
    let a = Value::new(10000, "a");
    assert!(a.op.is_none() && a.prev.0.is_none() && a.prev.1.is_none());
    let b = Value::new(20000, "b");
    let s = a.add(b);
    assert_eq!(s.op, Some(Op::Add));
    assert!(s.prev.0.is_some() && s.prev.1.is_some());
    assert!(s.label.is_none() && s.grad == 0);
    let p = Value::new(10000, "x").mul(Value::new(20000, "y"));
    assert_eq!(p.op, Some(Op::Mul));
    assert!(p.prev.0.is_some() && p.prev.1.is_some());
}

/// Checks the leaf invariant at every node reachable from `v`.
fn check_leaf_invariant(v: &Value) {
    assert_eq!(v.op.is_some(), v.prev.0.is_some());
    assert_eq!(v.op.is_some(), v.prev.1.is_some());
    if let Some(l) = &v.prev.0 {
        check_leaf_invariant(l.borrow());
    }
    if let Some(r) = &v.prev.1 {
        check_leaf_invariant(r.borrow());
    }
}

#[test]
fn leaf_invariant() {
    check_leaf_invariant(&example());
    check_leaf_invariant(&Value::new(0, "z"));
}

#[test]
fn trace_node_count() {
    // Four leaves, three operator applications: 3 * 4 - 2 = 10 nodes and
    // 3 * 4 - 3 = 9 edges.
    let graph = example().trace();
    assert_eq!(graph.node_count(), 10);
    assert_eq!(graph.edge_count(), 9);
    // A lone leaf traces to a single node and no edges.
    let leaf = Value::new(10000, "w").trace();
    assert_eq!(leaf.node_count(), 1);
    assert_eq!(leaf.edge_count(), 0);
}

#[test]
fn determinism() {
    let first = render(&example().trace());
    let second = render(&example().trace());
    assert_eq!(first, second);
}

#[test]
fn example_exact_without_grad() {
    let l = example();
    let out = render(&l.trace_with(false));
    assert_eq!(out, String::from("digraph {\n    0 [ label = \"{ L| data: -8.0000 }\" shape=record]\n    1 [ label = \"*\" ]\n    2 [ label = \"{ d| data: 4.0000 }\" shape=record]\n    3 [ label = \"+\" ]\n    4 [ label = \"{ e| data: -6.0000 }\" shape=record]\n    5 [ label = \"*\" ]\n    6 [ label = \"{ a| data: 2.0000 }\" shape=record]\n    7 [ label = \"{ b| data: -3.0000 }\" shape=record]\n    8 [ label = \"{ c| data: 10.0000 }\" shape=record]\n    9 [ label = \"{ f| data: -2.0000 }\" shape=record]\n    1 -> 0 [ ]\n    2 -> 1 [ ]\n    3 -> 2 [ ]\n    4 -> 3 [ ]\n    5 -> 4 [ ]\n    6 -> 5 [ ]\n    7 -> 5 [ ]\n    8 -> 3 [ ]\n    9 -> 1 [ ]\n}\n"));
}

#[test]
fn gradient_passthrough() {
    let mut l = example();
    // Poke a gradient into the left operand through the owned link and
    // into the root directly; only those two display strings change.
    l.prev.0.as_mut().unwrap().borrow_mut().grad = 40000;
    l.grad = 10000;
    let graph = l.trace();
    assert_eq!(
        graph.node_weight(NodeIndex::new(0)).unwrap().as_str(),
        "{ L| data: -8.0000 | grad 1.0000 }"
    );
    assert_eq!(
        graph.node_weight(NodeIndex::new(2)).unwrap().as_str(),
        "{ d| data: 4.0000 | grad 4.0000 }"
    );
    assert_eq!(
        graph.node_weight(NodeIndex::new(4)).unwrap().as_str(),
        "{ e| data: -6.0000 | grad 0.0000 }"
    );
}

#[test]
fn display_forms() {
    let z = Value::new(0, "z");
    assert_eq!(z.display(true).unwrap(), "{ z| data: 0.0000 | grad 0.0000 }");
    assert_eq!(z.display(false).unwrap(), "{ z| data: 0.0000 }");
    let tiny = Value::new(-1, "t");
    assert_eq!(tiny.display(false).unwrap(), "{ t| data: -0.0001 }");
    let big = Value::new(123456789, "big");
    assert_eq!(big.display(false).unwrap(), "{ big| data: 12345.6789 }");
    let sum = Value::new(10000, "x").add(Value::new(10000, "y"));
    assert_eq!(sum.display(true).unwrap(), "+");
    let prod = Value::new(10000, "x").mul(Value::new(10000, "y"));
    assert_eq!(prod.display(true).unwrap(), "*");
    assert_eq!(Op::Add.symbol(), "+");
    assert_eq!(Op::Mul.symbol(), "*");
}

#[test]
fn display_malformed() {
    let bad = Value { data: 0, grad: 0, label: None, op: None, prev: (None, None) };
    assert_eq!(bad.display(true), Err(MalformedNode));
    assert_eq!(bad.display(false), Err(MalformedNode));
}

#[test]
fn render_escapes_labels() {
    let leaf = Value::new(10000, "q\"uo\\te\nx");
    let out = render(&leaf.trace_with(false));
    assert_eq!(
        out,
        String::from(
            "digraph {\n    0 [ label = \"{ q\\\"uo\\\\te\\lx| data: 1.0000 }\" shape=record]\n}\n"
        )
    );
}

#[test]
fn relabeled_operator_node_renders_as_record() {
    let mut s = Value::new(10000, "x").add(Value::new(20000, "y"));
    s.label = Some(String::from("s"));
    let graph = s.trace_with(false);
    assert_eq!(
        graph.node_weight(NodeIndex::new(0)).unwrap().as_str(),
        "{ s| data: 3.0000 }"
    );
    let out = render(&graph);
    assert!(out.contains("0 [ label = \"{ s| data: 3.0000 }\" shape=record]"));
}

#[test]
fn value_ref_owns_a_copy() {
    let v = Value::new(70000, "v");
    let mut vr = ValueRef::new(v);
    assert_eq!(vr.borrow().data, 70000);
    vr.borrow_mut().grad = 5;
    assert_eq!(vr.borrow().grad, 5);
}

#[test]
fn slope_estimate_units() {
    assert_eq!(lol(), 60000);
}
