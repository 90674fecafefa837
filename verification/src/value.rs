//! The scalar expression value and its operand history.
//!
//! A [`Value`] holds a fixed-point payload, an auxiliary gradient field, an
//! optional label, an optional operator tag and owned links to the two
//! operands that produced it.  The two arithmetic operators, [`Value::add`]
//! and [`Value::mul`], build a fresh node that owns both inputs and records
//! the operator; leaves come from [`Value::new`].

use crate::fixed::{fixed_chars, fixed_mul, mul_units, push_fixed};
use crate::text::push_str;
use vstd::prelude::*;

verus! {

/// The operator that produced a node: addition or multiplication.
#[derive(Clone, Copy, PartialEq, Eq, Structural, Debug)]
pub enum Op {
    Add,
    Mul,
}

/// The display symbol of an operator.
pub open spec fn op_chars(o: Op) -> Seq<char> {
    match o {
        Op::Add => "+"@,
        Op::Mul => "*"@,
    }
}

impl Op {
    /// The display symbol of the operator, executably.
    pub fn symbol(&self) -> (s: &'static str)
        ensures
            s@ == op_chars(*self),
    {
        match self {
            Op::Add => "+",
            Op::Mul => "*",
        }
    }
}

/// The failure reported when a display string is requested for a node that
/// has neither a label nor an operator; no supported construction produces
/// such a node.
#[derive(Clone, Copy, PartialEq, Eq, Structural, Debug)]
pub struct MalformedNode;

/// An owned link to an operand node.
#[derive(Debug)]
pub struct ValueRef {
    pub node: Box<Value>,
}

/// One point in an arithmetic expression: a fixed-point payload, an
/// auxiliary gradient (display-only, never computed here), an optional
/// label, and — for operator results — the operator tag and the two owned
/// operands.
#[derive(Debug)]
pub struct Value {
    /// The computed numeric result at this node, in fixed-point units.
    pub data: i64,
    /// Auxiliary display annotation, in fixed-point units; zero unless a
    /// caller sets it.
    pub grad: i64,
    /// Human-assigned name; present on leaves, absent on freshly produced
    /// operator results until a caller assigns one.
    pub label: Option<String>,
    /// The operator that produced this node, absent for leaves.
    pub op: Option<Op>,
    /// The two operands this node was computed from; both present exactly
    /// when `op` is present.
    pub prev: (Option<ValueRef>, Option<ValueRef>),
}

/// The record display form of a labeled node.
pub open spec fn record_chars(label: Seq<char>, data: int, grad: int, with_grad: bool) -> Seq<
    char,
> {
    "{ "@ + label + "| data: "@ + fixed_chars(data) + (if with_grad {
        " | grad "@ + fixed_chars(grad)
    } else {
        Seq::<char>::empty()
    }) + " }"@
}

impl ValueRef {
    /// Takes ownership of a node.
    pub fn new(var: Value) -> (r: ValueRef)
        ensures
            *r.node == var,
    {
        ValueRef { node: Box::new(var) }
    }

    /// Shared access to the owned node.
    pub fn borrow(&self) -> (r: &Value)
        ensures
            *r == *self.node,
    {
        &self.node
    }

    /// Exclusive access to the owned node, for relabeling or setting the
    /// gradient in place.
    pub fn borrow_mut(&mut self) -> (r: &mut Value)
        ensures
            *r == *old(self).node,
            *final(self).node == *final(r),
    {
        &mut self.node
    }
}

impl Value {
    /// The left operand (meaningful when `prev.0` is present).
    pub open spec fn left(self) -> Value {
        *self.prev.0->Some_0.node
    }

    /// The right operand (meaningful when `prev.1` is present).
    pub open spec fn right(self) -> Value {
        *self.prev.1->Some_0.node
    }

    /// Well-formedness of the whole operand tree: at every node the
    /// operator tag and the two operand links are present or absent
    /// together, and every leaf carries a label.
    pub open spec fn wf(self) -> bool
        decreases self,
    {
        match (self.op, self.prev.0, self.prev.1) {
            (Some(_), Some(l), Some(r)) => (*l.node).wf() && (*r.node).wf(),
            (None, None, None) => self.label is Some,
            _ => false,
        }
    }

    /// Whether a display string exists for this node.
    pub open spec fn displayable(self) -> bool {
        self.label is Some || self.op is Some
    }

    /// The display form of this single node: the record form when a label
    /// is present, the bare operator symbol when only an operator is.
    /// (Empty for the malformed case, which [`Value::display`] rejects.)
    pub open spec fn display_chars(self, with_grad: bool) -> Seq<char> {
        match self.label {
            Some(l) => record_chars(l@, self.data as int, self.grad as int, with_grad),
            None => match self.op {
                Some(o) => op_chars(o),
                None => Seq::<char>::empty(),
            },
        }
    }

    /// Leaf constructor: payload `data`, name `label`, gradient zero, no
    /// operator history.
    pub fn new(data: i64, label: &str) -> (r: Value)
        ensures
            r.data == data,
            r.grad == 0,
            r.label is Some && r.label->Some_0@ == label@,
            r.op is None,
            r.prev.0 is None,
            r.prev.1 is None,
            r.wf(),
    {
        Value {
            data,
            grad: 0,
            label: Some(label.to_owned()),
            op: None,
            prev: (None, None),
        }
    }

    /// Addition: the result holds the exact sum of the payloads, records
    /// the `+` operator and owns both operands; it is unlabeled and has
    /// gradient zero.
    pub fn add(self, other: Value) -> (r: Value)
        requires
            i64::MIN <= self.data + other.data <= i64::MAX,
        ensures
            r.data == self.data + other.data,
            r.grad == 0,
            r.label is None,
            r.op == Some(Op::Add),
            r.prev.0 is Some && r.left() == self,
            r.prev.1 is Some && r.right() == other,
            self.wf() && other.wf() ==> r.wf(),
    {
        let data = self.data + other.data;
        Value {
            data,
            grad: 0,
            label: None,
            op: Some(Op::Add),
            prev: (Some(ValueRef::new(self)), Some(ValueRef::new(other))),
        }
    }

    /// Multiplication: the result holds the fixed-point product of the
    /// payloads, records the `*` operator and owns both operands; it is
    /// unlabeled and has gradient zero.
    pub fn mul(self, other: Value) -> (r: Value)
        requires
            i64::MIN <= fixed_mul(self.data as int, other.data as int) <= i64::MAX,
        ensures
            r.data == fixed_mul(self.data as int, other.data as int),
            r.grad == 0,
            r.label is None,
            r.op == Some(Op::Mul),
            r.prev.0 is Some && r.left() == self,
            r.prev.1 is Some && r.right() == other,
            self.wf() && other.wf() ==> r.wf(),
    {
        let data = mul_units(self.data, other.data);
        Value {
            data,
            grad: 0,
            label: None,
            op: Some(Op::Mul),
            prev: (Some(ValueRef::new(self)), Some(ValueRef::new(other))),
        }
    }

    /// The display string of this single node, or [`MalformedNode`] when
    /// the node has neither a label nor an operator.  With `with_grad`
    /// set, a labeled node's record includes its gradient segment.
    pub fn display(&self, with_grad: bool) -> (r: Result<String, MalformedNode>)
        ensures
            r is Ok <==> self.displayable(),
            r is Ok ==> r->Ok_0@ == self.display_chars(with_grad),
    {
        match &self.label {
            Some(l) => {
                let mut s = String::new();
                push_str(&mut s, "{ ");
                push_str(&mut s, l.as_str());
                push_str(&mut s, "| data: ");
                push_fixed(&mut s, self.data);
                if with_grad {
                    push_str(&mut s, " | grad ");
                    push_fixed(&mut s, self.grad);
                }
                push_str(&mut s, " }");
                proof {
                    assert(s@ =~= self.display_chars(with_grad));
                }
                Ok(s)
            },
            None => match self.op {
                Some(o) => Ok(o.symbol().to_owned()),
                None => Err(MalformedNode),
            },
        }
    }
}

/// Whether `u` is reachable from `v` through the owned `left`/`right`
/// operand links, `v` itself included.
pub open spec fn reaches(v: Value, u: Value) -> bool
    decreases v,
{
    u == v || match (v.prev.0, v.prev.1) {
        (Some(l), Some(r)) => reaches(*l.node, u) || reaches(*r.node, u),
        _ => false,
    }
}

/// Leaf invariant: at every node reachable from a well-formed root, the
/// operator tag and the two operand links are present or absent together
/// — never partially populated — and a leaf always carries a label.
pub proof fn lemma_leaf_invariant(v: Value, u: Value)
    requires
        v.wf(),
        reaches(v, u),
    ensures
        (u.op is Some) == (u.prev.0 is Some),
        (u.op is Some) == (u.prev.1 is Some),
        u.op is None ==> u.label is Some,
    decreases v,
{
    if u != v {
        match (v.op, v.prev.0, v.prev.1) {
            (Some(_), Some(l), Some(r)) => {
                if reaches(*l.node, u) {
                    lemma_leaf_invariant(*l.node, u);
                } else {
                    lemma_leaf_invariant(*r.node, u);
                }
            },
            _ => {},
        }
    }
}

} // verus!
