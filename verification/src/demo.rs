//! A finite-difference slope estimate over the worked example expression.
//!
//! `L = ((a * b) + c) * f` is built twice from leaf values, once with `a`
//! nudged up by one fixed-point unit, and the difference quotient of the
//! two results estimates the slope of `L` in `a`.  In fixed point the
//! computation is exact, so the estimate comes out at exactly six wholes.

use crate::fixed::{div_units, fixed_div, fixed_mul, spec_abs, SCALE};
use crate::value::Value;
use vstd::prelude::*;

verus! {

/// The slope of the worked example `L = ((a * b) + c) * f` in `a`, by a
/// finite difference with a one-unit step: exactly `6.0` (in fixed-point
/// units, `60000`), since `b * f = 6`.
pub fn lol() -> (r: i64)
    ensures
        r == 60000,
{
    proof {
        assert(fixed_mul(20000, -30000) == -60000);
        assert(fixed_mul(40000, -20000) == -80000);
        assert(fixed_mul(20001, -30000) == -60003);
        assert(fixed_mul(39997, -20000) == -79994);
        assert(spec_abs(6) == 6nat && spec_abs(1) == 1nat);
        assert(6nat * (SCALE as nat) == 60000nat);
        assert(fixed_div(6, 1) == 60000);
    }
    let h: i64 = 1;
    let a = Value::new(20000, "a");
    let b = Value::new(-30000, "b");
    let c = Value::new(100000, "c");
    let mut e = a.mul(b);
    e.label = Some("e".to_owned());
    let mut d = e.add(c);
    d.label = Some("d".to_owned());
    let f = Value::new(-20000, "f");
    let mut l = d.mul(f);
    l.label = Some("L".to_owned());
    let l1 = l.data;

    let a = Value::new(20000 + h, "a");
    let b = Value::new(-30000, "b");
    let c = Value::new(100000, "c");
    let mut e = a.mul(b);
    e.label = Some("e".to_owned());
    let mut d = e.add(c);
    d.label = Some("d".to_owned());
    let f = Value::new(-20000, "f");
    let mut l = d.mul(f);
    l.label = Some("L".to_owned());
    let l2 = l.data;

    div_units(l2 - l1, h)
}

} // verus!
