//! Fixed-point numerics and their four-decimal display form.
//!
//! Every numeric payload in the library is a signed count of
//! ten-thousandths ([`SCALE`] units per whole).  Addition is the plain
//! integer sum; multiplication and division rescale and truncate toward
//! zero.  The display form is exactly the sign, the integer part, a dot
//! and four zero-padded fractional digits, matching a four-decimal
//! rendering of the represented number.

use crate::text::push_char;
use vstd::prelude::*;

verus! {

/// Number of fixed-point units per whole: payloads count ten-thousandths.
pub const SCALE: i64 = 10000;

/// The decimal digit character for `d` (meaningful for `0 <= d <= 9`).
pub open spec fn digit_char(d: int) -> char {
    if d == 0 {
        '0'
    } else if d == 1 {
        '1'
    } else if d == 2 {
        '2'
    } else if d == 3 {
        '3'
    } else if d == 4 {
        '4'
    } else if d == 5 {
        '5'
    } else if d == 6 {
        '6'
    } else if d == 7 {
        '7'
    } else if d == 8 {
        '8'
    } else {
        '9'
    }
}

/// Decimal digits of `n`, most significant first, with no leading zeros
/// (a single `'0'` for zero).
pub open spec fn spec_digits(n: nat) -> Seq<char>
    decreases n,
{
    if n < 10 {
        seq![digit_char(n as int)]
    } else {
        spec_digits(n / 10).push(digit_char((n % 10) as int))
    }
}

/// The four fractional digits of a magnitude below [`SCALE`], zero padded.
pub open spec fn frac_digits(m: nat) -> Seq<char> {
    seq![
        digit_char((m / 1000) as int % 10),
        digit_char((m / 100) as int % 10),
        digit_char((m / 10) as int % 10),
        digit_char(m as int % 10),
    ]
}

/// Absolute value, as a natural number.
pub open spec fn spec_abs(v: int) -> nat {
    if v >= 0 {
        v as nat
    } else {
        (-v) as nat
    }
}

/// The display form of the fixed-point number `v`: optional minus sign,
/// integer part, `'.'`, and four zero-padded fractional digits.
pub open spec fn fixed_chars(v: int) -> Seq<char> {
    (if v < 0 {
        seq!['-']
    } else {
        Seq::<char>::empty()
    }) + spec_digits(spec_abs(v) / (SCALE as nat)) + seq!['.'] + frac_digits(
        spec_abs(v) % (SCALE as nat),
    )
}

/// The fixed-point product of `a` and `b`: the mathematical product of the
/// represented numbers, truncated toward zero at the fourth decimal.
pub open spec fn fixed_mul(a: int, b: int) -> int {
    if a * b >= 0 {
        (a * b) / (SCALE as int)
    } else {
        -((-(a * b)) / (SCALE as int))
    }
}

/// Closure, exactness: whenever the true product of two payloads lands on
/// a representable fixed-point value — their unit product is divisible by
/// [`SCALE`] — the fixed-point product represents it exactly, with no
/// truncation.
pub proof fn lemma_mul_exact(a: int, b: int)
    requires
        (a * b) % (SCALE as int) == 0,
    ensures
        fixed_mul(a, b) * (SCALE as int) == a * b,
{
    let p = a * b;
    let s = SCALE as int;
    vstd::arithmetic::div_mod::lemma_fundamental_div_mod(p, s);
    if p < 0 {
        vstd::arithmetic::div_mod::lemma_div_multiples_vanish(-(p / s), s);
    }
}

/// The fixed-point quotient of `a` by `b`: the mathematical quotient of the
/// represented numbers, truncated toward zero at the fourth decimal.
pub open spec fn fixed_div(a: int, b: int) -> int {
    if (a >= 0) == (b >= 0) {
        (spec_abs(a) * (SCALE as nat)) as int / spec_abs(b) as int
    } else {
        -((spec_abs(a) * (SCALE as nat)) as int / spec_abs(b) as int)
    }
}

/// The decimal digit character for `d`, executably.
fn digit(d: u64) -> (c: char)
    requires
        d < 10,
    ensures
        c == digit_char(d as int),
{
    if d == 0 {
        '0'
    } else if d == 1 {
        '1'
    } else if d == 2 {
        '2'
    } else if d == 3 {
        '3'
    } else if d == 4 {
        '4'
    } else if d == 5 {
        '5'
    } else if d == 6 {
        '6'
    } else if d == 7 {
        '7'
    } else if d == 8 {
        '8'
    } else {
        '9'
    }
}

/// Appends the decimal digits of `n` to `out`.
pub(crate) fn push_digits(out: &mut String, n: u64)
    ensures
        final(out)@ == old(out)@ + spec_digits(n as nat),
    decreases n,
{
    if n < 10 {
        push_char(out, digit(n));
        proof {
            assert(out@ =~= old(out)@ + spec_digits(n as nat));
        }
    } else {
        push_digits(out, n / 10);
        push_char(out, digit(n % 10));
        proof {
            assert(out@ =~= old(out)@ + spec_digits(n as nat));
        }
    }
}

/// The magnitude of `v`, as an unsigned number.
fn abs_u64(v: i64) -> (m: u64)
    ensures
        m as nat == spec_abs(v as int),
{
    if v >= 0 {
        v as u64
    } else if v == i64::MIN {
        9223372036854775808u64
    } else {
        (-v) as u64
    }
}

/// Signs and magnitudes: the magnitude of a product is the product of the
/// magnitudes, and a product is negative exactly when the signs differ
/// (and neither factor is zero).
proof fn lemma_abs_mul(a: int, b: int)
    ensures
        spec_abs(a * b) == spec_abs(a) * spec_abs(b),
        a * b < 0 ==> ((a < 0) != (b < 0)),
        ((a < 0) != (b < 0)) && a * b >= 0 ==> a * b == 0,
{
    if a >= 0 && b >= 0 {
        assert(a * b >= 0) by (nonlinear_arith)
            requires
                a >= 0,
                b >= 0,
        ;
    } else if a < 0 && b < 0 {
        assert(a * b >= 0 && (-a) * (-b) == a * b) by (nonlinear_arith)
            requires
                a < 0,
                b < 0,
        ;
    } else if a < 0 && b >= 0 {
        assert(a * b <= 0 && (-a) * b == -(a * b)) by (nonlinear_arith)
            requires
                a < 0,
                b >= 0,
        ;
    } else {
        assert(a * b <= 0 && a * (-b) == -(a * b)) by (nonlinear_arith)
            requires
                a >= 0,
                b < 0,
        ;
    }
}

/// The fixed-point product, executably: multiply the magnitudes in wide
/// arithmetic, truncate at the fourth decimal, then restore the sign.
pub(crate) fn mul_units(a: i64, b: i64) -> (r: i64)
    requires
        i64::MIN <= fixed_mul(a as int, b as int) <= i64::MAX,
    ensures
        r as int == fixed_mul(a as int, b as int),
{
    let am: u128 = abs_u64(a) as u128;
    let bm: u128 = abs_u64(b) as u128;
    proof {
        assert(am * bm <= 340282366920938463463374607431768211455) by (nonlinear_arith)
            requires
                am <= 9223372036854775808,
                bm <= 9223372036854775808,
        ;
        lemma_abs_mul(a as int, b as int);
    }
    let p: u128 = am * bm;
    let q: u128 = p / 10000;
    let neg = (a < 0) != (b < 0);
    if neg {
        if q >= 9223372036854775808u128 {
            i64::MIN
        } else {
            -(q as i64)
        }
    } else {
        q as i64
    }
}

/// The fixed-point quotient, executably: rescale the dividend's magnitude,
/// divide by the divisor's magnitude, then restore the sign.
pub(crate) fn div_units(a: i64, b: i64) -> (r: i64)
    requires
        b != 0,
        i64::MIN <= fixed_div(a as int, b as int) <= i64::MAX,
    ensures
        r as int == fixed_div(a as int, b as int),
{
    let am: u128 = abs_u64(a) as u128;
    let bm: u128 = abs_u64(b) as u128;
    let p: u128 = am * 10000;
    let q: u128 = p / bm;
    let neg = (a < 0) != (b < 0);
    if neg {
        if q >= 9223372036854775808u128 {
            i64::MIN
        } else {
            -(q as i64)
        }
    } else {
        q as i64
    }
}

/// Appends the four-decimal display form of the fixed-point number `v`
/// to `out`.
pub(crate) fn push_fixed(out: &mut String, v: i64)
    ensures
        final(out)@ == old(out)@ + fixed_chars(v as int),
{
    let mag = abs_u64(v);
    if v < 0 {
        push_char(out, '-');
    }
    push_digits(out, mag / 10000);
    push_char(out, '.');
    let f = mag % 10000;
    push_char(out, digit(f / 1000));
    push_char(out, digit((f / 100) % 10));
    push_char(out, digit((f / 10) % 10));
    push_char(out, digit(f % 10));
    proof {
        assert((f / 1000) as int == (f as nat / 1000) as int % 10);
        assert(out@ =~= old(out)@ + fixed_chars(v as int));
    }
}

} // verus!
