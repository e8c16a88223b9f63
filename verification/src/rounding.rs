//! Integer division that rounds toward negative or positive infinity.
use vstd::prelude::*;
use vstd::arithmetic::div_mod::lemma_fundamental_div_mod;
use vstd::arithmetic::div_mod::lemma_fundamental_div_mod_converse;

verus! {

/// The quotient of `a` by a nonzero `b`, rounded down.
pub open spec fn div_floor(a: int, b: int) -> int {
    if b > 0 {
        a / b
    } else {
        (-a) / (-b)
    }
}

/// The quotient of `a` by a nonzero `b`, rounded up.
pub open spec fn div_ceil(a: int, b: int) -> int {
    if b > 0 {
        (a + b - 1) / b
    } else {
        (-a - b - 1) / (-b)
    }
}

/// For a positive divisor, `a / b` is the greatest `q` with `q * b <= a`.
pub proof fn lemma_div_floor_bounds(a: int, b: int)
    requires
        b > 0,
    ensures
        (a / b) * b <= a < (a / b + 1) * b,
{
    lemma_fundamental_div_mod(a, b);
    let q = a / b;
    assert(b * q == q * b) by (nonlinear_arith);
    assert((q + 1) * b == q * b + b) by (nonlinear_arith);
}

/// For a positive divisor, `div_ceil(a, b)` is the least `q` with `a <= q * b`.
pub proof fn lemma_div_ceil_bounds(a: int, b: int)
    requires
        b > 0,
    ensures
        (div_ceil(a, b) - 1) * b < a <= div_ceil(a, b) * b,
{
    let q = div_ceil(a, b);
    lemma_div_floor_bounds(a + b - 1, b);
    assert((q + 1) * b == q * b + b) by (nonlinear_arith);
    assert((q - 1) * b == q * b - b) by (nonlinear_arith);
}

/// Any `q` with `q * b <= a < (q + 1) * b` is the floored quotient.
pub proof fn lemma_div_floor_unique(a: int, b: int, q: int)
    requires
        b > 0,
        q * b <= a < (q + 1) * b,
    ensures
        a / b == q,
{
    assert((q + 1) * b == q * b + b) by (nonlinear_arith);
    lemma_fundamental_div_mod_converse(a, b, q, a - q * b);
}

/// Any `q` with `(q - 1) * b < a <= q * b` is the quotient rounded up.
pub proof fn lemma_div_ceil_unique(a: int, b: int, q: int)
    requires
        b > 0,
        (q - 1) * b < a <= q * b,
    ensures
        div_ceil(a, b) == q,
{
    assert((q - 1) * b == q * b - b) by (nonlinear_arith);
    assert((q + 1) * b == q * b + b) by (nonlinear_arith);
    lemma_div_floor_unique(a + b - 1, b, q);
}

/// A multiple of the divisor divides without rounding.
pub proof fn lemma_div_ceil_multiple(q: int, b: int)
    requires
        b > 0,
    ensures
        div_ceil(q * b, b) == q,
        q == 0 ==> div_ceil(0, b) == 0,
{
    assert((q - 1) * b == q * b - b) by (nonlinear_arith);
    lemma_div_ceil_unique(q * b, b, q);
    if q == 0 {
        assert(q * b == 0) by (nonlinear_arith)
            requires
                q == 0,
        ;
    }
}

/// Of two fractions with positive denominators, the smaller has no larger a
/// rounded-up value. The fractions are compared cross-multiplied.
pub proof fn lemma_div_ceil_ordered(a1: int, b1: int, a2: int, b2: int)
    requires
        b1 > 0,
        b2 > 0,
        a1 * b2 <= a2 * b1,
    ensures
        div_ceil(a1, b1) <= div_ceil(a2, b2),
{
    let q1 = div_ceil(a1, b1);
    let q2 = div_ceil(a2, b2);
    lemma_div_ceil_bounds(a1, b1);
    lemma_div_ceil_bounds(a2, b2);
    if q1 > q2 {
        assert(((q1 - 1) * b1) * b2 < a1 * b2) by (nonlinear_arith)
            requires
                (q1 - 1) * b1 < a1,
                b2 > 0,
        ;
        assert(a2 * b1 <= (q2 * b2) * b1) by (nonlinear_arith)
            requires
                a2 <= q2 * b2,
                b1 > 0,
        ;
        assert((q2 * b2) * b1 <= ((q1 - 1) * b1) * b2) by (nonlinear_arith)
            requires
                q2 <= q1 - 1,
                b1 > 0,
                b2 > 0,
        ;
    }
}

/// A quotient rounded up is no further from zero than a nonnegative dividend
/// and has the sign of the divisor.
pub proof fn lemma_div_ceil_magnitude(a: int, b: int)
    requires
        a >= 0,
        b != 0,
    ensures
        b > 0 ==> 0 <= div_ceil(a, b) <= a,
        b < 0 ==> -a <= div_ceil(a, b) <= 0,
{
    if b > 0 {
        lemma_div_ceil_multiple(0, b);
        lemma_div_ceil_multiple(a, b);
        assert(a <= a * b) by (nonlinear_arith)
            requires
                a >= 0,
                b >= 1,
        ;
        lemma_div_ceil_monotone(0, a, b);
        lemma_div_ceil_monotone(a, a * b, b);
    } else {
        let d = -b;
        assert(div_ceil(a, b) == div_ceil(-a, d));
        lemma_div_ceil_multiple(0, d);
        lemma_div_ceil_multiple(-a, d);
        assert((-a) * d <= -a) by (nonlinear_arith)
            requires
                a >= 0,
                d >= 1,
        ;
        lemma_div_ceil_monotone(-a, 0, d);
        lemma_div_ceil_monotone((-a) * d, -a, d);
    }
}

/// A quotient rounded down lies within one of the dividend's magnitude.
pub proof fn lemma_div_floor_magnitude(a: int, b: int, bound: int)
    requires
        b != 0,
        -bound <= a <= bound,
    ensures
        -bound - 1 <= div_floor(a, b) <= bound,
{
    let n = if b > 0 { a } else { -a };
    let d = if b > 0 { b } else { -b };
    let q = n / d;
    lemma_div_floor_bounds(n, d);
    assert(q <= bound) by (nonlinear_arith)
        requires
            q * d <= n,
            n <= bound,
            d >= 1,
            bound >= 0,
    ;
    assert(q >= -bound - 1) by (nonlinear_arith)
        requires
            n < (q + 1) * d,
            -bound <= n,
            d >= 1,
            bound >= 0,
    ;
}

/// A larger dividend gives no smaller a rounded-up quotient.
pub proof fn lemma_div_ceil_monotone(a1: int, a2: int, b: int)
    requires
        a1 <= a2,
        b > 0,
    ensures
        div_ceil(a1, b) <= div_ceil(a2, b),
{
    let q1 = div_ceil(a1, b);
    let q2 = div_ceil(a2, b);
    lemma_div_ceil_bounds(a1, b);
    lemma_div_ceil_bounds(a2, b);
    assert(q1 <= q2) by (nonlinear_arith)
        requires
            (q1 - 1) * b < a1,
            a1 <= a2,
            a2 <= q2 * b,
            b > 0,
    ;
}

/// Floored division on machine integers.
pub(crate) fn floor_div(a: i128, b: i128) -> (q: i128)
    requires
        b != 0,
        a > i128::MIN,
        b > i128::MIN,
    ensures
        q == div_floor(a as int, b as int),
{
    let n: i128 = if b > 0 { a } else { -a };
    let d: i128 = if b > 0 { b } else { -b };
    if n >= 0 {
        n / d
    } else {
        let m: i128 = -n;
        let t: i128 = m / d;
        let r: i128 = m % d;
        proof {
            lemma_fundamental_div_mod(m as int, d as int);
            let ti = t as int;
            let di = d as int;
            assert(di * ti == ti * di) by (nonlinear_arith);
            assert((-ti) * di == -(ti * di)) by (nonlinear_arith);
            assert((-ti - 1) * di == -(ti * di) - di) by (nonlinear_arith);
            assert((-ti + 1) * di == -(ti * di) + di) by (nonlinear_arith);
            if r == 0 {
                lemma_div_floor_unique(n as int, di, -ti);
            } else {
                lemma_div_floor_unique(n as int, di, -ti - 1);
            }
        }
        if r == 0 {
            -t
        } else {
            -t - 1
        }
    }
}

/// Division rounded up, on machine integers.
pub(crate) fn ceil_div(a: i128, b: i128) -> (q: i128)
    requires
        b != 0,
        -0x4000_0000_0000_0000_0000_0000_0000_0000 < a < 0x4000_0000_0000_0000_0000_0000_0000_0000,
        -0x4000_0000_0000_0000_0000_0000_0000_0000 < b < 0x4000_0000_0000_0000_0000_0000_0000_0000,
    ensures
        q == div_ceil(a as int, b as int),
{
    let n: i128 = if b > 0 { a } else { -a };
    let d: i128 = if b > 0 { b } else { -b };
    floor_div(n + (d - 1), d)
}

} // verus!
