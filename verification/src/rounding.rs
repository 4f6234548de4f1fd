//! Integer division with the two rounding modes the pixel conversions need,
//! and the conversions between physical and logical pixels.
//!
//! A scale factor is held in thousandths (`1000` is 100 %), so that every
//! conversion is exact integer arithmetic.

use vstd::prelude::*;
use vstd::arithmetic::div_mod::{
    lemma_div_is_ordered, lemma_fundamental_div_mod_converse, lemma_mod_multiples_basic,
};

verus! {

/// Thousandths in a scale factor of 1.0.
pub const SCALE_UNIT: i32 = 1000;

/// `n / d` rounded to the nearest integer, halves going away from zero.
pub open spec fn round_div(n: int, d: int) -> int
    recommends
        d > 0,
{
    if n >= 0 {
        (2 * n + d) / (2 * d)
    } else {
        -((2 * (-n) + d) / (2 * d))
    }
}

/// `n / d` with the fraction dropped (rounded toward zero).
pub open spec fn trunc_div(n: int, d: int) -> int
    recommends
        d > 0,
{
    if n >= 0 {
        n / d
    } else {
        -((-n) / d)
    }
}

/// A physical length or coordinate in logical pixels at the given scale.
pub open spec fn logical_of(physical: int, scale_permille: int) -> int {
    round_div(physical * 1000, scale_permille)
}

/// A logical length or coordinate in physical pixels at the given scale.
pub open spec fn physical_of(logical: int, scale_permille: int) -> int {
    round_div(logical * scale_permille, 1000)
}

/// A physical coordinate in logical pixels, fraction dropped. Panel placement
/// uses this coarser conversion.
pub open spec fn logical_floor_of(physical: int, scale_permille: int) -> int {
    trunc_div(physical * 1000, scale_permille)
}

/// `q` is the quotient of `a / b` when `a` lies in `[q*b, (q+1)*b)`.
pub proof fn lemma_quotient_unique(a: int, b: int, q: int)
    requires
        b > 0,
        q * b <= a < q * b + b,
    ensures
        a / b == q,
{
    lemma_fundamental_div_mod_converse(a, b, q, a - q * b);
}

/// `round_div(n, d)` is the integer nearest to `n / d`: it is at most half a
/// unit away, and a value strictly nearer than half a unit is the result.
pub proof fn lemma_round_div_nearest(n: int, d: int)
    requires
        d > 0,
    ensures
        -d <= 2 * (n - round_div(n, d) * d) <= d,
        n >= 0 ==> round_div(n, d) >= 0,
        n <= 0 ==> round_div(n, d) <= 0,
{
    let m = if n >= 0 { n } else { -n };
    let q = (2 * m + d) / (2 * d);
    if n == 0 {
        lemma_quotient_unique(d, 2 * d, 0);
    }
    assert(2 * m + d == q * (2 * d) + (2 * m + d) % (2 * d) && 0 <= (2 * m + d) % (2 * d) < 2 * d
        && q >= 0) by (nonlinear_arith)
        requires
            q == (2 * m + d) / (2 * d),
            d > 0,
            m >= 0,
    ;
    assert(q * (2 * d) == 2 * (q * d)) by (nonlinear_arith);
    assert((-q) * d == -(q * d)) by (nonlinear_arith);
}

/// A candidate strictly nearer to `n / d` than half a unit is what
/// `round_div` returns.
pub proof fn lemma_round_div_is(n: int, d: int, q: int)
    requires
        d > 0,
        -d < 2 * (n - q * d) < d,
    ensures
        round_div(n, d) == q,
{
    if n >= 0 {
        assert(q * (2 * d) == 2 * (q * d)) by (nonlinear_arith);
        lemma_quotient_unique(2 * n + d, 2 * d, q);
    } else {
        assert((-q) * (2 * d) == -(2 * (q * d))) by (nonlinear_arith);
        lemma_quotient_unique(2 * (-n) + d, 2 * d, -q);
    }
}

/// An exact quotient is returned unchanged.
pub proof fn lemma_round_div_exact(q: int, d: int)
    requires
        d > 0,
    ensures
        round_div(q * d, d) == q,
{
    assert(q >= 0 ==> q * d >= 0) by (nonlinear_arith)
        requires
            d > 0,
    ;
    assert(q < 0 ==> q * d < 0) by (nonlinear_arith)
        requires
            d > 0,
    ;
    lemma_round_div_is(q * d, d, q);
}

/// Rounding keeps the order of the numerators.
pub proof fn lemma_round_div_monotonic(n1: int, n2: int, d: int)
    requires
        d > 0,
        n1 <= n2,
    ensures
        round_div(n1, d) <= round_div(n2, d),
{
    if n1 >= 0 {
        lemma_div_is_ordered(2 * n1 + d, 2 * n2 + d, 2 * d);
    } else if n2 < 0 {
        lemma_div_is_ordered(2 * (-n2) + d, 2 * (-n1) + d, 2 * d);
    } else {
        lemma_round_div_nearest(n1, d);
        lemma_round_div_nearest(n2, d);
    }
}

/// A numerator exactly half a unit above a multiple of the divisor rounds
/// away from zero: up when it is not negative, else down to that multiple.
pub proof fn lemma_round_div_half_above(n: int, d: int, q: int)
    requires
        d > 0,
        2 * (n - q * d) == d,
    ensures
        round_div(n, d) == if n >= 0 {
            q + 1
        } else {
            q
        },
{
    if n >= 0 {
        assert((q + 1) * (2 * d) == 2 * (q * d) + 2 * d) by (nonlinear_arith);
        lemma_quotient_unique(2 * n + d, 2 * d, q + 1);
    } else {
        assert((-q) * (2 * d) == -(2 * (q * d))) by (nonlinear_arith);
        lemma_quotient_unique(2 * (-n) + d, 2 * d, -q);
    }
}

/// A numerator exactly half a unit below a multiple of the divisor rounds
/// away from zero: to that multiple when it is not negative, else one lower.
pub proof fn lemma_round_div_half_below(n: int, d: int, q: int)
    requires
        d > 0,
        2 * (n - q * d) == -d,
    ensures
        round_div(n, d) == if n >= 0 {
            q
        } else {
            q - 1
        },
{
    if n >= 0 {
        assert(q * (2 * d) == 2 * (q * d)) by (nonlinear_arith);
        lemma_quotient_unique(2 * n + d, 2 * d, q);
    } else {
        assert((1 - q) * (2 * d) == 2 * d - 2 * (q * d)) by (nonlinear_arith);
        lemma_quotient_unique(2 * (-n) + d, 2 * d, 1 - q);
    }
}

/// How far, in thousandths of a physical pixel, the physical image of a
/// logical value lies from the exact product of value and scale.
pub open spec fn physical_rounding_error(v: int, scale_permille: int) -> int {
    physical_of(v, scale_permille) * 1000 - v * scale_permille
}

/// Whether a logical value comes back from the conversion to physical
/// pixels: the rounding error of its physical image is less than half a
/// logical pixel, or exactly half of one on the side that the way back
/// rounds toward the value.
pub open spec fn survives_round_trip(v: int, scale_permille: int) -> bool {
    let e = physical_rounding_error(v, scale_permille);
    ||| -scale_permille < 2 * e < scale_permille
    ||| 2 * e == scale_permille && physical_of(v, scale_permille) < 0
    ||| 2 * e == -scale_permille && physical_of(v, scale_permille) >= 0
}

/// Converting a logical value to physical pixels and back returns it exactly
/// when the value survives the round trip.
pub proof fn lemma_logical_round_trip(v: int, scale_permille: int)
    requires
        scale_permille > 0,
    ensures
        logical_of(physical_of(v, scale_permille), scale_permille) == v <==> survives_round_trip(
            v,
            scale_permille,
        ),
{
    let s = scale_permille;
    let p = physical_of(v, s);
    let e = physical_rounding_error(v, s);
    lemma_round_div_nearest(p * 1000, s);
    if -s < 2 * e < s {
        lemma_round_div_is(p * 1000, s, v);
    } else if 2 * e == s {
        lemma_round_div_half_above(p * 1000, s, v);
    } else if 2 * e == -s {
        lemma_round_div_half_below(p * 1000, s, v);
    } else {
        let back = logical_of(p, s);
        assert(back != v) by {
            if back == v {
                assert(-s <= 2 * (p * 1000 - back * s) <= s);
            }
        }
    }
}

/// Every logical value survives the round trip at a scale of at least 1.0;
/// at any scale, so does a value whose physical image is a whole number of
/// pixels.
pub proof fn lemma_round_trip_holds(v: int, scale_permille: int)
    requires
        scale_permille > 0,
        scale_permille >= 1000 || (v * scale_permille) % 1000 == 0,
    ensures
        survives_round_trip(v, scale_permille),
        logical_of(physical_of(v, scale_permille), scale_permille) == v,
{
    let s = scale_permille;
    let p = physical_of(v, s);
    lemma_round_div_nearest(v * s, 1000);
    if (v * s) % 1000 == 0 {
        let k = (v * s) / 1000;
        assert(v * s == k * 1000) by (nonlinear_arith)
            requires
                k == (v * s) / 1000,
                (v * s) % 1000 == 0,
        ;
        lemma_round_div_exact(k, 1000);
        assert(p * 1000 == v * s);
    } else if s == 1000 {
        lemma_mod_multiples_basic(v, 1000);
    }
    lemma_logical_round_trip(v, s);
}

/// Computes `round_div` for any 64-bit numerator and positive divisor.
pub fn round_div_i64(n: i64, d: i64) -> (q: i64)
    requires
        d > 0,
    ensures
        q == round_div(n as int, d as int),
        n >= 0 ==> 0 <= q <= n,
        n < 0 ==> n <= q <= 0,
{
    let wide_n: i128 = n as i128;
    let wide_d: i128 = d as i128;
    if n >= 0 {
        let q: i128 = (2 * wide_n + wide_d) / (2 * wide_d);
        assert(0 <= q <= n) by (nonlinear_arith)
            requires
                q == (2 * wide_n + wide_d) / (2 * wide_d),
                wide_n == n,
                wide_d > 0,
                n >= 0,
        ;
        q as i64
    } else {
        let q: i128 = (2 * (-wide_n) + wide_d) / (2 * wide_d);
        assert(0 <= q <= -n) by (nonlinear_arith)
            requires
                q == (2 * (-wide_n) + wide_d) / (2 * wide_d),
                wide_n == n,
                wide_d > 0,
                n < 0,
        ;
        (-q) as i64
    }
}

/// Computes `trunc_div` for any 64-bit numerator and positive divisor.
pub fn trunc_div_i64(n: i64, d: i64) -> (q: i64)
    requires
        d > 0,
    ensures
        q == trunc_div(n as int, d as int),
{
    let wide_n: i128 = n as i128;
    let wide_d: i128 = d as i128;
    if n >= 0 {
        let q: i128 = wide_n / wide_d;
        assert(0 <= q <= n) by (nonlinear_arith)
            requires
                q == wide_n / wide_d,
                wide_n == n,
                wide_d > 0,
                n >= 0,
        ;
        q as i64
    } else {
        let q: i128 = (-wide_n) / wide_d;
        assert(0 <= q <= -n) by (nonlinear_arith)
            requires
                q == (-wide_n) / (wide_d as int),
                wide_n == n,
                wide_d > 0,
                n < 0,
        ;
        (-q) as i64
    }
}

/// Physical pixels to logical pixels for a value that is a sum of a
/// coordinate and a length: `round(physical / scale)`, halves away from zero.
pub fn to_logical_wide(physical: i64, scale_permille: i32) -> (logical: i64)
    requires
        scale_permille > 0,
        -0x1_0000_0000 <= physical <= 0x2_0000_0000,
    ensures
        logical == logical_of(physical as int, scale_permille as int),
        -0x400_0000_0000 <= logical <= 0x800_0000_0000,
{
    round_div_i64(physical * 1000, scale_permille as i64)
}

/// A physical coordinate in logical pixels: `round(physical / scale)`, halves
/// away from zero.
pub fn to_logical(physical: i32, scale_permille: i32) -> (logical: i64)
    requires
        scale_permille > 0,
    ensures
        logical == logical_of(physical as int, scale_permille as int),
{
    to_logical_wide(physical as i64, scale_permille)
}

/// A physical length in logical pixels: `round(physical / scale)`.
pub fn to_logical_u(physical: u32, scale_permille: i32) -> (logical: i64)
    requires
        scale_permille > 0,
    ensures
        logical == logical_of(physical as int, scale_permille as int),
        logical >= 0,
{
    proof {
        lemma_round_div_nearest(physical * 1000, scale_permille as int);
    }
    to_logical_wide(physical as i64, scale_permille)
}

/// Logical pixels to physical pixels: `round(logical * scale)`, halves away
/// from zero.
pub fn to_physical(logical: i32, scale_permille: i32) -> (physical: i64)
    requires
        scale_permille > 0,
    ensures
        physical == physical_of(logical as int, scale_permille as int),
{
    assert(-0x4000_0000_0000_0000 <= logical * scale_permille <= 0x4000_0000_0000_0000)
        by (nonlinear_arith)
        requires
            -0x8000_0000 <= logical <= 0x7fff_ffff,
            0 < scale_permille <= 0x7fff_ffff,
    ;
    round_div_i64((logical as i64) * (scale_permille as i64), 1000)
}

/// A physical coordinate in logical pixels with the fraction dropped.
pub fn to_logical_floor(physical: i32, scale_permille: i32) -> (logical: i64)
    requires
        scale_permille > 0,
    ensures
        logical == logical_floor_of(physical as int, scale_permille as int),
{
    trunc_div_i64((physical as i64) * 1000, scale_permille as i64)
}

/// A physical length in logical pixels with the fraction dropped.
pub fn to_logical_floor_u(physical: u32, scale_permille: i32) -> (logical: i64)
    requires
        scale_permille > 0,
    ensures
        logical == logical_floor_of(physical as int, scale_permille as int),
        logical >= 0,
{
    assert(physical * 1000 / (scale_permille as int) >= 0) by (nonlinear_arith)
        requires
            physical >= 0,
            scale_permille > 0,
    ;
    trunc_div_i64((physical as i64) * 1000, scale_permille as i64)
}

} // verus!
