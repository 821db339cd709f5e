//! Fixed-point helpers shared by the gamma codec, the alpha coupler and the
//! resampler: rounded division, floor/ceil division and clamping, each with an
//! exact specification.

use vstd::prelude::*;

verus! {

/// One in the linear-light scale: an 8-bit sample maps onto `0..=65535`.
pub const LINEAR_ONE: i64 = 65535;

/// One in the kernel-weight scale.
pub const WEIGHT_ONE: i64 = 65536;

/// Division rounded to the nearest integer, halves away from zero.
/// The denominator must be positive.
pub open spec fn rdiv(a: int, b: int) -> int
    recommends
        b > 0,
{
    if a >= 0 {
        (2 * a + b) / (2 * b)
    } else {
        -((2 * (-a) + b) / (2 * b))
    }
}

/// `v` forced into `lo..=hi`.
pub open spec fn clamped(v: int, lo: int, hi: int) -> int {
    if v < lo {
        lo
    } else if v > hi {
        hi
    } else {
        v
    }
}

/// Floor of the rational `a / b`; for a positive `b` this is Euclidean
/// division itself.
pub open spec fn floor_div(a: int, b: int) -> int
    recommends
        b > 0,
{
    a / b
}

/// Ceiling of the rational `a / b` for a positive `b`.
pub open spec fn ceil_div(a: int, b: int) -> int
    recommends
        b > 0,
{
    if a % b == 0 {
        a / b
    } else {
        a / b + 1
    }
}

/// Rounded division never grows a magnitude: the quotient stays within the
/// numerator's bounds.
pub proof fn lemma_rdiv_bound(a: int, b: int)
    requires
        b >= 1,
    ensures
        a >= 0 ==> 0 <= rdiv(a, b) <= a,
        a < 0 ==> a <= rdiv(a, b) <= 0,
{
    if a >= 0 {
        assert((2 * a + b) / (2 * b) <= a) by (nonlinear_arith)
            requires
                a >= 0,
                b >= 1,
        ;
        assert((2 * a + b) / (2 * b) >= 0) by (nonlinear_arith)
            requires
                a >= 0,
                b >= 1,
        ;
    } else {
        assert((2 * (-a) + b) / (2 * b) <= -a) by (nonlinear_arith)
            requires
                a < 0,
                b >= 1,
        ;
        assert((2 * (-a) + b) / (2 * b) >= 0) by (nonlinear_arith)
            requires
                a < 0,
                b >= 1,
        ;
    }
}

/// Rounded division undoes an exact multiple: `rdiv(v * b, b) == v`.
pub proof fn lemma_rdiv_exact(v: int, b: int)
    requires
        b >= 1,
    ensures
        rdiv(v * b, b) == v,
{
    if v >= 0 {
        assert(v * b >= 0) by (nonlinear_arith)
            requires
                v >= 0,
                b >= 1,
        ;
        assert((2 * (v * b) + b) / (2 * b) == v) by (nonlinear_arith)
            requires
                v >= 0,
                b >= 1,
        ;
    } else {
        assert(v * b < 0) by (nonlinear_arith)
            requires
                v < 0,
                b >= 1,
        ;
        assert(-(v * b) == (-v) * b) by (nonlinear_arith);
        assert((2 * ((-v) * b) + b) / (2 * b) == -v) by (nonlinear_arith)
            requires
                v < 0,
                b >= 1,
        ;
    }
}

/// Rounded division of zero is zero.
pub proof fn lemma_rdiv_zero(b: int)
    requires
        b >= 1,
    ensures
        rdiv(0, b) == 0,
{
    vstd::arithmetic::div_mod::lemma_basic_div(b, 2 * b);
}

/// Rounded division is monotone in its numerator.
pub proof fn lemma_rdiv_monotone(a1: int, a2: int, b: int)
    requires
        a1 <= a2,
        b >= 1,
    ensures
        rdiv(a1, b) <= rdiv(a2, b),
{
    lemma_rdiv_bound(a1, b);
    lemma_rdiv_bound(a2, b);
    if a1 >= 0 {
        vstd::arithmetic::div_mod::lemma_div_is_ordered(2 * a1 + b, 2 * a2 + b, 2 * b);
    } else if a2 < 0 {
        vstd::arithmetic::div_mod::lemma_div_is_ordered(2 * (-a2) + b, 2 * (-a1) + b, 2 * b);
    }
}

/// Executable rounded division; see `rdiv`.
pub fn rdiv_i64(a: i64, b: i64) -> (r: i64)
    requires
        1 <= b < 0x4000_0000_0000_0000,
        -0x4000_0000_0000_0000 < a < 0x4000_0000_0000_0000,
    ensures
        r == rdiv(a as int, b as int),
        a >= 0 ==> 0 <= r <= a,
        a < 0 ==> a <= r <= 0,
{
    proof {
        lemma_rdiv_bound(a as int, b as int);
    }
    if a >= 0 {
        let n: u64 = 2 * (a as u64) + (b as u64);
        let q: u64 = n / (2 * (b as u64));
        q as i64
    } else {
        let n: u64 = 2 * ((-a) as u64) + (b as u64);
        let q: u64 = n / (2 * (b as u64));
        -(q as i64)
    }
}

/// Executable floor division; see `floor_div`.
pub fn floor_div_i64(a: i64, b: i64) -> (r: i64)
    requires
        1 <= b < 0x4000_0000_0000_0000,
        -0x4000_0000_0000_0000 < a < 0x4000_0000_0000_0000,
    ensures
        r == floor_div(a as int, b as int),
        a >= 0 ==> 0 <= r <= a,
        a < 0 ==> a <= r <= 0,
{
    proof {
        if a >= 0 {
            vstd::arithmetic::div_mod::lemma_div_pos_is_pos(a as int, b as int);
            vstd::arithmetic::div_mod::lemma_div_nonincreasing(a as int, b as int);
        } else {
            vstd::arithmetic::div_mod::lemma_div_pos_is_pos(-a as int, b as int);
            vstd::arithmetic::div_mod::lemma_div_nonincreasing(-a as int, b as int);
            lemma_floor_div_neg_bounds(a as int, b as int);
        }
    }
    if a >= 0 {
        ((a as u64) / (b as u64)) as i64
    } else {
        let m: u64 = (-a) as u64;
        let bu: u64 = b as u64;
        let q: u64 = (m + bu - 1) / bu;
        proof {
            lemma_floor_div_neg(a as int, b as int);
        }
        -(q as i64)
    }
}

/// A negative numerator's Euclidean quotient stays within the numerator.
proof fn lemma_floor_div_neg_bounds(a: int, b: int)
    requires
        a < 0,
        b >= 1,
    ensures
        a <= a / b <= 0,
{
    assert(a <= a / b <= 0) by (nonlinear_arith)
        requires
            a < 0,
            b >= 1,
    ;
}

/// For a negative numerator and positive denominator, Euclidean division is
/// the negated rounded-up division of the magnitudes.
proof fn lemma_floor_div_neg(a: int, b: int)
    requires
        a < 0,
        b >= 1,
    ensures
        a / b == -(((-a) + b - 1) / b),
{
    assert(a / b == -(((-a) + b - 1) / b)) by (nonlinear_arith)
        requires
            a < 0,
            b >= 1,
    ;
}

/// Executable ceiling division; see `ceil_div`.
pub fn ceil_div_i64(a: i64, b: i64) -> (r: i64)
    requires
        1 <= b < 0x4000_0000_0000_0000,
        -0x2000_0000_0000_0000 < a < 0x2000_0000_0000_0000,
    ensures
        r == ceil_div(a as int, b as int),
        a >= 0 ==> 0 <= r <= a + 1,
        a < 0 ==> a <= r <= 0,
{
    let q: i64 = floor_div_i64(a, b);
    proof {
        vstd::arithmetic::div_mod::lemma_fundamental_div_mod(a as int, b as int);
    }
    if a - q * b == 0 {
        q
    } else {
        q + 1
    }
}

/// Saturating fixed-point multiply: `a * b` rescaled out of the weight
/// scale, rounded, and held inside `±0x4000_0000` so that chained products
/// stay far from `i64` overflow.  The kernel formulas never reach the
/// saturation bound on their real domains.
pub open spec fn qmul(a: int, b: int) -> int {
    clamped(rdiv(a * b, WEIGHT_ONE as int), -0x4000_0000, 0x4000_0000)
}

/// Executable saturating fixed-point multiply; see `qmul`.
pub fn q16_mul(a: i64, b: i64) -> (r: i64)
    requires
        -0x4000_0000 <= a <= 0x4000_0000,
        -0x4000_0000 <= b <= 0x4000_0000,
    ensures
        r == qmul(a as int, b as int),
        -0x4000_0000 <= r <= 0x4000_0000,
{
    proof {
        assert(-0x1000_0000_0000_0000 <= a * b <= 0x1000_0000_0000_0000) by (nonlinear_arith)
            requires
                -0x4000_0000 <= a <= 0x4000_0000,
                -0x4000_0000 <= b <= 0x4000_0000,
        ;
    }
    clamp_i64(rdiv_i64(a * b, WEIGHT_ONE), -0x4000_0000, 0x4000_0000)
}

/// Executable clamp; see `clamped`.
pub fn clamp_i64(v: i64, lo: i64, hi: i64) -> (r: i64)
    requires
        lo <= hi,
    ensures
        r == clamped(v as int, lo as int, hi as int),
        lo <= r <= hi,
{
    if v < lo {
        lo
    } else if v > hi {
        hi
    } else {
        v
    }
}

} // verus!
