//! Alpha coupler: premultiplies a linear color sample by its alpha fraction
//! before filtering and demultiplies it afterwards.  Alpha fractions live in
//! `0..=LINEAR_ONE`; a fully transparent sample is passed through unchanged
//! by `demultiply` so that it cannot poison downstream arithmetic.

use vstd::prelude::*;

use crate::fixed::LINEAR_ONE;
use crate::fixed::rdiv;
use crate::fixed::rdiv_i64;

verus! {

/// The premultiplied value of color sample `c` under alpha fraction `a`:
/// `c * a` rescaled back into the linear-light scale, rounded to nearest.
pub open spec fn premul(c: int, a: int) -> int {
    rdiv(c * a, LINEAR_ONE as int)
}

/// The demultiplied value of premultiplied sample `c` under alpha fraction
/// `a`: `c / a` in the linear-light scale when `a` is positive, and `c`
/// unchanged when the sample is fully transparent.
pub open spec fn demul(c: int, a: int) -> int {
    if a <= 0 {
        c
    } else {
        rdiv(c * (LINEAR_ONE as int), a)
    }
}

/// Premultiply a linear color sample by an alpha fraction.
pub fn premultiply(c: i64, a: i64) -> (r: i64)
    requires
        0 <= c <= LINEAR_ONE,
        0 <= a <= LINEAR_ONE,
    ensures
        r == premul(c as int, a as int),
        0 <= r <= c,
{
    proof {
        assert(0 <= c * a <= c * LINEAR_ONE) by (nonlinear_arith)
            requires
                0 <= c,
                0 <= a <= LINEAR_ONE,
        ;
        crate::fixed::lemma_rdiv_exact(c as int, LINEAR_ONE as int);
        crate::fixed::lemma_rdiv_monotone(c * a, c * (LINEAR_ONE as int), LINEAR_ONE as int);
    }
    rdiv_i64(c * a, LINEAR_ONE)
}

/// Demultiply a filtered premultiplied sample by the filtered alpha
/// fraction; fully transparent samples pass through unchanged.
pub fn demultiply(c: i64, a: i64) -> (r: i64)
    requires
        -0x100_0000 <= c <= 0x100_0000,
        a <= 0x100_0000,
    ensures
        r == demul(c as int, a as int),
        -0x100_0000 * 0x1_0000 <= r <= 0x100_0000 * 0x1_0000,
{
    if a <= 0 {
        c
    } else {
        rdiv_i64(c * LINEAR_ONE, a)
    }
}

} // verus!
