//! Interpolation kernels: the continuous weighting functions of the
//! separable resampler, evaluated in the Q16 weight scale on the magnitude
//! of a source-pixel offset.  Each kernel has a finite support radius in
//! source-pixel units; its weight is zero at and beyond that radius.

use vstd::prelude::*;

use crate::fixed::WEIGHT_ONE;
use crate::fixed::clamp_i64;
use crate::fixed::clamped;
use crate::fixed::qmul;
use crate::fixed::q16_mul;
use crate::fixed::rdiv;
use crate::fixed::rdiv_i64;

verus! {

/// Pi in the Q16 weight scale.
pub const PI_Q16: i64 = 205887;

/// Pi squared in the Q16 weight scale.
pub const PI_SQ_Q16: i64 = 646819;

/// Weights never leave this band; the true kernels stay within one
/// weight-scale unit of magnitude, so the band is never reached.
pub const WEIGHT_LIMIT: i64 = 262144;

/// The interpolation kernel chosen for one resampling call.
#[derive(Clone, Copy, Debug, PartialEq, Eq, Structural)]
pub enum ResampleKernel {
    Triangle,
    CatmullRom,
    Mitchell,
    Lanczos3,
}

/// The support radius of a kernel, in source-pixel units.
pub open spec fn support_spec(k: ResampleKernel) -> int {
    match k {
        ResampleKernel::Triangle => 1,
        ResampleKernel::CatmullRom => 2,
        ResampleKernel::Mitchell => 2,
        ResampleKernel::Lanczos3 => 3,
    }
}

/// Executable support radius; see `support_spec`.
pub fn support(k: ResampleKernel) -> (r: i64)
    ensures
        r == support_spec(k),
        1 <= r <= 3,
{
    match k {
        ResampleKernel::Triangle => 1,
        ResampleKernel::CatmullRom => 2,
        ResampleKernel::Mitchell => 2,
        ResampleKernel::Lanczos3 => 3,
    }
}

/// Triangle (linear) kernel on a Q16 offset magnitude: `1 - x` inside the
/// unit support.
pub open spec fn triangle_w(x: int) -> int {
    if x < WEIGHT_ONE {
        WEIGHT_ONE - x
    } else {
        0
    }
}

/// Catmull-Rom cubic on a Q16 offset magnitude.
pub open spec fn catmull_rom_w(x: int) -> int {
    let x2 = qmul(x, x);
    let x3 = qmul(x2, x);
    if x < WEIGHT_ONE {
        clamped(rdiv(3 * x3 - 5 * x2 + 2 * (WEIGHT_ONE as int), 2), -WEIGHT_LIMIT as int, WEIGHT_LIMIT as int)
    } else if x < 2 * WEIGHT_ONE {
        clamped(rdiv(-x3 + 5 * x2 - 8 * x + 4 * (WEIGHT_ONE as int), 2), -WEIGHT_LIMIT as int, WEIGHT_LIMIT as int)
    } else {
        0
    }
}

/// Mitchell-Netravali cubic (B = C = 1/3) on a Q16 offset magnitude.
pub open spec fn mitchell_w(x: int) -> int {
    let x2 = qmul(x, x);
    let x3 = qmul(x2, x);
    if x < WEIGHT_ONE {
        clamped(rdiv(21 * x3 - 36 * x2 + 16 * (WEIGHT_ONE as int), 18), -WEIGHT_LIMIT as int, WEIGHT_LIMIT as int)
    } else if x < 2 * WEIGHT_ONE {
        clamped(rdiv(36 * x2 - 7 * x3 - 60 * x + 32 * (WEIGHT_ONE as int), 18), -WEIGHT_LIMIT as int, WEIGHT_LIMIT as int)
    } else {
        0
    }
}

/// `sin(pi * x)` for a Q16 argument `x`, by quadrant folding and a
/// seventh-order polynomial; the result is held inside twice the weight
/// scale.
pub open spec fn sin_pi_spec(x: int) -> int {
    let n = x / (WEIGHT_ONE as int);
    let f = x % (WEIGHT_ONE as int);
    let g = if f > 32768 {
        (WEIGHT_ONE as int) - f
    } else {
        f
    };
    let theta = clamped(rdiv((PI_Q16 as int) * g, WEIGHT_ONE as int), 0, 2 * (WEIGHT_ONE as int));
    let t2 = qmul(theta, theta);
    let t3 = qmul(t2, theta);
    let t5 = qmul(t3, t2);
    let t7 = qmul(t5, t2);
    let s = clamped(
        theta - rdiv(t3, 6) + rdiv(t5, 120) - rdiv(t7, 5040),
        -2 * (WEIGHT_ONE as int),
        2 * (WEIGHT_ONE as int),
    );
    if n % 2 == 1 {
        -s
    } else {
        s
    }
}

/// Executable `sin(pi * x)`; see `sin_pi_spec`.
pub fn sin_pi_q16(x: i64) -> (r: i64)
    requires
        0 <= x <= 4 * WEIGHT_ONE,
    ensures
        r == sin_pi_spec(x as int),
        -2 * WEIGHT_ONE <= r <= 2 * WEIGHT_ONE,
{
    let n: i64 = ((x as u64) / (WEIGHT_ONE as u64)) as i64;
    let f: i64 = ((x as u64) % (WEIGHT_ONE as u64)) as i64;
    let g: i64 = if f > 32768 {
        WEIGHT_ONE - f
    } else {
        f
    };
    let theta: i64 = clamp_i64(rdiv_i64(PI_Q16 * g, WEIGHT_ONE), 0, 2 * WEIGHT_ONE);
    let t2: i64 = q16_mul(theta, theta);
    let t3: i64 = q16_mul(t2, theta);
    let t5: i64 = q16_mul(t3, t2);
    let t7: i64 = q16_mul(t5, t2);
    let s: i64 = clamp_i64(
        theta - rdiv_i64(t3, 6) + rdiv_i64(t5, 120) - rdiv_i64(t7, 5040),
        -2 * WEIGHT_ONE,
        2 * WEIGHT_ONE,
    );
    if n % 2 == 1 {
        -s
    } else {
        s
    }
}

/// Lanczos-3 kernel on a Q16 offset magnitude: `3 sin(pi t) sin(pi t / 3)
/// / (pi t)^2` inside the support, with a series form near zero.
pub open spec fn lanczos3_w(x: int) -> int {
    if x >= 3 * (WEIGHT_ONE as int) {
        0
    } else if x <= 8192 {
        clamped(
            (WEIGHT_ONE as int) - rdiv(5 * (PI_SQ_Q16 as int) * x * x, 27 * (WEIGHT_ONE as int) * (WEIGHT_ONE as int)),
            -WEIGHT_LIMIT as int,
            WEIGHT_LIMIT as int,
        )
    } else {
        let a = sin_pi_spec(x);
        let b = sin_pi_spec(rdiv(x, 3));
        let d = clamped(
            rdiv((PI_SQ_Q16 as int) * x * x, (WEIGHT_ONE as int) * (WEIGHT_ONE as int)),
            1,
            0x4000_0000,
        );
        clamped(rdiv(3 * a * b, d), -WEIGHT_LIMIT as int, WEIGHT_LIMIT as int)
    }
}

/// The weight a kernel gives to a Q16 offset magnitude.
pub open spec fn weight_spec(k: ResampleKernel, x: int) -> int {
    match k {
        ResampleKernel::Triangle => triangle_w(x),
        ResampleKernel::CatmullRom => catmull_rom_w(x),
        ResampleKernel::Mitchell => mitchell_w(x),
        ResampleKernel::Lanczos3 => lanczos3_w(x),
    }
}

/// Executable kernel weight; see `weight_spec`.
pub fn weight(k: ResampleKernel, x: i64) -> (r: i64)
    requires
        0 <= x <= 4 * WEIGHT_ONE,
    ensures
        r == weight_spec(k, x as int),
        -WEIGHT_LIMIT <= r <= WEIGHT_LIMIT,
{
    match k {
        ResampleKernel::Triangle => {
            if x < WEIGHT_ONE {
                WEIGHT_ONE - x
            } else {
                0
            }
        },
        ResampleKernel::CatmullRom => {
            let x2: i64 = q16_mul(x, x);
            let x3: i64 = q16_mul(x2, x);
            if x < WEIGHT_ONE {
                clamp_i64(rdiv_i64(3 * x3 - 5 * x2 + 2 * WEIGHT_ONE, 2), -WEIGHT_LIMIT, WEIGHT_LIMIT)
            } else if x < 2 * WEIGHT_ONE {
                clamp_i64(rdiv_i64(-x3 + 5 * x2 - 8 * x + 4 * WEIGHT_ONE, 2), -WEIGHT_LIMIT, WEIGHT_LIMIT)
            } else {
                0
            }
        },
        ResampleKernel::Mitchell => {
            let x2: i64 = q16_mul(x, x);
            let x3: i64 = q16_mul(x2, x);
            if x < WEIGHT_ONE {
                clamp_i64(rdiv_i64(21 * x3 - 36 * x2 + 16 * WEIGHT_ONE, 18), -WEIGHT_LIMIT, WEIGHT_LIMIT)
            } else if x < 2 * WEIGHT_ONE {
                clamp_i64(rdiv_i64(36 * x2 - 7 * x3 - 60 * x + 32 * WEIGHT_ONE, 18), -WEIGHT_LIMIT, WEIGHT_LIMIT)
            } else {
                0
            }
        },
        ResampleKernel::Lanczos3 => {
            if x >= 3 * WEIGHT_ONE {
                0
            } else if x <= 8192 {
                proof {
                    assert(0 <= 5 * (PI_SQ_Q16 as int) * x * x <= 5 * 646819 * 8192 * 8192) by (nonlinear_arith)
                        requires
                            0 <= x <= 8192,
                    ;
                }
                clamp_i64(
                    WEIGHT_ONE - rdiv_i64(5 * PI_SQ_Q16 * x * x, 27 * WEIGHT_ONE * WEIGHT_ONE),
                    -WEIGHT_LIMIT,
                    WEIGHT_LIMIT,
                )
            } else {
                let a: i64 = sin_pi_q16(x);
                let b: i64 = sin_pi_q16(rdiv_i64(x, 3));
                proof {
                    assert(0 <= (PI_SQ_Q16 as int) * x * x <= 646819 * 262144 * 262144) by (nonlinear_arith)
                        requires
                            0 <= x <= 4 * 65536,
                    ;
                    assert(-393216 * 131072 <= 3 * (a as int) * b <= 393216 * 131072) by (nonlinear_arith)
                        requires
                            -131072 <= a <= 131072,
                            -131072 <= b <= 131072,
                    ;
                }
                let d: i64 = clamp_i64(
                    rdiv_i64(PI_SQ_Q16 * x * x, WEIGHT_ONE * WEIGHT_ONE),
                    1,
                    0x4000_0000,
                );
                clamp_i64(rdiv_i64(3 * a * b, d), -WEIGHT_LIMIT, WEIGHT_LIMIT)
            }
        },
    }
}

/// Kernel support correctness, outward half: at and beyond the declared
/// support radius every kernel weight is zero.
pub proof fn lemma_weight_outside_support(k: ResampleKernel, x: int)
    requires
        x >= support_spec(k) * (WEIGHT_ONE as int),
    ensures
        weight_spec(k, x) == 0,
{
}

/// Kernel support correctness, inward half: every kernel weighs the exact
/// center positively.
pub proof fn lemma_weight_center(k: ResampleKernel)
    ensures
        weight_spec(k, 0) > 0,
{
    crate::fixed::lemma_rdiv_zero(WEIGHT_ONE as int);
    assert(qmul(0, 0) == clamped(rdiv(0, WEIGHT_ONE as int), -0x4000_0000, 0x4000_0000));
    assert(qmul(0, 0) == 0);
    match k {
        ResampleKernel::Triangle => {
            assert(triangle_w(0) == WEIGHT_ONE);
        },
        ResampleKernel::CatmullRom => {
            assert(2 * (WEIGHT_ONE as int) == 65536 * 2);
            crate::fixed::lemma_rdiv_exact(65536, 2);
            assert(catmull_rom_w(0) == clamped(rdiv(2 * (WEIGHT_ONE as int), 2), -WEIGHT_LIMIT as int, WEIGHT_LIMIT as int));
            assert(catmull_rom_w(0) == 65536);
        },
        ResampleKernel::Mitchell => {
            assert(16 * (WEIGHT_ONE as int) == 1048576);
            vstd::arithmetic::div_mod::lemma_fundamental_div_mod_converse(2097170, 36, 58254, 26);
            assert((2 * 1048576 + 18) / (2 * 18) == 58254);
            assert(rdiv(1048576, 18) == (2 * 1048576 + 18) / (2 * 18));
            assert(mitchell_w(0) == clamped(rdiv(16 * (WEIGHT_ONE as int), 18), -WEIGHT_LIMIT as int, WEIGHT_LIMIT as int));
            assert(mitchell_w(0) == 58254);
        },
        ResampleKernel::Lanczos3 => {
            assert(5 * (PI_SQ_Q16 as int) * 0 * 0 == 0);
            assert(27 * (WEIGHT_ONE as int) * (WEIGHT_ONE as int) == 115964116992);
            crate::fixed::lemma_rdiv_zero(115964116992);
            assert(lanczos3_w(0) == clamped(
                (WEIGHT_ONE as int) - rdiv(5 * (PI_SQ_Q16 as int) * 0 * 0, 27 * (WEIGHT_ONE as int) * (WEIGHT_ONE as int)),
                -WEIGHT_LIMIT as int,
                WEIGHT_LIMIT as int,
            ));
            assert(lanczos3_w(0) == 65536);
        },
    }
}

} // verus!
