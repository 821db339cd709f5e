//! Laws of the pipeline as a whole: identity scaling, and exact round-trip
//! stability of constant fully-opaque images through any resample.

use vstd::prelude::*;

use crate::fixed::LINEAR_ONE;
use crate::fixed::clamped;
use crate::fixed::lemma_rdiv_exact;
use crate::fixed::rdiv;
use crate::gamma::lemma_encode_decode;
use crate::gamma::lemma_lut_range;
use crate::gamma::lut;
use crate::kernel::ResampleKernel;
use crate::pipeline::from_linear_spec;
use crate::pipeline::pipeline_spec;
use crate::pipeline::to_linear_spec;
use crate::resample::SAMPLE_LIMIT;
use crate::resample::asum_from;
use crate::resample::col_line;
use crate::resample::hpass_spec;
use crate::resample::nearest_tap;
use crate::resample::resample_spec;
use crate::resample::row_line;
use crate::resample::sample_spec;
use crate::resample::vpass_spec;
use crate::resample::win_hi;
use crate::resample::win_lo;
use crate::resample::wsum_from;
use crate::alpha::demul;
use crate::alpha::premul;

verus! {

/// A `w x h` RGBA byte image whose every pixel is `(r, g, b, a)`.
pub open spec fn const_rgba_image(w: int, h: int, r: u8, g: u8, b: u8, a: u8) -> Seq<u8> {
    Seq::new(
        (4 * w * h) as nat,
        |i: int|
            if i % 4 == 0 {
                r
            } else if i % 4 == 1 {
                g
            } else if i % 4 == 2 {
                b
            } else {
                a
            },
    )
}

/// Every pixel of the sample buffer holds the channel values
/// `(v0, v1, v2, v3)`.
pub open spec fn channel_values(buf: Seq<i64>, v0: i64, v1: i64, v2: i64, v3: i64) -> bool {
    forall|i: int|
        0 <= i < buf.len() ==> #[trigger] buf[i] == (if i % 4 == 0 {
            v0
        } else if i % 4 == 1 {
            v1
        } else if i % 4 == 2 {
            v2
        } else {
            v3
        })
}

/// Identity scale: resampling an image onto its own dimensions reproduces
/// the original bytes exactly, for any kernel.
pub proof fn lemma_identity_scale(bytes: Seq<u8>, w: int, h: int, k: ResampleKernel)
    ensures
        pipeline_spec(bytes, w, h, w, h, k) == bytes,
{
}

/// A weighted sum over a constant line is the constant times the weight
/// sum.
proof fn lemma_sums_const(line: Seq<i64>, dl: int, k: ResampleKernel, d: int, j: int, hi: int, v: i64)
    requires
        line.len() >= 1,
        forall|i: int| 0 <= i < line.len() ==> #[trigger] line[i] == v,
    ensures
        asum_from(line, dl, k, d, j, hi) == (v as int) * wsum_from(line.len() as int, dl, k, d, j, hi),
    decreases hi + 1 - j,
{
    if j > hi {
        assert((v as int) * 0 == 0) by (nonlinear_arith);
    } else {
        lemma_sums_const(line, dl, k, d, j + 1, hi, v);
        let tw = crate::resample::tap_weight(line.len() as int, dl, k, d, j);
        let rest = wsum_from(line.len() as int, dl, k, d, j + 1, hi);
        assert(line[clamped(j, 0, line.len() - 1)] == v);
        assert(tw * (v as int) == (v as int) * tw) by (nonlinear_arith);
        vstd::arithmetic::mul::lemma_mul_is_distributive_add(v as int, tw, rest);
    }
}

/// Resampling a constant line yields the constant at every destination
/// index: the normalized weighted sum of a constant is the constant, and
/// the nearest-sample fallback returns it as well.
proof fn lemma_sample_const(line: Seq<i64>, dl: int, k: ResampleKernel, d: int, v: i64)
    requires
        1 <= line.len() <= 65535,
        1 <= dl <= 65535,
        -SAMPLE_LIMIT <= v <= SAMPLE_LIMIT,
        forall|i: int| 0 <= i < line.len() ==> #[trigger] line[i] == v,
    ensures
        sample_spec(line, dl, k, d) == v,
{
    let sl = line.len() as int;
    let r = crate::kernel::support_spec(k);
    let lo = win_lo(sl, dl, r, d);
    let hi = win_hi(sl, dl, r, d);
    let ws = wsum_from(sl, dl, k, d, lo, hi);
    lemma_sums_const(line, dl, k, d, lo, hi, v);
    if ws >= 1 {
        lemma_rdiv_exact(v as int, ws);
    } else {
        assert(line[clamped(nearest_tap(sl, dl, d), 0, sl - 1)] == v);
    }
}

/// The horizontal pass preserves constant channel values.
proof fn lemma_hpass_const(buf: Seq<i64>, w: int, h: int, dw: int, k: ResampleKernel, v0: i64, v1: i64, v2: i64, v3: i64)
    requires
        1 <= w <= 65535,
        1 <= h <= 65535,
        1 <= dw <= 65535,
        buf.len() == 4 * w * h,
        channel_values(buf, v0, v1, v2, v3),
        -SAMPLE_LIMIT <= v0 <= SAMPLE_LIMIT,
        -SAMPLE_LIMIT <= v1 <= SAMPLE_LIMIT,
        -SAMPLE_LIMIT <= v2 <= SAMPLE_LIMIT,
        -SAMPLE_LIMIT <= v3 <= SAMPLE_LIMIT,
    ensures
        hpass_spec(buf, w, h, dw, k).len() == 4 * dw * h,
        channel_values(hpass_spec(buf, w, h, dw, k), v0, v1, v2, v3),
{
    let out = hpass_spec(buf, w, h, dw, k);
    assert forall|idx: int| 0 <= idx < out.len() implies #[trigger] out[idx] == (if idx % 4 == 0 {
        v0
    } else if idx % 4 == 1 {
        v1
    } else if idx % 4 == 2 {
        v2
    } else {
        v3
    }) by {
        let r = idx / (4 * dw);
        let rem = idx % (4 * dw);
        let d = rem / 4;
        let ch = rem % 4;
        vstd::arithmetic::div_mod::lemma_fundamental_div_mod(idx, 4 * dw);
        vstd::arithmetic::div_mod::lemma_mod_division_less_than_divisor(idx, 4 * dw);
        vstd::arithmetic::div_mod::lemma_fundamental_div_mod(rem, 4);
        vstd::arithmetic::div_mod::lemma_mod_division_less_than_divisor(rem, 4);
        assert(4 * dw * h == (4 * dw) * h) by (nonlinear_arith);
        vstd::arithmetic::div_mod::lemma_multiply_divide_lt(idx, 4 * dw, h);
        vstd::arithmetic::div_mod::lemma_div_pos_is_pos(idx, 4 * dw);
        assert(rem < 4 * dw);
        vstd::arithmetic::div_mod::lemma_multiply_divide_lt(rem, 4, dw);
        vstd::arithmetic::div_mod::lemma_div_pos_is_pos(rem, 4);
        let line = row_line(buf, w, r, ch);
        assert forall|i: int| 0 <= i < line.len() implies #[trigger] line[i] == (if ch == 0 {
            v0
        } else if ch == 1 {
            v1
        } else if ch == 2 {
            v2
        } else {
            v3
        }) by {
            assert(0 <= r * w + i && 4 * (r * w + i) + ch < 4 * w * h && 4 * (r * w + i) + ch == (r
                * w + i) * 4 + ch) by (nonlinear_arith)
                requires
                    0 <= r < h,
                    0 <= i < w,
                    0 <= ch < 4,
            ;
            vstd::arithmetic::div_mod::lemma_fundamental_div_mod_converse(
                4 * (r * w + i) + ch,
                4,
                r * w + i,
                ch,
            );
            assert(buf[4 * (r * w + i) + ch] == (if ch == 0 {
                v0
            } else if ch == 1 {
                v1
            } else if ch == 2 {
                v2
            } else {
                v3
            }));
        }
        if ch == 0 {
            lemma_sample_const(line, dw, k, d, v0);
        } else if ch == 1 {
            lemma_sample_const(line, dw, k, d, v1);
        } else if ch == 2 {
            lemma_sample_const(line, dw, k, d, v2);
        } else {
            lemma_sample_const(line, dw, k, d, v3);
        }
        assert((4 * dw) * r == 4 * (r * dw) && 0 <= r * dw) by (nonlinear_arith)
            requires
                0 <= r,
                0 <= dw,
        ;
        assert(idx == 4 * (r * dw + d) + ch && 0 <= r * dw + d);
        vstd::arithmetic::div_mod::lemma_fundamental_div_mod_converse(idx, 4, r * dw + d, ch);
    }
}

/// The vertical pass preserves constant channel values.
proof fn lemma_vpass_const(buf: Seq<i64>, w: int, h: int, dh: int, k: ResampleKernel, v0: i64, v1: i64, v2: i64, v3: i64)
    requires
        1 <= w <= 65535,
        1 <= h <= 65535,
        1 <= dh <= 65535,
        buf.len() == 4 * w * h,
        channel_values(buf, v0, v1, v2, v3),
        -SAMPLE_LIMIT <= v0 <= SAMPLE_LIMIT,
        -SAMPLE_LIMIT <= v1 <= SAMPLE_LIMIT,
        -SAMPLE_LIMIT <= v2 <= SAMPLE_LIMIT,
        -SAMPLE_LIMIT <= v3 <= SAMPLE_LIMIT,
    ensures
        vpass_spec(buf, w, h, dh, k).len() == 4 * w * dh,
        channel_values(vpass_spec(buf, w, h, dh, k), v0, v1, v2, v3),
{
    let out = vpass_spec(buf, w, h, dh, k);
    assert forall|idx: int| 0 <= idx < out.len() implies #[trigger] out[idx] == (if idx % 4 == 0 {
        v0
    } else if idx % 4 == 1 {
        v1
    } else if idx % 4 == 2 {
        v2
    } else {
        v3
    }) by {
        let r = idx / (4 * w);
        let rem = idx % (4 * w);
        let c = rem / 4;
        let ch = rem % 4;
        vstd::arithmetic::div_mod::lemma_fundamental_div_mod(idx, 4 * w);
        vstd::arithmetic::div_mod::lemma_mod_division_less_than_divisor(idx, 4 * w);
        vstd::arithmetic::div_mod::lemma_fundamental_div_mod(rem, 4);
        vstd::arithmetic::div_mod::lemma_mod_division_less_than_divisor(rem, 4);
        assert(4 * w * dh == (4 * w) * dh) by (nonlinear_arith);
        vstd::arithmetic::div_mod::lemma_multiply_divide_lt(idx, 4 * w, dh);
        vstd::arithmetic::div_mod::lemma_div_pos_is_pos(idx, 4 * w);
        assert(rem < 4 * w);
        vstd::arithmetic::div_mod::lemma_multiply_divide_lt(rem, 4, w);
        vstd::arithmetic::div_mod::lemma_div_pos_is_pos(rem, 4);
        let line = col_line(buf, w, h, c, ch);
        assert forall|i: int| 0 <= i < line.len() implies #[trigger] line[i] == (if ch == 0 {
            v0
        } else if ch == 1 {
            v1
        } else if ch == 2 {
            v2
        } else {
            v3
        }) by {
            assert(0 <= i * w + c && 4 * (i * w + c) + ch < 4 * w * h && 4 * (i * w + c) + ch == (i
                * w + c) * 4 + ch) by (nonlinear_arith)
                requires
                    0 <= i < h,
                    0 <= c < w,
                    0 <= ch < 4,
            ;
            vstd::arithmetic::div_mod::lemma_fundamental_div_mod_converse(
                4 * (i * w + c) + ch,
                4,
                i * w + c,
                ch,
            );
        }
        if ch == 0 {
            lemma_sample_const(line, dh, k, r, v0);
        } else if ch == 1 {
            lemma_sample_const(line, dh, k, r, v1);
        } else if ch == 2 {
            lemma_sample_const(line, dh, k, r, v2);
        } else {
            lemma_sample_const(line, dh, k, r, v3);
        }
        assert((4 * w) * r == 4 * (r * w) && 0 <= r * w) by (nonlinear_arith)
            requires
                0 <= r,
                0 <= w,
        ;
        assert(idx == 4 * (r * w + c) + ch && 0 <= r * w + c);
        vstd::arithmetic::div_mod::lemma_fundamental_div_mod_converse(idx, 4, r * w + c, ch);
    }
}

/// The whole separable resample preserves constant channel values.
proof fn lemma_resample_const(buf: Seq<i64>, w: int, h: int, dw: int, dh: int, k: ResampleKernel, v0: i64, v1: i64, v2: i64, v3: i64)
    requires
        1 <= w <= 65535,
        1 <= h <= 65535,
        1 <= dw <= 65535,
        1 <= dh <= 65535,
        buf.len() == 4 * w * h,
        channel_values(buf, v0, v1, v2, v3),
        -SAMPLE_LIMIT <= v0 <= SAMPLE_LIMIT,
        -SAMPLE_LIMIT <= v1 <= SAMPLE_LIMIT,
        -SAMPLE_LIMIT <= v2 <= SAMPLE_LIMIT,
        -SAMPLE_LIMIT <= v3 <= SAMPLE_LIMIT,
    ensures
        resample_spec(buf, w, h, dw, dh, k).len() == 4 * dw * dh,
        channel_values(resample_spec(buf, w, h, dw, dh, k), v0, v1, v2, v3),
{
    lemma_hpass_const(buf, w, h, dw, k, v0, v1, v2, v3);
    lemma_vpass_const(hpass_spec(buf, w, h, dw, k), dw, h, dh, k, v0, v1, v2, v3);
}

/// Decoding a constant fully-opaque byte image gives constant channel
/// values: the gamma-decoded colors, untouched by the opaque alpha, and a
/// full alpha fraction.
proof fn lemma_to_linear_const(w: int, h: int, r: u8, g: u8, b: u8)
    requires
        1 <= w <= 65535,
        1 <= h <= 65535,
    ensures
        to_linear_spec(const_rgba_image(w, h, r, g, b, 255)).len() == 4 * w * h,
        channel_values(
            to_linear_spec(const_rgba_image(w, h, r, g, b, 255)),
            lut(r) as i64,
            lut(g) as i64,
            lut(b) as i64,
            LINEAR_ONE,
        ),
{
    let bytes = const_rgba_image(w, h, r, g, b, 255);
    let out = to_linear_spec(bytes);
    lemma_lut_range(r);
    lemma_lut_range(g);
    lemma_lut_range(b);
    assert forall|idx: int| 0 <= idx < out.len() implies #[trigger] out[idx] == (if idx % 4 == 0 {
        lut(r) as i64
    } else if idx % 4 == 1 {
        lut(g) as i64
    } else if idx % 4 == 2 {
        lut(b) as i64
    } else {
        LINEAR_ONE
    }) by {
        vstd::arithmetic::div_mod::lemma_fundamental_div_mod(idx, 4);
        vstd::arithmetic::div_mod::lemma_mod_division_less_than_divisor(idx, 4);
        let q = idx / 4;
        assert(4 * w * h == (4) * (w * h)) by (nonlinear_arith);
        vstd::arithmetic::div_mod::lemma_multiply_divide_lt(idx, 4, w * h);
        vstd::arithmetic::div_mod::lemma_div_pos_is_pos(idx, 4);
        assert(4 * q + 3 < 4 * w * h) by (nonlinear_arith)
            requires
                0 <= q < w * h,
        ;
        vstd::arithmetic::div_mod::lemma_fundamental_div_mod_converse(4 * q + 3, 4, q, 3);
        assert(bytes[4 * q + 3] == 255);
        if idx % 4 != 3 {
            lemma_rdiv_exact(lut(bytes[idx]), LINEAR_ONE as int);
            assert(premul(lut(bytes[idx]), 255int * 257) == lut(bytes[idx]));
        }
    }
}

/// Encoding constant channel values under a full alpha fraction gives
/// back the constant fully-opaque byte image: demultiplying by full alpha
/// and re-encoding each gamma-decoded color recovers its byte.
proof fn lemma_from_linear_const(buf: Seq<i64>, w: int, h: int, r: u8, g: u8, b: u8)
    requires
        1 <= w <= 65535,
        1 <= h <= 65535,
        buf.len() == 4 * w * h,
        channel_values(buf, lut(r) as i64, lut(g) as i64, lut(b) as i64, LINEAR_ONE),
    ensures
        from_linear_spec(buf) == const_rgba_image(w, h, r, g, b, 255),
{
    let out = from_linear_spec(buf);
    let want = const_rgba_image(w, h, r, g, b, 255);
    lemma_lut_range(r);
    lemma_lut_range(g);
    lemma_lut_range(b);
    assert forall|idx: int| 0 <= idx < out.len() implies out[idx] == want[idx] by {
        vstd::arithmetic::div_mod::lemma_fundamental_div_mod(idx, 4);
        vstd::arithmetic::div_mod::lemma_mod_division_less_than_divisor(idx, 4);
        let q = idx / 4;
        assert(4 * w * h == (4) * (w * h)) by (nonlinear_arith);
        vstd::arithmetic::div_mod::lemma_multiply_divide_lt(idx, 4, w * h);
        vstd::arithmetic::div_mod::lemma_div_pos_is_pos(idx, 4);
        assert(4 * q + 3 < 4 * w * h) by (nonlinear_arith)
            requires
                0 <= q < w * h,
        ;
        vstd::arithmetic::div_mod::lemma_fundamental_div_mod_converse(4 * q + 3, 4, q, 3);
        assert(buf[4 * q + 3] == LINEAR_ONE);
        if idx % 4 == 3 {
            lemma_rdiv_exact(255, LINEAR_ONE as int);
            assert((LINEAR_ONE as int) * 255 == 255 * (LINEAR_ONE as int)) by (nonlinear_arith);
            assert(clamped(rdiv((LINEAR_ONE as int) * 255, LINEAR_ONE as int), 0, 255) == 255);
        } else {
            let c: u8 = if idx % 4 == 0 {
                r
            } else if idx % 4 == 1 {
                g
            } else {
                b
            };
            assert(buf[idx] == lut(c) as i64);
            lemma_rdiv_exact(lut(c), LINEAR_ONE as int);
            assert(demul(lut(c), LINEAR_ONE as int) == lut(c));
            lemma_encode_decode(c);
        }
    }
    assert(out =~= want);
}

/// One pipeline run maps a constant fully-opaque image to the constant
/// fully-opaque image of the destination dimensions, exactly.
pub proof fn lemma_pipeline_const_opaque(w: int, h: int, dw: int, dh: int, k: ResampleKernel, r: u8, g: u8, b: u8)
    requires
        1 <= w <= 65535,
        1 <= h <= 65535,
        1 <= dw <= 65535,
        1 <= dh <= 65535,
    ensures
        pipeline_spec(const_rgba_image(w, h, r, g, b, 255), w, h, dw, dh, k) == const_rgba_image(
            dw,
            dh,
            r,
            g,
            b,
            255,
        ),
{
    if w == dw && h == dh {
        assert(pipeline_spec(const_rgba_image(w, h, r, g, b, 255), w, h, dw, dh, k)
            =~= const_rgba_image(dw, dh, r, g, b, 255));
    } else {
        lemma_lut_range(r);
        lemma_lut_range(g);
        lemma_lut_range(b);
        lemma_to_linear_const(w, h, r, g, b);
        lemma_resample_const(
            to_linear_spec(const_rgba_image(w, h, r, g, b, 255)),
            w,
            h,
            dw,
            dh,
            k,
            lut(r) as i64,
            lut(g) as i64,
            lut(b) as i64,
            LINEAR_ONE,
        );
        lemma_from_linear_const(
            resample_spec(to_linear_spec(const_rgba_image(w, h, r, g, b, 255)), w, h, dw, dh, k),
            dw,
            dh,
            r,
            g,
            b,
        );
    }
}

/// Round-trip stability, exact for constant fully-opaque images: scaling
/// to any dimensions and back to the original dimensions with the same
/// kernel reproduces the original bytes.
pub proof fn lemma_round_trip_constant_opaque(w: int, h: int, dw: int, dh: int, k: ResampleKernel, r: u8, g: u8, b: u8)
    requires
        1 <= w <= 65535,
        1 <= h <= 65535,
        1 <= dw <= 65535,
        1 <= dh <= 65535,
    ensures
        pipeline_spec(
            pipeline_spec(const_rgba_image(w, h, r, g, b, 255), w, h, dw, dh, k),
            dw,
            dh,
            w,
            h,
            k,
        ) == const_rgba_image(w, h, r, g, b, 255),
{
    lemma_pipeline_const_opaque(w, h, dw, dh, k, r, g, b);
    lemma_pipeline_const_opaque(dw, dh, w, h, k, r, g, b);
}

} // verus!
