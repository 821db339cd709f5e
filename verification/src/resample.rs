//! Separable resampler: resamples one scanline of samples onto a new length
//! with a chosen kernel, then whole four-channel images as two 1-D passes,
//! horizontal then vertical.
//!
//! For a destination index `d` the corresponding source position is
//! `s = (d + 0.5) * src_len / dst_len - 0.5`, kept exactly as the rational
//! `pos_num / (2 * dst_len)`.  When downscaling, the kernel support widens
//! by the scale factor; offsets handed to the kernel are divided by the
//! same factor.  Out-of-range taps clamp to the edge, and every output
//! sample is normalized by the sum of the weights actually used.

use vstd::prelude::*;

use crate::fixed::WEIGHT_ONE;
use crate::fixed::ceil_div;
use crate::fixed::ceil_div_i64;
use crate::fixed::clamp_i64;
use crate::fixed::clamped;
use crate::fixed::floor_div;
use crate::fixed::floor_div_i64;
use crate::fixed::rdiv;
use crate::fixed::rdiv_i64;
use crate::gamma::absi;
use crate::kernel::ResampleKernel;
use crate::kernel::support;
use crate::kernel::support_spec;
use crate::kernel::weight;
use crate::kernel::weight_spec;

verus! {

/// Samples fed to and produced by the resampler stay inside this band; it
/// leaves ample headroom over the linear-light scale for the overshoot of
/// negative-lobed kernels.
pub const SAMPLE_LIMIT: i64 = 524280;

/// The larger of two mathematical integers.
pub open spec fn imax(a: int, b: int) -> int {
    if a >= b {
        a
    } else {
        b
    }
}

/// Numerator of the exact source position of destination index `d`: the
/// position is `pos_num / (2 * dst_len)` in source-pixel units.
pub open spec fn pos_num(src_len: int, dst_len: int, d: int) -> int {
    (2 * d + 1) * src_len - dst_len
}

/// First source tap of the support window around destination index `d`,
/// for a kernel of support radius `r`.
pub open spec fn win_lo(src_len: int, dst_len: int, r: int, d: int) -> int {
    floor_div(pos_num(src_len, dst_len, d) - 2 * r * imax(src_len, dst_len), 2 * dst_len)
}

/// Last source tap of the support window around destination index `d`.
pub open spec fn win_hi(src_len: int, dst_len: int, r: int, d: int) -> int {
    ceil_div(pos_num(src_len, dst_len, d) + 2 * r * imax(src_len, dst_len), 2 * dst_len)
}

/// Q16 magnitude of the scaled offset between destination index `d` and
/// source tap `j`; the divisor widens the offset scale when downscaling.
pub open spec fn tap_offset(src_len: int, dst_len: int, d: int, j: int) -> int {
    rdiv(
        absi(pos_num(src_len, dst_len, d) - 2 * j * dst_len) * (WEIGHT_ONE as int),
        2 * imax(src_len, dst_len),
    )
}

/// The kernel weight of source tap `j` for destination index `d`.
pub open spec fn tap_weight(src_len: int, dst_len: int, k: ResampleKernel, d: int, j: int) -> int {
    weight_spec(k, tap_offset(src_len, dst_len, d, j))
}

/// Sum of the tap weights over taps `j..=hi`.
pub open spec fn wsum_from(src_len: int, dst_len: int, k: ResampleKernel, d: int, j: int, hi: int) -> int
    decreases hi + 1 - j,
{
    if j > hi {
        0
    } else {
        tap_weight(src_len, dst_len, k, d, j) + wsum_from(src_len, dst_len, k, d, j + 1, hi)
    }
}

/// Weighted sum of edge-clamped source samples over taps `j..=hi`.
pub open spec fn asum_from(line: Seq<i64>, dst_len: int, k: ResampleKernel, d: int, j: int, hi: int) -> int
    decreases hi + 1 - j,
{
    if j > hi {
        0
    } else {
        tap_weight(line.len() as int, dst_len, k, d, j) * (line[clamped(j, 0, line.len() - 1)] as int)
            + asum_from(line, dst_len, k, d, j + 1, hi)
    }
}

/// The source tap nearest to the exact position of destination index `d`.
pub open spec fn nearest_tap(src_len: int, dst_len: int, d: int) -> int {
    floor_div(pos_num(src_len, dst_len, d) + dst_len, 2 * dst_len)
}

/// One resampled output sample: the normalized weighted sum over the
/// support window, or the nearest source sample if the weights cancel.
pub open spec fn sample_spec(line: Seq<i64>, dst_len: int, k: ResampleKernel, d: int) -> int {
    let sl = line.len() as int;
    let r = support_spec(k);
    let lo = win_lo(sl, dst_len, r, d);
    let hi = win_hi(sl, dst_len, r, d);
    let ws = wsum_from(sl, dst_len, k, d, lo, hi);
    if ws >= 1 {
        clamped(
            rdiv(asum_from(line, dst_len, k, d, lo, hi), ws),
            -(SAMPLE_LIMIT as int),
            SAMPLE_LIMIT as int,
        )
    } else {
        line[clamped(nearest_tap(sl, dst_len, d), 0, sl - 1)] as int
    }
}

/// Shape of the support window: it is nonempty, spans at most
/// `2 * r * imax + 2` extra taps, and every tap in it lies within
/// `2 * r * imax + 2 * dst_len` position units of the destination sample,
/// which keeps its scaled offset inside the kernels' domain.
proof fn lemma_window(sl: int, dl: int, r: int, d: int)
    requires
        1 <= sl <= 65535,
        1 <= dl <= 65535,
        1 <= r <= 3,
        0 <= d < dl,
    ensures
        win_lo(sl, dl, r, d) <= win_hi(sl, dl, r, d),
        win_hi(sl, dl, r, d) - win_lo(sl, dl, r, d) <= 2 * r * imax(sl, dl) + 2,
        -0x8_0000_0000 <= win_lo(sl, dl, r, d) <= 0x8_0000_0000,
        -0x8_0000_0000 <= win_hi(sl, dl, r, d) <= 0x8_0000_0000,
        forall|j: int|
            win_lo(sl, dl, r, d) <= j <= win_hi(sl, dl, r, d) ==> #[trigger] absi(
                pos_num(sl, dl, d) - 2 * j * dl,
            ) <= 2 * r * imax(sl, dl) + 2 * dl,
{
    let a = pos_num(sl, dl, d);
    let m = imax(sl, dl);
    let rm = 2 * r * m;
    let lo = win_lo(sl, dl, r, d);
    let hi = win_hi(sl, dl, r, d);
    assert(0 < (2 * d + 1) * sl <= 131071 * 65535) by (nonlinear_arith)
        requires
            0 <= d < 65536,
            1 <= sl <= 65535,
    ;
    assert(2 <= 2 * r * m <= 6 * 65535) by (nonlinear_arith)
        requires
            1 <= r <= 3,
            1 <= m <= 65535,
    ;
    vstd::arithmetic::div_mod::lemma_fundamental_div_mod(a - rm, 2 * dl);
    vstd::arithmetic::div_mod::lemma_fundamental_div_mod(a + rm, 2 * dl);
    vstd::arithmetic::div_mod::lemma_mod_division_less_than_divisor(a - rm, 2 * dl);
    vstd::arithmetic::div_mod::lemma_mod_division_less_than_divisor(a + rm, 2 * dl);
    let q1 = (a - rm) / (2 * dl);
    let q2 = (a + rm) / (2 * dl);
    assert(lo == q1);
    assert(2 * dl * lo <= a - rm);
    assert(a - rm < 2 * dl * lo + 2 * dl);
    assert(q2 <= hi <= q2 + 1);
    assert(2 * dl * (q2 + 1) == 2 * dl * q2 + 2 * dl) by (nonlinear_arith);
    assert(2 * dl * hi >= a + rm);
    assert(2 * dl * hi <= a + rm + 2 * dl);
    assert(lo <= hi) by (nonlinear_arith)
        requires
            2 * dl * lo <= a - rm,
            2 * dl * hi >= a + rm,
            rm >= 0,
            dl >= 1,
    ;
    assert(hi - lo <= rm + 2) by (nonlinear_arith)
        requires
            2 * dl * lo > a - rm - 2 * dl,
            2 * dl * hi <= a + rm + 2 * dl,
            rm >= 2,
            dl >= 1,
    ;
    assert(-0x8_0000_0000 <= lo <= 0x8_0000_0000) by (nonlinear_arith)
        requires
            2 * dl * lo <= a - rm,
            a - rm < 2 * dl * lo + 2 * dl,
            1 <= dl <= 65535,
            -0x4_0000_0000 <= a - rm <= 0x4_0000_0000,
    ;
    assert(-0x8_0000_0000 <= hi <= 0x8_0000_0000) by (nonlinear_arith)
        requires
            2 * dl * hi >= a + rm,
            2 * dl * hi <= a + rm + 2 * dl,
            1 <= dl <= 65535,
            -0x4_0000_0000 <= a + rm <= 0x4_0000_0000,
    ;
    assert forall|j: int| lo <= j <= hi implies #[trigger] absi(a - 2 * j * dl) <= rm + 2 * dl by {
        assert(2 * dl * j >= 2 * dl * lo && 2 * dl * j <= 2 * dl * hi) by (nonlinear_arith)
            requires
                lo <= j <= hi,
                dl >= 1,
        ;
        assert(2 * j * dl == 2 * dl * j) by (nonlinear_arith);
        assert(a - 2 * dl * j <= a - 2 * dl * lo);
        assert(a - 2 * dl * lo < rm + 2 * dl);
        assert(a - 2 * dl * j >= a - 2 * dl * hi);
        assert(a - 2 * dl * hi >= -rm - 2 * dl);
    }
}

/// Within the support window, a tap's scaled offset stays inside the
/// domain of the kernel weight functions.
proof fn lemma_tap_offset_in_domain(sl: int, dl: int, r: int, d: int, j: int)
    requires
        1 <= sl <= 65535,
        1 <= dl <= 65535,
        1 <= r <= 3,
        0 <= d < dl,
        absi(pos_num(sl, dl, d) - 2 * j * dl) <= 2 * r * imax(sl, dl) + 2 * dl,
    ensures
        0 <= tap_offset(sl, dl, d, j) <= 4 * (WEIGHT_ONE as int),
{
    let m = imax(sl, dl);
    let n = absi(pos_num(sl, dl, d) - 2 * j * dl);
    assert(n <= 8 * m) by (nonlinear_arith)
        requires
            n <= 2 * r * m + 2 * dl,
            1 <= r <= 3,
            1 <= dl <= m,
            1 <= m,
    ;
    assert(n * (WEIGHT_ONE as int) <= 8 * m * (WEIGHT_ONE as int)) by (nonlinear_arith)
        requires
            0 <= n <= 8 * m,
    ;
    assert(8 * m * (WEIGHT_ONE as int) == (4 * (WEIGHT_ONE as int)) * (2 * m)) by (nonlinear_arith);
    crate::fixed::lemma_rdiv_monotone(n * (WEIGHT_ONE as int), (4 * (WEIGHT_ONE as int)) * (2 * m), 2 * m);
    crate::fixed::lemma_rdiv_exact(4 * (WEIGHT_ONE as int), 2 * m);
    crate::fixed::lemma_rdiv_bound(n * (WEIGHT_ONE as int), 2 * m);
    assert(n * (WEIGHT_ONE as int) >= 0) by (nonlinear_arith)
        requires
            n >= 0,
    ;
}

/// Resample one scanline onto `dst_len` samples: the value at destination
/// index `d`.
#[verifier::loop_isolation(false)]
pub fn sample_line(line: &Vec<i64>, dst_len: usize, k: ResampleKernel, d: usize) -> (r: i64)
    requires
        1 <= line@.len() <= 65535,
        1 <= dst_len <= 65535,
        d < dst_len,
        forall|i: int| 0 <= i < line@.len() ==> -SAMPLE_LIMIT <= #[trigger] line@[i] <= SAMPLE_LIMIT,
    ensures
        r as int == sample_spec(line@, dst_len as int, k, d as int),
        -SAMPLE_LIMIT <= r <= SAMPLE_LIMIT,
{
    let sl: i64 = line.len() as i64;
    let dl: i64 = dst_len as i64;
    let dd: i64 = d as i64;
    proof {
        assert(0 < (2 * (dd as int) + 1) * sl <= 131071 * 65535) by (nonlinear_arith)
            requires
                0 <= dd < 65536,
                1 <= sl <= 65535,
        ;
    }
    let a: i64 = (2 * dd + 1) * sl - dl;
    let m: i64 = if sl >= dl {
        sl
    } else {
        dl
    };
    let rs: i64 = support(k);
    proof {
        assert(2 <= 2 * (rs as int) * m <= 6 * 65535) by (nonlinear_arith)
            requires
                1 <= rs <= 3,
                1 <= m <= 65535,
        ;
        lemma_window(sl as int, dl as int, rs as int, dd as int);
    }
    let lo: i64 = floor_div_i64(a - 2 * rs * m, 2 * dl);
    let hi: i64 = ceil_div_i64(a + 2 * rs * m, 2 * dl);
    let ghost sli: int = sl as int;
    let ghost dli: int = dl as int;
    let ghost di: int = dd as int;
    let mut j: i64 = hi;
    let mut acc: i64 = 0;
    let mut ws: i64 = 0;
    while j >= lo
        invariant
            lo - 1 <= j <= hi,
            acc == asum_from(line@, dli, k, di, j + 1, hi as int),
            ws == wsum_from(sli, dli, k, di, j + 1, hi as int),
            -(hi - j) * 0x20_0000_0000 <= acc <= (hi - j) * 0x20_0000_0000,
            -(hi - j) * 0x4_0000 <= ws <= (hi - j) * 0x4_0000,
        decreases j - lo + 1,
    {
        proof {
            assert(2 * (j as int) * dli <= 2 * (hi as int) * dli && 2 * (j as int) * dli >= 2 * (
            lo as int) * dli) by (nonlinear_arith)
                requires
                    lo <= j <= hi,
                    dli >= 1,
            ;
            assert(-0x100_0000_0000_0000 <= 2 * (j as int) * dli <= 0x100_0000_0000_0000)
                by (nonlinear_arith)
                requires
                    -0x8_0000_0000 <= j <= 0x8_0000_0000,
                    1 <= dli <= 65535,
            ;
        }
        let num: i64 = a - 2 * j * dl;
        let absn: i64 = if num < 0 {
            -num
        } else {
            num
        };
        proof {
            lemma_tap_offset_in_domain(sli, dli, rs as int, di, j as int);
            assert((absn as int) * (WEIGHT_ONE as int) <= 0x8_0000 * 65536) by (nonlinear_arith)
                requires
                    0 <= absn <= 0x8_0000,
            ;
        }
        let x: i64 = rdiv_i64(absn * WEIGHT_ONE, 2 * m);
        let w: i64 = weight(k, x);
        let idx: i64 = clamp_i64(j, 0, sl - 1);
        let sv: i64 = line[idx as usize];
        proof {
            assert(-0x20_0000_0000 <= (w as int) * sv <= 0x20_0000_0000) by (nonlinear_arith)
                requires
                    -0x4_0000 <= w <= 0x4_0000,
                    -0x8_0000 <= sv <= 0x8_0000,
            ;
        }
        acc = acc + w * sv;
        ws = ws + w;
        j = j - 1;
    }
    if ws >= 1 {
        clamp_i64(rdiv_i64(acc, ws), -SAMPLE_LIMIT, SAMPLE_LIMIT)
    } else {
        let nt: i64 = floor_div_i64(a + dl, 2 * dl);
        let idx: i64 = clamp_i64(nt, 0, sl - 1);
        line[idx as usize]
    }
}


/// The samples of row `r`, channel `ch`, of a flat row-major buffer of
/// width `w`.
pub open spec fn row_line(buf: Seq<i64>, w: int, r: int, ch: int) -> Seq<i64> {
    Seq::new(w as nat, |i: int| buf[4 * (r * w + i) + ch])
}

/// The samples of column `c`, channel `ch`, of a flat row-major buffer of
/// width `w` and height `h`.
pub open spec fn col_line(buf: Seq<i64>, w: int, h: int, c: int, ch: int) -> Seq<i64> {
    Seq::new(h as nat, |i: int| buf[4 * (i * w + c) + ch])
}

/// The horizontal pass: every row resampled from width `w` onto width `dw`.
pub open spec fn hpass_spec(src: Seq<i64>, w: int, h: int, dw: int, k: ResampleKernel) -> Seq<i64> {
    Seq::new(
        (4 * dw * h) as nat,
        |idx: int|
            (sample_spec(
                row_line(src, w, idx / (4 * dw), (idx % (4 * dw)) % 4),
                dw,
                k,
                (idx % (4 * dw)) / 4,
            )) as i64,
    )
}

/// The vertical pass: every column resampled from height `h` onto height
/// `dh`.
pub open spec fn vpass_spec(mid: Seq<i64>, w: int, h: int, dh: int, k: ResampleKernel) -> Seq<i64> {
    Seq::new(
        (4 * w * dh) as nat,
        |idx: int|
            (sample_spec(
                col_line(mid, w, h, (idx % (4 * w)) / 4, (idx % (4 * w)) % 4),
                dh,
                k,
                idx / (4 * w),
            )) as i64,
    )
}

/// The full separable resample: the horizontal pass, then the vertical one.
pub open spec fn resample_spec(src: Seq<i64>, w: int, h: int, dw: int, dh: int, k: ResampleKernel) -> Seq<i64> {
    vpass_spec(hpass_spec(src, w, h, dw, k), dw, h, dh, k)
}

/// How a flat row-major index splits into row, column and channel.
proof fn lemma_idx_decompose(w: int, r: int, d: int, ch: int)
    requires
        0 <= r,
        1 <= w,
        0 <= d < w,
        0 <= ch < 4,
    ensures
        (4 * (r * w + d) + ch) / (4 * w) == r,
        ((4 * (r * w + d) + ch) % (4 * w)) / 4 == d,
        ((4 * (r * w + d) + ch) % (4 * w)) % 4 == ch,
{
    assert(4 * (r * w + d) + ch == r * (4 * w) + (4 * d + ch)) by (nonlinear_arith)
        requires
            0 <= r,
            1 <= w,
            0 <= d < w,
            0 <= ch < 4,
    ;
    vstd::arithmetic::div_mod::lemma_fundamental_div_mod_converse(
        4 * (r * w + d) + ch,
        4 * w,
        r,
        4 * d + ch,
    );
    vstd::arithmetic::div_mod::lemma_fundamental_div_mod_converse(4 * d + ch, 4, d, ch);
}

/// One output sample of the horizontal pass.
#[verifier::loop_isolation(false)]
fn hsample(src: &Vec<i64>, w: usize, h: usize, dw: usize, k: ResampleKernel, r: usize, d: usize, ch: usize) -> (out: i64)
    requires
        1 <= w <= 65535,
        1 <= h <= 65535,
        1 <= dw <= 65535,
        src@.len() == 4 * w * h,
        r < h,
        d < dw,
        ch < 4,
        forall|i: int| 0 <= i < src@.len() ==> -SAMPLE_LIMIT <= #[trigger] src@[i] <= SAMPLE_LIMIT,
    ensures
        out as int == sample_spec(row_line(src@, w as int, r as int, ch as int), dw as int, k, d as int),
        -SAMPLE_LIMIT <= out <= SAMPLE_LIMIT,
{
    let mut line: Vec<i64> = Vec::new();
    let n: usize = src.len();
    proof {
        assert((r as int) * w <= 65534 * 65535 && 4 * ((r as int) * w + w) <= 4 * (w as int) * h)
            by (nonlinear_arith)
            requires
                0 <= r < h <= 65535,
                1 <= w <= 65535,
        ;
    }
    let base: usize = 4 * (r * w) + ch;
    let mut i: usize = 0;
    while i < w
        invariant
            0 <= i <= w,
            line@.len() == i,
            forall|t: int| 0 <= t < i ==> line@[t] == src@[4 * ((r as int) * w + t) + ch],
            forall|t: int|
                0 <= t < i ==> -SAMPLE_LIMIT <= #[trigger] line@[t] <= SAMPLE_LIMIT,
        decreases w - i,
    {
        let v: i64 = src[base + 4 * i];
        line.push(v);
        i = i + 1;
    }
    proof {
        assert(line@ =~= row_line(src@, w as int, r as int, ch as int));
    }
    sample_line(&line, dw, k, d)
}

/// One output sample of the vertical pass.
#[verifier::loop_isolation(false)]
fn vsample(mid: &Vec<i64>, w: usize, h: usize, dh: usize, k: ResampleKernel, rr: usize, c: usize, ch: usize) -> (out: i64)
    requires
        1 <= w <= 65535,
        1 <= h <= 65535,
        1 <= dh <= 65535,
        mid@.len() == 4 * w * h,
        rr < dh,
        c < w,
        ch < 4,
        forall|i: int| 0 <= i < mid@.len() ==> -SAMPLE_LIMIT <= #[trigger] mid@[i] <= SAMPLE_LIMIT,
    ensures
        out as int == sample_spec(col_line(mid@, w as int, h as int, c as int, ch as int), dh as int, k, rr as int),
        -SAMPLE_LIMIT <= out <= SAMPLE_LIMIT,
{
    let mut line: Vec<i64> = Vec::new();
    let n: usize = mid.len();
    let mut i: usize = 0;
    while i < h
        invariant
            0 <= i <= h,
            line@.len() == i,
            forall|t: int| 0 <= t < i ==> line@[t] == mid@[4 * (t * w + c) + ch],
            forall|t: int|
                0 <= t < i ==> -SAMPLE_LIMIT <= #[trigger] line@[t] <= SAMPLE_LIMIT,
        decreases h - i,
    {
        proof {
            assert(4 * ((i as int) * w + c) + ch < 4 * (w as int) * h) by (nonlinear_arith)
                requires
                    0 <= i < h <= 65535,
                    0 <= c < w <= 65535,
                    0 <= ch < 4,
            ;
            assert((i as int) * w >= 0) by (nonlinear_arith)
                requires
                    0 <= i,
                    0 <= w,
            ;
        }
        let v: i64 = mid[4 * (i * w + c) + ch];
        line.push(v);
        i = i + 1;
    }
    proof {
        assert(line@ =~= col_line(mid@, w as int, h as int, c as int, ch as int));
    }
    sample_line(&line, dh, k, rr)
}

/// Resample a four-channel image from `w x h` onto `dw x dh` with kernel
/// `k`: the horizontal pass onto `dw x h`, then the vertical pass onto
/// `dw x dh`.  Samples are linear-light fixed-point values.
#[verifier::loop_isolation(false)]
#[verifier::rlimit(60)]
pub fn resample(src: &Vec<i64>, w: usize, h: usize, dw: usize, dh: usize, k: ResampleKernel) -> (out: Vec<i64>)
    requires
        1 <= w <= 65535,
        1 <= h <= 65535,
        1 <= dw <= 65535,
        1 <= dh <= 65535,
        src@.len() == 4 * w * h,
        4 * dw * h <= usize::MAX,
        4 * dw * dh <= usize::MAX,
        forall|i: int| 0 <= i < src@.len() ==> -SAMPLE_LIMIT <= #[trigger] src@[i] <= SAMPLE_LIMIT,
    ensures
        out@.len() == 4 * dw * dh,
        out@ == resample_spec(src@, w as int, h as int, dw as int, dh as int, k),
        forall|i: int| 0 <= i < out@.len() ==> -SAMPLE_LIMIT <= #[trigger] out@[i] <= SAMPLE_LIMIT,
{
    let ghost wi: int = w as int;
    let ghost hi_g: int = h as int;
    let ghost dwi: int = dw as int;
    let ghost dhi: int = dh as int;
    let mut mid: Vec<i64> = Vec::new();
    let mut r: usize = 0;
    while r < h
        invariant
            0 <= r <= h,
            mid@.len() == 4 * dwi * r,
            forall|t: int| 0 <= t < mid@.len() ==> mid@[t] == hpass_spec(src@, wi, hi_g, dwi, k)[t],
            forall|t: int|
                0 <= t < mid@.len() ==> -SAMPLE_LIMIT <= #[trigger] mid@[t] <= SAMPLE_LIMIT,
        decreases h - r,
    {
        let mut d: usize = 0;
        while d < dw
            invariant
                0 <= d <= dw,
                0 <= r < h,
                mid@.len() == 4 * dwi * r + 4 * d,
                forall|t: int|
                    0 <= t < mid@.len() ==> mid@[t] == hpass_spec(src@, wi, hi_g, dwi, k)[t],
                forall|t: int|
                    0 <= t < mid@.len() ==> -SAMPLE_LIMIT <= #[trigger] mid@[t] <= SAMPLE_LIMIT,
            decreases dw - d,
        {
            proof {
                assert(4 * dwi * r + 4 * d + 4 <= 4 * dwi * hi_g && 4 * dwi * (r + 1) == 4 * dwi
                    * r + 4 * dwi && 4 * ((r as int) * dwi + d) == 4 * dwi * r + 4 * d)
                    by (nonlinear_arith)
                    requires
                        0 <= r < hi_g,
                        0 <= d < dwi,
                        1 <= dwi,
                ;
                lemma_idx_decompose(dwi, r as int, d as int, 0);
                lemma_idx_decompose(dwi, r as int, d as int, 1);
                lemma_idx_decompose(dwi, r as int, d as int, 2);
                lemma_idx_decompose(dwi, r as int, d as int, 3);
            }
            let s0: i64 = hsample(src, w, h, dw, k, r, d, 0);
            let s1: i64 = hsample(src, w, h, dw, k, r, d, 1);
            let s2: i64 = hsample(src, w, h, dw, k, r, d, 2);
            let s3: i64 = hsample(src, w, h, dw, k, r, d, 3);
            mid.push(s0);
            mid.push(s1);
            mid.push(s2);
            mid.push(s3);
            d = d + 1;
        }
        proof {
            assert(4 * dwi * ((r as int) + 1) == 4 * dwi * r + 4 * dwi) by (nonlinear_arith);
        }
        r = r + 1;
    }
    proof {
        assert(mid@ =~= hpass_spec(src@, wi, hi_g, dwi, k));
    }
    let mut out: Vec<i64> = Vec::new();
    let mut rr: usize = 0;
    while rr < dh
        invariant
            0 <= rr <= dh,
            mid@.len() == 4 * dwi * hi_g,
            mid@ == hpass_spec(src@, wi, hi_g, dwi, k),
            forall|t: int|
                0 <= t < mid@.len() ==> -SAMPLE_LIMIT <= #[trigger] mid@[t] <= SAMPLE_LIMIT,
            out@.len() == 4 * dwi * rr,
            forall|t: int|
                0 <= t < out@.len() ==> out@[t] == vpass_spec(
                    hpass_spec(src@, wi, hi_g, dwi, k),
                    dwi,
                    hi_g,
                    dhi,
                    k,
                )[t],
            forall|t: int|
                0 <= t < out@.len() ==> -SAMPLE_LIMIT <= #[trigger] out@[t] <= SAMPLE_LIMIT,
        decreases dh - rr,
    {
        let mut c: usize = 0;
        while c < dw
            invariant
                0 <= c <= dw,
                0 <= rr < dh,
                mid@.len() == 4 * dwi * hi_g,
                mid@ == hpass_spec(src@, wi, hi_g, dwi, k),
                forall|t: int|
                    0 <= t < mid@.len() ==> -SAMPLE_LIMIT <= #[trigger] mid@[t] <= SAMPLE_LIMIT,
                out@.len() == 4 * dwi * rr + 4 * c,
                forall|t: int|
                    0 <= t < out@.len() ==> out@[t] == vpass_spec(
                        hpass_spec(src@, wi, hi_g, dwi, k),
                        dwi,
                        hi_g,
                        dhi,
                        k,
                    )[t],
                forall|t: int|
                    0 <= t < out@.len() ==> -SAMPLE_LIMIT <= #[trigger] out@[t] <= SAMPLE_LIMIT,
            decreases dw - c,
        {
            proof {
                assert(4 * dwi * rr + 4 * c + 4 <= 4 * dwi * dhi && 4 * dwi * (rr + 1) == 4 * dwi
                    * rr + 4 * dwi && 4 * ((rr as int) * dwi + c) == 4 * dwi * rr + 4 * c)
                    by (nonlinear_arith)
                    requires
                        0 <= rr < dhi,
                        0 <= c < dwi,
                        1 <= dwi,
                ;
                lemma_idx_decompose(dwi, rr as int, c as int, 0);
                lemma_idx_decompose(dwi, rr as int, c as int, 1);
                lemma_idx_decompose(dwi, rr as int, c as int, 2);
                lemma_idx_decompose(dwi, rr as int, c as int, 3);
            }
            let s0: i64 = vsample(&mid, dw, h, dh, k, rr, c, 0);
            let s1: i64 = vsample(&mid, dw, h, dh, k, rr, c, 1);
            let s2: i64 = vsample(&mid, dw, h, dh, k, rr, c, 2);
            let s3: i64 = vsample(&mid, dw, h, dh, k, rr, c, 3);
            out.push(s0);
            out.push(s1);
            out.push(s2);
            out.push(s3);
            c = c + 1;
        }
        proof {
            assert(4 * dwi * ((rr as int) + 1) == 4 * dwi * rr + 4 * dwi) by (nonlinear_arith);
        }
        rr = rr + 1;
    }
    proof {
        assert(out@ =~= resample_spec(src@, wi, hi_g, dwi, dhi, k));
    }
    out
}

} // verus!

