//! Pipeline orchestrator: converts an 8-bit RGBA buffer into premultiplied
//! linear light, resamples it, and converts it back.  When the destination
//! dimensions equal the source dimensions the original bytes pass through
//! untouched, bypassing the fixed-point round trip entirely.

use vstd::prelude::*;

use crate::ToolKitRustError;
use crate::alpha::demul;
use crate::alpha::demultiply;
use crate::alpha::premul;
use crate::alpha::premultiply;
use crate::fixed::LINEAR_ONE;
use crate::fixed::clamp_i64;
use crate::fixed::clamped;
use crate::fixed::rdiv;
use crate::fixed::rdiv_i64;
use crate::gamma::decode;
use crate::gamma::encode;
use crate::gamma::encode_spec;
use crate::gamma::lemma_lut_range;
use crate::gamma::lut;
use crate::kernel::ResampleKernel;
use crate::resample::SAMPLE_LIMIT;
use crate::resample::resample;
use crate::resample::resample_spec;

verus! {

/// A pixel buffer's color layout, as a decoded image reports it.
#[derive(Clone, Copy, Debug, PartialEq, Eq, Structural)]
pub enum ColorFormat {
    L8,
    La8,
    Rgb8,
    Rgba8,
    L16,
    La16,
    Rgb16,
    Rgba16,
    Rgb32F,
    Rgba32F,
}

/// Whether a decoded buffer is already 4-channel 8-bit RGBA; anything else
/// is normalized before entering the pipeline.
pub fn is_rgba8(c: ColorFormat) -> (r: bool)
    ensures
        r <==> c is Rgba8,
{
    match c {
        ColorFormat::Rgba8 => true,
        _ => false,
    }
}

/// The kernel a caller-facing selector index denotes, if any.
pub open spec fn kernel_index_spec(i: u8) -> Option<ResampleKernel> {
    if i == 0 {
        Some(ResampleKernel::Triangle)
    } else if i == 1 {
        Some(ResampleKernel::CatmullRom)
    } else if i == 2 {
        Some(ResampleKernel::Mitchell)
    } else if i == 3 {
        Some(ResampleKernel::Lanczos3)
    } else {
        None
    }
}

/// Map a kernel selector index to its kernel; an unrecognized selector is
/// a precondition error reported to the caller, never a crash.
pub fn kernel_from_index(i: u8) -> (r: Option<ResampleKernel>)
    ensures
        r == kernel_index_spec(i),
{
    match i {
        0u8 => Some(ResampleKernel::Triangle),
        1u8 => Some(ResampleKernel::CatmullRom),
        2u8 => Some(ResampleKernel::Mitchell),
        3u8 => Some(ResampleKernel::Lanczos3),
        _ => None,
    }
}

/// Gamma-encoded RGBA bytes as premultiplied linear light: color channels
/// are decoded through the gamma table and premultiplied by their pixel's
/// alpha fraction; the alpha channel itself is only rescaled, never
/// gamma-decoded.
pub open spec fn to_linear_spec(bytes: Seq<u8>) -> Seq<i64> {
    Seq::new(
        bytes.len(),
        |idx: int|
            (if idx % 4 == 3 {
                (bytes[idx] as int) * 257
            } else {
                premul(lut(bytes[idx]), (bytes[4 * (idx / 4) + 3] as int) * 257)
            }) as i64,
    )
}

/// Premultiplied linear light as gamma-encoded RGBA bytes: color channels
/// are demultiplied by their pixel's resampled alpha and gamma-encoded;
/// the alpha channel is rescaled with rounding and clamping.
pub open spec fn from_linear_spec(buf: Seq<i64>) -> Seq<u8> {
    Seq::new(
        buf.len(),
        |idx: int|
            (if idx % 4 == 3 {
                clamped(rdiv((buf[idx] as int) * 255, LINEAR_ONE as int), 0, 255)
            } else {
                encode_spec(demul(buf[idx] as int, buf[4 * (idx / 4) + 3] as int))
            }) as u8,
    )
}

/// What the whole conversion returns: the source bytes unchanged when the
/// dimensions already match, and otherwise the resampled image, converted
/// to linear light and back around the resampling core.
pub open spec fn pipeline_spec(
    bytes: Seq<u8>,
    w: int,
    h: int,
    dw: int,
    dh: int,
    k: ResampleKernel,
) -> Seq<u8> {
    if w == dw && h == dh {
        bytes
    } else {
        from_linear_spec(resample_spec(to_linear_spec(bytes), w, h, dw, dh, k))
    }
}

/// Convert gamma-encoded RGBA bytes to premultiplied linear light.
#[verifier::loop_isolation(false)]
pub fn to_linear(src: &Vec<u8>) -> (out: Vec<i64>)
    requires
        src@.len() % 4 == 0,
    ensures
        out@ == to_linear_spec(src@),
        out@.len() == src@.len(),
        forall|i: int| 0 <= i < out@.len() ==> 0 <= #[trigger] out@[i] <= LINEAR_ONE,
{
    let n: usize = src.len();
    let mut out: Vec<i64> = Vec::new();
    let mut p: usize = 0;
    while 4 * p < n
        invariant
            0 <= 4 * p <= n + 3,
            out@.len() == 4 * p,
            forall|t: int| 0 <= t < out@.len() ==> out@[t] == to_linear_spec(src@)[t],
            forall|t: int| 0 <= t < out@.len() ==> 0 <= #[trigger] out@[t] <= LINEAR_ONE,
        decreases n - 4 * p,
    {
        let af: i64 = (src[4 * p + 3] as i64) * 257;
        let ghost pi: int = p as int;
        proof {
            vstd::arithmetic::div_mod::lemma_fundamental_div_mod_converse(4 * pi + 0, 4, pi, 0);
            vstd::arithmetic::div_mod::lemma_fundamental_div_mod_converse(4 * pi + 1, 4, pi, 1);
            vstd::arithmetic::div_mod::lemma_fundamental_div_mod_converse(4 * pi + 2, 4, pi, 2);
            vstd::arithmetic::div_mod::lemma_fundamental_div_mod_converse(4 * pi + 3, 4, pi, 3);
            lemma_lut_range(src@[4 * pi + 0]);
            lemma_lut_range(src@[4 * pi + 1]);
            lemma_lut_range(src@[4 * pi + 2]);
        }
        let v0: i64 = premultiply(decode(src[4 * p + 0]) as i64, af);
        let v1: i64 = premultiply(decode(src[4 * p + 1]) as i64, af);
        let v2: i64 = premultiply(decode(src[4 * p + 2]) as i64, af);
        out.push(v0);
        out.push(v1);
        out.push(v2);
        out.push(af);
        p = p + 1;
    }
    proof {
        assert(out@ =~= to_linear_spec(src@));
    }
    out
}

/// Convert resampled premultiplied linear light back to gamma-encoded RGBA
/// bytes.
#[verifier::loop_isolation(false)]
pub fn from_linear(buf: &Vec<i64>) -> (out: Vec<u8>)
    requires
        buf@.len() % 4 == 0,
        forall|i: int| 0 <= i < buf@.len() ==> -SAMPLE_LIMIT <= #[trigger] buf@[i] <= SAMPLE_LIMIT,
    ensures
        out@ == from_linear_spec(buf@),
        out@.len() == buf@.len(),
{
    let n: usize = buf.len();
    let mut out: Vec<u8> = Vec::new();
    let mut p: usize = 0;
    while 4 * p < n
        invariant
            0 <= 4 * p <= n + 3,
            out@.len() == 4 * p,
            forall|t: int| 0 <= t < out@.len() ==> out@[t] == from_linear_spec(buf@)[t],
        decreases n - 4 * p,
    {
        let a: i64 = buf[4 * p + 3];
        let ghost pi: int = p as int;
        proof {
            vstd::arithmetic::div_mod::lemma_fundamental_div_mod_converse(4 * pi + 0, 4, pi, 0);
            vstd::arithmetic::div_mod::lemma_fundamental_div_mod_converse(4 * pi + 1, 4, pi, 1);
            vstd::arithmetic::div_mod::lemma_fundamental_div_mod_converse(4 * pi + 2, 4, pi, 2);
            vstd::arithmetic::div_mod::lemma_fundamental_div_mod_converse(4 * pi + 3, 4, pi, 3);
        }
        let b0: u8 = encode(demultiply(buf[4 * p + 0], a));
        let b1: u8 = encode(demultiply(buf[4 * p + 1], a));
        let b2: u8 = encode(demultiply(buf[4 * p + 2], a));
        let b3: u8 = clamp_i64(rdiv_i64(a * 255, LINEAR_ONE), 0, 255) as u8;
        out.push(b0);
        out.push(b1);
        out.push(b2);
        out.push(b3);
        p = p + 1;
    }
    proof {
        assert(out@ =~= from_linear_spec(buf@));
    }
    out
}

/// Resample an 8-bit RGBA image onto new dimensions, in premultiplied
/// linear light.  Zero destination dimensions are rejected with an error;
/// matching dimensions return the source bytes unchanged.
pub fn resample_rgba(
    src: &Vec<u8>,
    src_w: u32,
    src_h: u32,
    dst_w: u32,
    dst_h: u32,
    k: ResampleKernel,
) -> (r: Result<Vec<u8>, ToolKitRustError>)
    requires
        1 <= src_w <= 65535,
        1 <= src_h <= 65535,
        dst_w <= 65535,
        dst_h <= 65535,
        src@.len() == 4 * src_w * src_h,
        4 * dst_w * src_h <= usize::MAX,
        4 * dst_w * dst_h <= usize::MAX,
    ensures
        (dst_w == 0 || dst_h == 0) <==> r is Err,
        r is Ok ==> r.unwrap()@ == pipeline_spec(
            src@,
            src_w as int,
            src_h as int,
            dst_w as int,
            dst_h as int,
            k,
        ),
        r is Ok ==> r.unwrap()@.len() == 4 * dst_w * dst_h,
{
    if dst_w == 0 || dst_h == 0 {
        return Err(ToolKitRustError::Error("destination dimensions must be positive".to_owned()));
    }
    if src_w == dst_w && src_h == dst_h {
        let n: usize = src.len();
        let mut out: Vec<u8> = Vec::new();
        let mut i: usize = 0;
        while i < n
            invariant
                0 <= i <= n,
                n == src@.len(),
                out@.len() == i,
                forall|t: int| 0 <= t < i ==> out@[t] == src@[t],
            decreases n - i,
        {
            let b: u8 = src[i];
            out.push(b);
            i = i + 1;
        }
        proof {
            assert(out@ =~= src@);
        }
        return Ok(out);
    }
    let w: usize = src_w as usize;
    let h: usize = src_h as usize;
    let dw: usize = dst_w as usize;
    let dh: usize = dst_h as usize;
    proof {
        assert(((src_w as int) * (src_h as int)) * 4 % 4 == 0) by (nonlinear_arith);
        assert(4 * (src_w as int) * (src_h as int) == ((src_w as int) * (src_h as int)) * 4)
            by (nonlinear_arith);
        assert(((dst_w as int) * (dst_h as int)) * 4 % 4 == 0) by (nonlinear_arith);
        assert(4 * (dst_w as int) * (dst_h as int) == ((dst_w as int) * (dst_h as int)) * 4)
            by (nonlinear_arith);
    }
    let lin: Vec<i64> = to_linear(src);
    let mid: Vec<i64> = resample(&lin, w, h, dw, dh, k);
    let out: Vec<u8> = from_linear(&mid);
    Ok(out)
}

} // verus!
