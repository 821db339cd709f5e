//! Gamma codec: the sRGB transfer function on 8-bit samples, in fixed point.
//!
//! `decode` maps a gamma-encoded 8-bit sample to a linear-light value in
//! `0..=LINEAR_ONE` through a 256-entry table; `encode` is its rounding
//! inverse, picking the 8-bit sample whose table entry lies nearest to a
//! given linear value.

use vstd::prelude::*;

use crate::fixed::clamped;
use crate::fixed::clamp_i64;

verus! {

/// The precomputed gamma table: the linear-light value of the 8-bit sample
/// `x`, scaled so that 1.0 is 65535.  Entry `x` is the sRGB transfer
/// function applied to `x / 255`.
pub open spec fn lut(x: u8) -> int {
    match x {
        0u8 => 0,
        1u8 => 20,
        2u8 => 40,
        3u8 => 60,
        4u8 => 80,
        5u8 => 99,
        6u8 => 119,
        7u8 => 139,
        8u8 => 159,
        9u8 => 179,
        10u8 => 199,
        11u8 => 219,
        12u8 => 241,
        13u8 => 264,
        14u8 => 288,
        15u8 => 313,
        16u8 => 340,
        17u8 => 367,
        18u8 => 396,
        19u8 => 427,
        20u8 => 458,
        21u8 => 491,
        22u8 => 526,
        23u8 => 562,
        24u8 => 599,
        25u8 => 637,
        26u8 => 677,
        27u8 => 718,
        28u8 => 761,
        29u8 => 805,
        30u8 => 851,
        31u8 => 898,
        32u8 => 947,
        33u8 => 997,
        34u8 => 1048,
        35u8 => 1101,
        36u8 => 1156,
        37u8 => 1212,
        38u8 => 1270,
        39u8 => 1330,
        40u8 => 1391,
        41u8 => 1453,
        42u8 => 1517,
        43u8 => 1583,
        44u8 => 1651,
        45u8 => 1720,
        46u8 => 1790,
        47u8 => 1863,
        48u8 => 1937,
        49u8 => 2013,
        50u8 => 2090,
        51u8 => 2170,
        52u8 => 2250,
        53u8 => 2333,
        54u8 => 2418,
        55u8 => 2504,
        56u8 => 2592,
        57u8 => 2681,
        58u8 => 2773,
        59u8 => 2866,
        60u8 => 2961,
        61u8 => 3058,
        62u8 => 3157,
        63u8 => 3258,
        64u8 => 3360,
        65u8 => 3464,
        66u8 => 3570,
        67u8 => 3678,
        68u8 => 3788,
        69u8 => 3900,
        70u8 => 4014,
        71u8 => 4129,
        72u8 => 4247,
        73u8 => 4366,
        74u8 => 4488,
        75u8 => 4611,
        76u8 => 4736,
        77u8 => 4864,
        78u8 => 4993,
        79u8 => 5124,
        80u8 => 5257,
        81u8 => 5392,
        82u8 => 5530,
        83u8 => 5669,
        84u8 => 5810,
        85u8 => 5953,
        86u8 => 6099,
        87u8 => 6246,
        88u8 => 6395,
        89u8 => 6547,
        90u8 => 6700,
        91u8 => 6856,
        92u8 => 7014,
        93u8 => 7174,
        94u8 => 7335,
        95u8 => 7500,
        96u8 => 7666,
        97u8 => 7834,
        98u8 => 8004,
        99u8 => 8177,
        100u8 => 8352,
        101u8 => 8528,
        102u8 => 8708,
        103u8 => 8889,
        104u8 => 9072,
        105u8 => 9258,
        106u8 => 9445,
        107u8 => 9635,
        108u8 => 9828,
        109u8 => 10022,
        110u8 => 10219,
        111u8 => 10417,
        112u8 => 10619,
        113u8 => 10822,
        114u8 => 11028,
        115u8 => 11235,
        116u8 => 11446,
        117u8 => 11658,
        118u8 => 11873,
        119u8 => 12090,
        120u8 => 12309,
        121u8 => 12530,
        122u8 => 12754,
        123u8 => 12980,
        124u8 => 13209,
        125u8 => 13440,
        126u8 => 13673,
        127u8 => 13909,
        128u8 => 14146,
        129u8 => 14387,
        130u8 => 14629,
        131u8 => 14874,
        132u8 => 15122,
        133u8 => 15371,
        134u8 => 15623,
        135u8 => 15878,
        136u8 => 16135,
        137u8 => 16394,
        138u8 => 16656,
        139u8 => 16920,
        140u8 => 17187,
        141u8 => 17456,
        142u8 => 17727,
        143u8 => 18001,
        144u8 => 18277,
        145u8 => 18556,
        146u8 => 18837,
        147u8 => 19121,
        148u8 => 19407,
        149u8 => 19696,
        150u8 => 19987,
        151u8 => 20281,
        152u8 => 20577,
        153u8 => 20876,
        154u8 => 21177,
        155u8 => 21481,
        156u8 => 21787,
        157u8 => 22096,
        158u8 => 22407,
        159u8 => 22721,
        160u8 => 23038,
        161u8 => 23357,
        162u8 => 23678,
        163u8 => 24002,
        164u8 => 24329,
        165u8 => 24658,
        166u8 => 24990,
        167u8 => 25325,
        168u8 => 25662,
        169u8 => 26001,
        170u8 => 26344,
        171u8 => 26688,
        172u8 => 27036,
        173u8 => 27386,
        174u8 => 27739,
        175u8 => 28094,
        176u8 => 28452,
        177u8 => 28813,
        178u8 => 29176,
        179u8 => 29542,
        180u8 => 29911,
        181u8 => 30282,
        182u8 => 30656,
        183u8 => 31033,
        184u8 => 31412,
        185u8 => 31794,
        186u8 => 32179,
        187u8 => 32567,
        188u8 => 32957,
        189u8 => 33350,
        190u8 => 33745,
        191u8 => 34143,
        192u8 => 34544,
        193u8 => 34948,
        194u8 => 35355,
        195u8 => 35764,
        196u8 => 36176,
        197u8 => 36591,
        198u8 => 37008,
        199u8 => 37429,
        200u8 => 37852,
        201u8 => 38278,
        202u8 => 38706,
        203u8 => 39138,
        204u8 => 39572,
        205u8 => 40009,
        206u8 => 40449,
        207u8 => 40891,
        208u8 => 41337,
        209u8 => 41785,
        210u8 => 42236,
        211u8 => 42690,
        212u8 => 43147,
        213u8 => 43606,
        214u8 => 44069,
        215u8 => 44534,
        216u8 => 45002,
        217u8 => 45473,
        218u8 => 45947,
        219u8 => 46423,
        220u8 => 46903,
        221u8 => 47385,
        222u8 => 47871,
        223u8 => 48359,
        224u8 => 48850,
        225u8 => 49344,
        226u8 => 49841,
        227u8 => 50341,
        228u8 => 50844,
        229u8 => 51349,
        230u8 => 51858,
        231u8 => 52369,
        232u8 => 52884,
        233u8 => 53401,
        234u8 => 53921,
        235u8 => 54445,
        236u8 => 54971,
        237u8 => 55500,
        238u8 => 56032,
        239u8 => 56567,
        240u8 => 57105,
        241u8 => 57646,
        242u8 => 58190,
        243u8 => 58737,
        244u8 => 59287,
        245u8 => 59840,
        246u8 => 60396,
        247u8 => 60955,
        248u8 => 61517,
        249u8 => 62082,
        250u8 => 62650,
        251u8 => 63221,
        252u8 => 63795,
        253u8 => 64372,
        254u8 => 64952,
        255u8 => 65535,
    }
}

/// Gamma-decode an 8-bit sample to linear light; a table lookup.
pub fn decode(x: u8) -> (r: u16)
    ensures
        r as int == lut(x),
{
    match x {
        0u8 => 0u16,
        1u8 => 20u16,
        2u8 => 40u16,
        3u8 => 60u16,
        4u8 => 80u16,
        5u8 => 99u16,
        6u8 => 119u16,
        7u8 => 139u16,
        8u8 => 159u16,
        9u8 => 179u16,
        10u8 => 199u16,
        11u8 => 219u16,
        12u8 => 241u16,
        13u8 => 264u16,
        14u8 => 288u16,
        15u8 => 313u16,
        16u8 => 340u16,
        17u8 => 367u16,
        18u8 => 396u16,
        19u8 => 427u16,
        20u8 => 458u16,
        21u8 => 491u16,
        22u8 => 526u16,
        23u8 => 562u16,
        24u8 => 599u16,
        25u8 => 637u16,
        26u8 => 677u16,
        27u8 => 718u16,
        28u8 => 761u16,
        29u8 => 805u16,
        30u8 => 851u16,
        31u8 => 898u16,
        32u8 => 947u16,
        33u8 => 997u16,
        34u8 => 1048u16,
        35u8 => 1101u16,
        36u8 => 1156u16,
        37u8 => 1212u16,
        38u8 => 1270u16,
        39u8 => 1330u16,
        40u8 => 1391u16,
        41u8 => 1453u16,
        42u8 => 1517u16,
        43u8 => 1583u16,
        44u8 => 1651u16,
        45u8 => 1720u16,
        46u8 => 1790u16,
        47u8 => 1863u16,
        48u8 => 1937u16,
        49u8 => 2013u16,
        50u8 => 2090u16,
        51u8 => 2170u16,
        52u8 => 2250u16,
        53u8 => 2333u16,
        54u8 => 2418u16,
        55u8 => 2504u16,
        56u8 => 2592u16,
        57u8 => 2681u16,
        58u8 => 2773u16,
        59u8 => 2866u16,
        60u8 => 2961u16,
        61u8 => 3058u16,
        62u8 => 3157u16,
        63u8 => 3258u16,
        64u8 => 3360u16,
        65u8 => 3464u16,
        66u8 => 3570u16,
        67u8 => 3678u16,
        68u8 => 3788u16,
        69u8 => 3900u16,
        70u8 => 4014u16,
        71u8 => 4129u16,
        72u8 => 4247u16,
        73u8 => 4366u16,
        74u8 => 4488u16,
        75u8 => 4611u16,
        76u8 => 4736u16,
        77u8 => 4864u16,
        78u8 => 4993u16,
        79u8 => 5124u16,
        80u8 => 5257u16,
        81u8 => 5392u16,
        82u8 => 5530u16,
        83u8 => 5669u16,
        84u8 => 5810u16,
        85u8 => 5953u16,
        86u8 => 6099u16,
        87u8 => 6246u16,
        88u8 => 6395u16,
        89u8 => 6547u16,
        90u8 => 6700u16,
        91u8 => 6856u16,
        92u8 => 7014u16,
        93u8 => 7174u16,
        94u8 => 7335u16,
        95u8 => 7500u16,
        96u8 => 7666u16,
        97u8 => 7834u16,
        98u8 => 8004u16,
        99u8 => 8177u16,
        100u8 => 8352u16,
        101u8 => 8528u16,
        102u8 => 8708u16,
        103u8 => 8889u16,
        104u8 => 9072u16,
        105u8 => 9258u16,
        106u8 => 9445u16,
        107u8 => 9635u16,
        108u8 => 9828u16,
        109u8 => 10022u16,
        110u8 => 10219u16,
        111u8 => 10417u16,
        112u8 => 10619u16,
        113u8 => 10822u16,
        114u8 => 11028u16,
        115u8 => 11235u16,
        116u8 => 11446u16,
        117u8 => 11658u16,
        118u8 => 11873u16,
        119u8 => 12090u16,
        120u8 => 12309u16,
        121u8 => 12530u16,
        122u8 => 12754u16,
        123u8 => 12980u16,
        124u8 => 13209u16,
        125u8 => 13440u16,
        126u8 => 13673u16,
        127u8 => 13909u16,
        128u8 => 14146u16,
        129u8 => 14387u16,
        130u8 => 14629u16,
        131u8 => 14874u16,
        132u8 => 15122u16,
        133u8 => 15371u16,
        134u8 => 15623u16,
        135u8 => 15878u16,
        136u8 => 16135u16,
        137u8 => 16394u16,
        138u8 => 16656u16,
        139u8 => 16920u16,
        140u8 => 17187u16,
        141u8 => 17456u16,
        142u8 => 17727u16,
        143u8 => 18001u16,
        144u8 => 18277u16,
        145u8 => 18556u16,
        146u8 => 18837u16,
        147u8 => 19121u16,
        148u8 => 19407u16,
        149u8 => 19696u16,
        150u8 => 19987u16,
        151u8 => 20281u16,
        152u8 => 20577u16,
        153u8 => 20876u16,
        154u8 => 21177u16,
        155u8 => 21481u16,
        156u8 => 21787u16,
        157u8 => 22096u16,
        158u8 => 22407u16,
        159u8 => 22721u16,
        160u8 => 23038u16,
        161u8 => 23357u16,
        162u8 => 23678u16,
        163u8 => 24002u16,
        164u8 => 24329u16,
        165u8 => 24658u16,
        166u8 => 24990u16,
        167u8 => 25325u16,
        168u8 => 25662u16,
        169u8 => 26001u16,
        170u8 => 26344u16,
        171u8 => 26688u16,
        172u8 => 27036u16,
        173u8 => 27386u16,
        174u8 => 27739u16,
        175u8 => 28094u16,
        176u8 => 28452u16,
        177u8 => 28813u16,
        178u8 => 29176u16,
        179u8 => 29542u16,
        180u8 => 29911u16,
        181u8 => 30282u16,
        182u8 => 30656u16,
        183u8 => 31033u16,
        184u8 => 31412u16,
        185u8 => 31794u16,
        186u8 => 32179u16,
        187u8 => 32567u16,
        188u8 => 32957u16,
        189u8 => 33350u16,
        190u8 => 33745u16,
        191u8 => 34143u16,
        192u8 => 34544u16,
        193u8 => 34948u16,
        194u8 => 35355u16,
        195u8 => 35764u16,
        196u8 => 36176u16,
        197u8 => 36591u16,
        198u8 => 37008u16,
        199u8 => 37429u16,
        200u8 => 37852u16,
        201u8 => 38278u16,
        202u8 => 38706u16,
        203u8 => 39138u16,
        204u8 => 39572u16,
        205u8 => 40009u16,
        206u8 => 40449u16,
        207u8 => 40891u16,
        208u8 => 41337u16,
        209u8 => 41785u16,
        210u8 => 42236u16,
        211u8 => 42690u16,
        212u8 => 43147u16,
        213u8 => 43606u16,
        214u8 => 44069u16,
        215u8 => 44534u16,
        216u8 => 45002u16,
        217u8 => 45473u16,
        218u8 => 45947u16,
        219u8 => 46423u16,
        220u8 => 46903u16,
        221u8 => 47385u16,
        222u8 => 47871u16,
        223u8 => 48359u16,
        224u8 => 48850u16,
        225u8 => 49344u16,
        226u8 => 49841u16,
        227u8 => 50341u16,
        228u8 => 50844u16,
        229u8 => 51349u16,
        230u8 => 51858u16,
        231u8 => 52369u16,
        232u8 => 52884u16,
        233u8 => 53401u16,
        234u8 => 53921u16,
        235u8 => 54445u16,
        236u8 => 54971u16,
        237u8 => 55500u16,
        238u8 => 56032u16,
        239u8 => 56567u16,
        240u8 => 57105u16,
        241u8 => 57646u16,
        242u8 => 58190u16,
        243u8 => 58737u16,
        244u8 => 59287u16,
        245u8 => 59840u16,
        246u8 => 60396u16,
        247u8 => 60955u16,
        248u8 => 61517u16,
        249u8 => 62082u16,
        250u8 => 62650u16,
        251u8 => 63221u16,
        252u8 => 63795u16,
        253u8 => 64372u16,
        254u8 => 64952u16,
        255u8 => 65535u16,
    }
}

/// Every table entry lies in the linear-light range `0..=65535`.
pub proof fn lemma_lut_range(x: u8)
    ensures
        0 <= lut(x) <= 65535,
{
}

/// Adjacent table entries are strictly increasing.
#[verifier::rlimit(60)]
pub proof fn lemma_lut_step(x: u8)
    requires
        x < 255,
    ensures
        lut(x) < lut((x + 1) as u8),
{
}

/// The gamma table is strictly monotone: a brighter gamma sample decodes to
/// a strictly brighter linear value.
pub proof fn lemma_decode_strict_monotone(a: u8, b: u8)
    requires
        a < b,
    ensures
        lut(a) < lut(b),
    decreases b - a,
{
    lemma_lut_step((b - 1) as u8);
    if a < b - 1 {
        lemma_decode_strict_monotone(a, (b - 1) as u8);
    }
}

/// The gamma table is monotone non-decreasing over the whole 8-bit domain.
pub proof fn lemma_decode_monotone(a: u8, b: u8)
    requires
        a <= b,
    ensures
        lut(a) <= lut(b),
{
    if a < b {
        lemma_decode_strict_monotone(a, b);
    }
}

/// Magnitude of a mathematical integer.
pub open spec fn absi(a: int) -> int {
    if a >= 0 {
        a
    } else {
        -a
    }
}

/// Index of the table entry nearest to `v` among the first `n` entries,
/// the smallest such index winning ties.
pub open spec fn best_upto(v: int, n: int) -> int
    recommends
        1 <= n <= 256,
    decreases n,
{
    if n <= 1 {
        0
    } else if absi(lut((n - 1) as u8) - v) < absi(lut(best_upto(v, n - 1) as u8) - v) {
        n - 1
    } else {
        best_upto(v, n - 1)
    }
}

/// The 8-bit sample that `encode` returns for the linear value `v`: the
/// clamped value's nearest table entry.
pub open spec fn encode_spec(v: int) -> int {
    best_upto(clamped(v, 0, 65535), 256)
}

/// The nearest-entry index is always a valid 8-bit sample.
pub proof fn lemma_best_range(v: int, n: int)
    requires
        1 <= n <= 256,
    ensures
        0 <= best_upto(v, n) < n,
    decreases n,
{
    if n > 1 {
        lemma_best_range(v, n - 1);
    }
}

/// The nearest entry is at least as near as any other entry in range.
pub proof fn lemma_best_is_nearest(v: int, n: int, y: int)
    requires
        1 <= n <= 256,
        0 <= y < n,
    ensures
        absi(lut(best_upto(v, n) as u8) - v) <= absi(lut(y as u8) - v),
    decreases n,
{
    if n > 1 && y < n - 1 {
        lemma_best_is_nearest(v, n - 1, y);
    }
}

/// A table entry is nearest to itself: scanning any prefix that contains
/// `x` settles on `x`, since all other entries differ strictly.
proof fn lemma_best_fixed_point(x: u8, n: int)
    requires
        x < n <= 256,
    ensures
        best_upto(lut(x), n) == x,
    decreases n,
{
    if n == x + 1 {
        if x > 0 {
            lemma_best_range(lut(x), n - 1);
            let b = best_upto(lut(x), n - 1);
            lemma_decode_strict_monotone(b as u8, x);
        }
    } else {
        lemma_best_fixed_point(x, n - 1);
        lemma_decode_strict_monotone(x, (n - 1) as u8);
    }
}

/// Round-trip law of the gamma codec: encoding a decoded sample returns the
/// sample exactly.
pub proof fn lemma_encode_decode(x: u8)
    ensures
        encode_spec(lut(x)) == x,
{
    lemma_lut_range(x);
    lemma_best_fixed_point(x, 256);
}

/// Gamma-encode a linear-light value: clamp it into range, then return the
/// 8-bit sample whose table entry lies nearest.
pub fn encode(v: i64) -> (r: u8)
    ensures
        r as int == encode_spec(v as int),
{
    let w: i64 = clamp_i64(v, 0, 65535);
    let ghost vw: int = clamped(v as int, 0, 65535);
    let mut best: u8 = 0;
    let d0: u16 = decode(0);
    let mut bestd: i64 = w - (d0 as i64);
    if bestd < 0 {
        bestd = -bestd;
    }
    let mut x: u16 = 1;
    while x < 256
        invariant
            1 <= x <= 256,
            0 <= w <= 65535,
            w == vw,
            best as int == best_upto(vw, x as int),
            bestd == absi(lut(best) - vw),
        decreases 256 - x,
    {
        let dx: u16 = decode(x as u8);
        let mut d: i64 = w - (dx as i64);
        if d < 0 {
            d = -d;
        }
        if d < bestd {
            best = x as u8;
            bestd = d;
        }
        x = x + 1;
    }
    best
}

} // verus!
