use image_toolkit::gamma::{decode, encode};

#[test]
fn decode_endpoints() {
    assert_eq!(decode(0), 0);
    assert_eq!(decode(255), 65535);
}

#[test]
fn decode_is_monotone_nondecreasing() {
    let mut prev: u16 = decode(0);
    for x in 1..=255u8 {
        let cur = decode(x);
        assert!(cur >= prev, "decode not monotone at {}", x);
        prev = cur;
    }
}

#[test]
fn decode_is_strictly_increasing() {
    for x in 0..255u8 {
        assert!(decode(x) < decode(x + 1));
    }
}

#[test]
fn encode_decode_round_trip_exact() {
    for x in 0..=255u8 {
        assert_eq!(encode(decode(x) as i64), x);
    }
}

#[test]
fn encode_clamps_out_of_range() {
    assert_eq!(encode(-5), 0);
    assert_eq!(encode(0), 0);
    assert_eq!(encode(65535), 255);
    assert_eq!(encode(1_000_000), 255);
}

#[test]
fn decode_matches_srgb_curve() {
    for x in 0..=255u8 {
        let c = x as f64 / 255.0;
        let lin = if c <= 0.04045 {
            c / 12.92
        } else {
            ((c + 0.055) / 1.055).powf(2.4)
        };
        let expect = (lin * 65535.0).round() as i64;
        let got = decode(x) as i64;
        assert!(
            (got - expect).abs() <= 1,
            "decode({}) = {} but sRGB curve gives {}",
            x,
            got,
            expect
        );
    }
}
