use image_toolkit::kernel::ResampleKernel;
use image_toolkit::pipeline::{is_rgba8, kernel_from_index, resample_rgba, ColorFormat};
use image_toolkit::ToolKitRustError;

const ALL: [ResampleKernel; 4] = [
    ResampleKernel::Triangle,
    ResampleKernel::CatmullRom,
    ResampleKernel::Mitchell,
    ResampleKernel::Lanczos3,
];

fn srgb_to_linear(x: u8) -> f64 {
    let c = x as f64 / 255.0;
    if c <= 0.04045 {
        c / 12.92
    } else {
        ((c + 0.055) / 1.055).powf(2.4)
    }
}

#[test]
fn identity_scale_returns_original_bytes() {
    // A small image with varied colors and alphas.
    let src: Vec<u8> = vec![
        255, 0, 0, 255, 0, 255, 0, 128, 0, 0, 255, 0, 10, 20, 30, 40, 200, 100, 50, 255, 1, 2, 3,
        4,
    ];
    for k in ALL {
        let out = resample_rgba(&src, 3, 2, 3, 2, k).unwrap();
        assert_eq!(out, src, "{:?}", k);
    }
}

#[test]
fn zero_destination_width_is_an_error() {
    let src: Vec<u8> = vec![255, 0, 0, 255];
    let r = resample_rgba(&src, 1, 1, 0, 4, ResampleKernel::Triangle);
    assert!(r.is_err());
}

#[test]
fn zero_destination_height_is_an_error() {
    let src: Vec<u8> = vec![255, 0, 0, 255];
    let r = resample_rgba(&src, 1, 1, 4, 0, ResampleKernel::Lanczos3);
    match r {
        Err(ToolKitRustError::Error(msg)) => assert!(!msg.is_empty()),
        Ok(_) => panic!("zero destination height must fail"),
    }
}

#[test]
fn opaque_red_and_transparent_black_average_keeps_red() {
    // The defining premultiplication scenario: a 2x1 image of opaque red
    // next to transparent black, downscaled to 1x1 with the Triangle
    // kernel.  The alpha must land near 128 and the color must stay red
    // rather than darken toward the transparent black neighbor.
    let src: Vec<u8> = vec![255, 0, 0, 255, 0, 0, 0, 0];
    let out = resample_rgba(&src, 2, 1, 1, 1, ResampleKernel::Triangle).unwrap();
    assert_eq!(out.len(), 4);
    let a = out[3] as i64;
    assert!((a - 128).abs() <= 1, "alpha {} not near 128", a);
    assert!(out[0] >= 250, "red channel {} shifted toward black", out[0]);
    assert!(out[1] <= 5 && out[2] <= 5);
}

#[test]
fn alpha_edge_matches_premultiplied_average() {
    // Downscale a 4x1 strip with a single opaque red pixel among
    // transparent ones, and verify that the output's premultiplied red
    // equals the premultiplied-weighted average computed directly.
    let src: Vec<u8> = vec![
        255, 0, 0, 255, 0, 0, 0, 0, 0, 0, 0, 0, 0, 0, 0, 0,
    ];
    let out = resample_rgba(&src, 4, 1, 2, 1, ResampleKernel::Triangle).unwrap();
    // First output pixel covers the first two source pixels with equal
    // weight: expected premultiplied red = (1.0 * 1.0 + 0.0) / 2, expected
    // alpha = (1.0 + 0.0) / 2.
    let premul_expect = 0.5;
    let alpha_expect = 0.5;
    let alpha_got = out[3] as f64 / 255.0;
    let premul_got = srgb_to_linear(out[0]) * alpha_got;
    assert!((alpha_got - alpha_expect).abs() < 0.01, "alpha {}", alpha_got);
    assert!(
        (premul_got - premul_expect).abs() < 0.01,
        "premultiplied red {} expected {}",
        premul_got,
        premul_expect
    );
    // The second output pixel covers only transparent pixels.
    assert_eq!(out[7], 0);
}

#[test]
fn round_trip_of_constant_opaque_image_is_exact() {
    // Scale a constant fully-opaque image up and back down; the bytes
    // must come back unchanged.
    let (w, h) = (3u32, 2u32);
    let pix = [57u8, 130, 201, 255];
    let mut src: Vec<u8> = Vec::new();
    for _ in 0..(w * h) {
        src.extend_from_slice(&pix);
    }
    for k in ALL {
        let up = resample_rgba(&src, w, h, 7, 5, k).unwrap();
        let back = resample_rgba(&up, 7, 5, w, h, k).unwrap();
        assert_eq!(back, src, "{:?}", k);
    }
}

#[test]
fn constant_opaque_upscale_stays_constant() {
    let src: Vec<u8> = vec![200, 40, 90, 255];
    for k in ALL {
        let out = resample_rgba(&src, 1, 1, 3, 3, k).unwrap();
        assert_eq!(out.len(), 36);
        for p in 0..9 {
            assert_eq!(&out[4 * p..4 * p + 4], &src[..], "{:?} pixel {}", k, p);
        }
    }
}

#[test]
fn downscale_dimensions_and_range() {
    let mut src: Vec<u8> = Vec::new();
    for i in 0..(8 * 8) {
        src.extend_from_slice(&[(i * 3) as u8, 255 - i as u8, 7, 255]);
    }
    for k in ALL {
        let out = resample_rgba(&src, 8, 8, 3, 5, k).unwrap();
        assert_eq!(out.len(), 4 * 3 * 5);
        // A fully opaque input stays fully opaque.
        for p in 0..15 {
            assert_eq!(out[4 * p + 3], 255, "{:?}", k);
        }
    }
}

#[test]
fn kernel_selector_mapping() {
    assert_eq!(kernel_from_index(0), Some(ResampleKernel::Triangle));
    assert_eq!(kernel_from_index(1), Some(ResampleKernel::CatmullRom));
    assert_eq!(kernel_from_index(2), Some(ResampleKernel::Mitchell));
    assert_eq!(kernel_from_index(3), Some(ResampleKernel::Lanczos3));
    assert_eq!(kernel_from_index(4), None);
    assert_eq!(kernel_from_index(255), None);
}

#[test]
fn rgba8_detection() {
    assert!(is_rgba8(ColorFormat::Rgba8));
    for c in [
        ColorFormat::L8,
        ColorFormat::La8,
        ColorFormat::Rgb8,
        ColorFormat::L16,
        ColorFormat::La16,
        ColorFormat::Rgb16,
        ColorFormat::Rgba16,
        ColorFormat::Rgb32F,
        ColorFormat::Rgba32F,
    ] {
        assert!(!is_rgba8(c));
    }
}

#[test]
fn extreme_downscale_to_single_pixel() {
    // A >10x degenerate scale down to a single pixel must stay in range
    // and keep a fully opaque strip fully opaque.
    let mut src: Vec<u8> = Vec::new();
    for i in 0..16 {
        src.extend_from_slice(&[(i * 16) as u8, 0, 255 - (i * 16) as u8, 255]);
    }
    for k in ALL {
        let out = resample_rgba(&src, 16, 1, 1, 1, k).unwrap();
        assert_eq!(out.len(), 4);
        assert_eq!(out[3], 255, "{:?}", k);
    }
}

#[test]
fn extreme_upscale_from_single_pixel() {
    let src: Vec<u8> = vec![12, 200, 34, 255];
    for k in ALL {
        let out = resample_rgba(&src, 1, 1, 16, 16, k).unwrap();
        assert_eq!(out.len(), 4 * 16 * 16);
        for p in 0..(16 * 16) {
            assert_eq!(&out[4 * p..4 * p + 4], &src[..], "{:?} pixel {}", k, p);
        }
    }
}
