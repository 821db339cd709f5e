use image_toolkit::kernel::{support, weight, ResampleKernel};

const W: i64 = 65536;

const ALL: [ResampleKernel; 4] = [
    ResampleKernel::Triangle,
    ResampleKernel::CatmullRom,
    ResampleKernel::Mitchell,
    ResampleKernel::Lanczos3,
];

#[test]
fn support_radii() {
    assert_eq!(support(ResampleKernel::Triangle), 1);
    assert_eq!(support(ResampleKernel::CatmullRom), 2);
    assert_eq!(support(ResampleKernel::Mitchell), 2);
    assert_eq!(support(ResampleKernel::Lanczos3), 3);
}

#[test]
fn weight_zero_at_and_beyond_support() {
    for k in ALL {
        let r = support(k);
        for x in [r * W, r * W + 1, r * W + 12345, 4 * W] {
            assert_eq!(weight(k, x), 0, "{:?} at {}", k, x);
        }
    }
}

#[test]
fn weight_positive_at_center() {
    for k in ALL {
        assert!(weight(k, 0) > 0, "{:?}", k);
    }
}

#[test]
fn weight_nonzero_inside_support() {
    // Representative offsets strictly inside each support radius.
    for k in ALL {
        let r = support(k);
        for x in [W / 2, r * W - W / 2] {
            assert!(weight(k, x) != 0, "{:?} at {}", k, x);
        }
    }
}

#[test]
fn triangle_weight_is_linear_ramp() {
    assert_eq!(weight(ResampleKernel::Triangle, 0), W);
    assert_eq!(weight(ResampleKernel::Triangle, W / 2), W / 2);
    assert_eq!(weight(ResampleKernel::Triangle, W / 4), 3 * W / 4);
}

#[test]
fn cubic_weights_vanish_at_radius_one_boundary_values() {
    // Both cubics cross zero exactly at |x| = 1 only for Catmull-Rom.
    assert_eq!(weight(ResampleKernel::CatmullRom, W), 0);
    assert!(weight(ResampleKernel::Mitchell, W) != 0);
}

#[test]
fn lanczos_weight_matches_analytic_form() {
    // Compare against 3 sin(pi t) sin(pi t / 3) / (pi t)^2 at a few offsets.
    for x in [20000i64, 65536, 100000, 150000] {
        let t = x as f64 / W as f64;
        let pi = std::f64::consts::PI;
        let expect = 3.0 * (pi * t).sin() * (pi * t / 3.0).sin() / (pi * t).powi(2);
        let got = weight(ResampleKernel::Lanczos3, x) as f64 / W as f64;
        assert!(
            (got - expect).abs() < 0.005,
            "lanczos at {}: got {} expected {}",
            x,
            got,
            expect
        );
    }
}
