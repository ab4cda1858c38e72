use float_cmp::ApproxEq;
use float_cmp::F32Margin;
use float_cmp::FloatMargin;
use micromath::F32Ext;
use motor_control::complex::Complex;
use motor_control::dq::ab2abc;
use motor_control::dq::ab2dq;
use motor_control::dq::abc2ab;
use motor_control::dq::dq2ab;
use motor_control::dq::Rotation;
use motor_control::dq::INV_SQRT_3_RAW;
use motor_control::dq::SQRT_3_RAW;
use motor_control::fixed::Fixed;
use motor_control::fixed::ONE_RAW;

fn fixed(value: f32) -> Fixed {
    Fixed {
        raw: (value as f64 * ONE_RAW as f64).round() as i64,
    }
}

fn float(value: Fixed) -> f32 {
    (value.raw as f64 / ONE_RAW as f64) as f32
}

fn close(left: f32, right: f32, epsilon: f32) -> bool {
    left.approx_eq(right, F32Margin::zero().epsilon(epsilon))
}

fn c32(re: f32, im: f32) -> Complex {
    Complex {
        re: fixed(re),
        im: fixed(im),
    }
}

fn rotation(angle: f32) -> Rotation {
    Rotation {
        cos: fixed(F32Ext::cos(angle)),
        sin: fixed(F32Ext::sin(angle)),
    }
}

fn whole(re: i64, im: i64) -> Complex {
    Complex {
        re: Fixed { raw: re * ONE_RAW },
        im: Fixed { raw: im * ONE_RAW },
    }
}

#[test]
fn test_ab2dq() {
    let ab = c32(325f32, 0f32);
    let dq = ab2dq(ab, rotation(core::f32::consts::PI / 2f32));
    assert!(close(float(dq.re), 0f32, 0.1));
    assert!(close(float(dq.im), -325f32, 0.1));
}

#[test]
fn test_dq2ab() {
    let dq = c32(325f32, 0f32);
    let ab = dq2ab(dq, rotation(core::f32::consts::PI / 2f32));
    assert!(close(float(ab.re), 0f32, 0.1));
    assert!(close(float(ab.im), 325f32, 0.1));
}

#[test]
fn test_abc2ab() {
    let abc = [fixed(325f32), fixed(-162.5f32), fixed(-162.5f32)];
    let ab = abc2ab(abc);
    assert!(close(float(ab.re), 325f32, 0.1));
    assert!(close(float(ab.im), 0f32, 0.1));
}

#[test]
fn test_ab2abc() {
    let ab = c32(216.666f32, 0f32);
    let abc = ab2abc(ab);
    assert!(close(float(abc[0]), 325f32, 0.1));
    assert!(close(float(abc[1]), -162.5f32, 0.1));
    assert!(close(float(abc[2]), -162.5f32, 0.1));
}

#[test]
fn ab2dq_by_exact_angles() {
    let ab = whole(3, 4);
    let one = Fixed { raw: ONE_RAW };
    let zero = Fixed { raw: 0 };
    let none = Rotation { cos: one, sin: zero };
    let quarter = Rotation { cos: zero, sin: one };
    let half = Rotation {
        cos: Fixed { raw: -ONE_RAW },
        sin: zero,
    };
    assert_eq!(ab2dq(ab, none), ab);
    assert_eq!(ab2dq(ab, quarter), whole(4, -3));
    assert_eq!(ab2dq(ab, half), whole(-3, -4));
    assert_eq!(dq2ab(ab, quarter), whole(-4, 3));
}

#[test]
fn ab2dq_by_three_four_five() {
    // cos = 0.6, sin = 0.8 up to rounding; (5, 10) turns into (11, 2)
    let angle = Rotation {
        cos: Fixed { raw: 659_706_976_666 },
        sin: Fixed { raw: 879_609_302_221 },
    };
    let dq = ab2dq(whole(5, 10), angle);
    // products are rounded toward zero before they are added
    assert_eq!(dq.re.raw, 3_298_534_883_330 + 8_796_093_022_210);
    assert_eq!(dq.im.raw, 6_597_069_766_660 - 4_398_046_511_105);
}

#[test]
fn dq2ab_undoes_ab2dq() {
    for step in 0..64 {
        let angle = rotation(step as f32 * 0.1);
        let ab = c32(325f32 - 10f32 * step as f32, 17.5f32 * step as f32);
        let back = dq2ab(ab2dq(ab, angle), angle);
        // the trigonometric approximation is good to 0.002, the vector is below 1200
        assert!(close(float(back.re), float(ab.re), 6.0));
        assert!(close(float(back.im), float(ab.im), 6.0));
    }
    // with an exact cosine and sine only the rounding of four products is left
    let angle = Rotation {
        cos: Fixed { raw: 659_706_976_666 },
        sin: Fixed { raw: 879_609_302_221 },
    };
    let ab = whole(325, -120);
    let back = dq2ab(ab2dq(ab, angle), angle);
    assert!((back.re.raw - ab.re.raw).abs() <= 1024);
    assert!((back.im.raw - ab.im.raw).abs() <= 1024);
}

#[test]
fn ab2abc_has_exact_coefficients() {
    let abc = ab2abc(whole(8, 0));
    assert_eq!(abc[0].raw, 12 * ONE_RAW);
    assert_eq!(abc[1].raw, -6 * ONE_RAW);
    assert_eq!(abc[2].raw, -6 * ONE_RAW);
    let abc = ab2abc(whole(0, 4));
    assert_eq!(abc[0].raw, 0);
    assert_eq!(abc[1].raw, 3 * SQRT_3_RAW);
    assert_eq!(abc[2].raw, -3 * SQRT_3_RAW);
}

#[test]
fn abc2ab_uses_a_plus_two_b() {
    let abc = [
        Fixed { raw: ONE_RAW },
        Fixed { raw: ONE_RAW },
        Fixed { raw: -2 * ONE_RAW },
    ];
    let ab = abc2ab(abc);
    assert_eq!(ab.re.raw, ONE_RAW);
    assert_eq!(ab.im.raw, 3 * INV_SQRT_3_RAW);
    let abc = [
        Fixed { raw: 0 },
        Fixed { raw: 5 * ONE_RAW },
        Fixed { raw: 77 * ONE_RAW },
    ];
    assert_eq!(abc2ab(abc).im.raw, 10 * INV_SQRT_3_RAW);
}

#[test]
fn clarke_there_and_back_scales_by_three_halves() {
    let ab = whole(200, -50);
    let back = abc2ab(ab2abc(ab));
    assert_eq!(back.re.raw, 300 * ONE_RAW);
    assert!((back.im.raw - -75 * ONE_RAW).abs() <= 1024);
}

/// A simple sequence of scattered numbers in `-limit..=limit`.
fn scattered(seed: &mut u64, limit: i64) -> i64 {
    *seed = seed
        .wrapping_mul(6_364_136_223_846_793_005)
        .wrapping_add(1_442_695_040_888_963_407);
    ((*seed >> 16) as i64) % (limit + 1) * if *seed & 1 == 0 { 1 } else { -1 }
}

#[test]
fn park_there_and_back_loses_less_than_six_units() {
    let unit = ONE_RAW as i128 * ONE_RAW as i128;
    let mut seed = 1u64;
    for _ in 0..10_000 {
        let angle = Rotation {
            cos: Fixed { raw: scattered(&mut seed, ONE_RAW) },
            sin: Fixed { raw: scattered(&mut seed, ONE_RAW) },
        };
        let ab = Complex {
            re: Fixed { raw: scattered(&mut seed, 1 << 44) },
            im: Fixed { raw: scattered(&mut seed, 1 << 44) },
        };
        let back = dq2ab(ab2dq(ab, angle), angle);
        let norm = angle.cos.raw as i128 * angle.cos.raw as i128
            + angle.sin.raw as i128 * angle.sin.raw as i128;
        let re = unit * back.re.raw as i128 - norm * ab.re.raw as i128;
        let im = unit * back.im.raw as i128 - norm * ab.im.raw as i128;
        assert!(-6 * unit < re && re < 6 * unit);
        assert!(-6 * unit < im && im < 6 * unit);
    }
}

#[test]
fn clarke_there_and_back_loses_less_than_four_units() {
    let unit = ONE_RAW as i128 * ONE_RAW as i128;
    let both = INV_SQRT_3_RAW as i128 * SQRT_3_RAW as i128;
    let mut seed = 2u64;
    for _ in 0..10_000 {
        let ab = Complex {
            re: Fixed { raw: scattered(&mut seed, 1 << 44) },
            im: Fixed { raw: scattered(&mut seed, 1 << 44) },
        };
        let back = abc2ab(ab2abc(ab));
        let re = 2 * back.re.raw - 3 * ab.re.raw;
        let im = 2 * unit * back.im.raw as i128 - 3 * both * ab.im.raw as i128;
        assert!(-1 <= re && re <= 1);
        assert!(-7 * unit < im && im < 7 * unit);
    }
}
