use motor_control::complex::Complex;
use motor_control::fixed::Fixed;
use motor_control::fixed::ONE_RAW;
use motor_control::fixed::SIXTH_PI_RAW;
use motor_control::fixed::THIRD_PI_RAW;
use motor_control::fixed::TWO_PI_RAW;

#[test]
fn fixed_constants() {
    assert_eq!(ONE_RAW, 1i64 << 40);
    assert_eq!(
        SIXTH_PI_RAW,
        (core::f64::consts::FRAC_PI_6 * ONE_RAW as f64).round() as i64
    );
    assert_eq!(THIRD_PI_RAW, 2 * SIXTH_PI_RAW);
    assert_eq!(TWO_PI_RAW, 12 * SIXTH_PI_RAW);
}

#[test]
fn fixed_from_int() {
    assert_eq!(Fixed::from_int(0).raw, 0);
    assert_eq!(Fixed::from_int(-7).raw, -7 * ONE_RAW);
    assert_eq!(Fixed::from_int(8_388_607).raw, 8_388_607 * ONE_RAW);
    assert_eq!(Fixed::from_int(8_388_608).raw, i64::MAX);
    assert_eq!(Fixed::from_int(-8_388_608).raw, i64::MIN);
    assert_eq!(Fixed::from_int(i32::MIN).raw, i64::MIN);
}

#[test]
fn fixed_add_sub_neg_saturate() {
    let max = Fixed { raw: i64::MAX };
    let min = Fixed { raw: i64::MIN };
    let one = Fixed { raw: ONE_RAW };
    assert_eq!(one.saturating_add(one).raw, 2 * ONE_RAW);
    assert_eq!(one.saturating_sub(max).raw, ONE_RAW - i64::MAX);
    assert_eq!(max.saturating_add(one), max);
    assert_eq!(min.saturating_sub(one), min);
    assert_eq!(min.saturating_add(min), min);
    assert_eq!(max.saturating_sub(min), max);
    assert_eq!(one.saturating_neg().raw, -ONE_RAW);
    assert_eq!(max.saturating_neg().raw, -i64::MAX);
    assert_eq!(min.saturating_neg(), max);
}

#[test]
fn fixed_mul_rounds_toward_zero() {
    let third = Fixed { raw: ONE_RAW / 3 };
    // 1/3 · 1/3 = 0.111…; the raw product has a remainder
    assert_eq!(third.saturating_mul(third).raw, 122_167_958_641);
    assert_eq!(third.saturating_neg().saturating_mul(third).raw, -122_167_958_641);
    assert_eq!(Fixed { raw: 1 }.saturating_mul(Fixed { raw: ONE_RAW - 1 }).raw, 0);
    assert_eq!(Fixed { raw: -1 }.saturating_mul(Fixed { raw: ONE_RAW - 1 }).raw, 0);
    assert_eq!(Fixed { raw: -1 }.saturating_mul(Fixed { raw: ONE_RAW }).raw, -1);
    assert_eq!(
        Fixed { raw: 3 * ONE_RAW / 2 }.saturating_mul(Fixed { raw: -5 * ONE_RAW }).raw,
        -15 * ONE_RAW / 2
    );
}

#[test]
fn fixed_mul_saturates() {
    let big = Fixed { raw: 4000 * ONE_RAW };
    assert_eq!(big.saturating_mul(big).raw, i64::MAX);
    assert_eq!(big.saturating_mul(big.saturating_neg()).raw, i64::MIN);
    let min = Fixed { raw: i64::MIN };
    assert_eq!(min.saturating_mul(min).raw, i64::MAX);
    assert_eq!(min.saturating_mul(Fixed { raw: ONE_RAW }), min);
}

#[test]
fn fixed_div_rounds_toward_zero() {
    let one = Fixed { raw: ONE_RAW };
    let three = Fixed { raw: 3 * ONE_RAW };
    assert_eq!(one.saturating_div(three).raw, 366_503_875_925);
    assert_eq!(one.saturating_neg().saturating_div(three).raw, -366_503_875_925);
    assert_eq!(one.saturating_div(three.saturating_neg()).raw, -366_503_875_925);
    assert_eq!(
        one.saturating_neg().saturating_div(three.saturating_neg()).raw,
        366_503_875_925
    );
    assert_eq!(three.saturating_div(Fixed { raw: ONE_RAW / 4 }).raw, 12 * ONE_RAW);
}

#[test]
fn fixed_div_saturates() {
    let one = Fixed { raw: ONE_RAW };
    let tiny = Fixed { raw: 1 };
    assert_eq!(one.saturating_div(tiny).raw, i64::MAX);
    assert_eq!(one.saturating_div(tiny.saturating_neg()).raw, i64::MIN);
    assert_eq!(Fixed { raw: i64::MIN }.saturating_div(one.saturating_neg()).raw, i64::MAX);
    assert_eq!(Fixed { raw: 0 }.saturating_div(tiny).raw, 0);
}

#[test]
fn fixed_clamp() {
    let low = Fixed { raw: -5 };
    let high = Fixed { raw: 9 };
    assert_eq!(Fixed { raw: 10 }.clamp(low, high), high);
    assert_eq!(Fixed { raw: 9 }.clamp(low, high).raw, 9);
    assert_eq!(Fixed { raw: -5 }.clamp(low, high).raw, -5);
    assert_eq!(Fixed { raw: -6 }.clamp(low, high), low);
    // limits out of order: the upper one is tested first
    assert_eq!(Fixed { raw: 0 }.clamp(high, low), low);
    assert_eq!(Fixed { raw: -9 }.clamp(high, low), high);
}

#[test]
fn complex_arithmetic() {
    let a = Complex {
        re: Fixed { raw: 3 * ONE_RAW },
        im: Fixed { raw: -ONE_RAW },
    };
    let b = Complex {
        re: Fixed { raw: ONE_RAW / 2 },
        im: Fixed { raw: 2 * ONE_RAW },
    };
    let difference = a.saturating_sub(b);
    assert_eq!(difference.re.raw, 5 * ONE_RAW / 2);
    assert_eq!(difference.im.raw, -3 * ONE_RAW);
    let scaled = a.scaled(Fixed { raw: -ONE_RAW / 4 });
    assert_eq!(scaled.re.raw, -3 * ONE_RAW / 4);
    assert_eq!(scaled.im.raw, ONE_RAW / 4);
    // (3 − j)(0.5 + 2j) = 3.5 + 5.5j
    let product = a.saturating_mul(b);
    assert_eq!(product.re.raw, 7 * ONE_RAW / 2);
    assert_eq!(product.im.raw, 11 * ONE_RAW / 2);
}
