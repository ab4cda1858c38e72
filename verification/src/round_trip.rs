//! Laws of the Park and Clarke transforms: what a transform and the one in
//! the opposite direction give one after the other, rounding included.

use vstd::prelude::*;
use crate::complex::Complex;
use crate::dq::ab2abc;
use crate::dq::ab2dq;
use crate::dq::abc2ab;
use crate::dq::dq2ab;
use crate::dq::Rotation;
use crate::dq::INV_SQRT_3_RAW;
use crate::dq::SQRT_3_RAW;
use crate::dq::THREE_HALVES_RAW;
use crate::dq::THREE_QUARTERS_RAW;
use crate::dq::TWO_RAW;
use crate::fixed::div_toward_zero;
use crate::fixed::lemma_mul_by_fraction;
use crate::fixed::lemma_rescaling_loses_less_than_one;
use crate::fixed::ONE_RAW;

verus! {

/// Whether `back` is `x · norm / 2^80` up to less than six units of the last
/// place: what a value `x` comes back as from a turn of squared length
/// `norm / 2^80` there and back.
pub open spec fn comes_back_as(back: int, x: int, norm: int) -> bool {
    let unit = ONE_RAW * ONE_RAW;
    -6 * unit < unit * back - norm * x < 6 * unit
}

/// Park there and back: [`dq2ab`] undoes [`ab2dq`]. For a cosine and sine of
/// magnitude at most one, and a quantity of magnitude below 2^21 in both
/// parts, so that no sum saturates, each part comes back multiplied by
/// `cos² + sin²`, up to less than six units of the last place. With
/// `cos² + sin² = 1` it comes back as it was, up to that rounding.
pub proof fn lemma_park_round_trip(ab: Complex, angle: Rotation)
    requires
        -ONE_RAW <= angle.cos.raw <= ONE_RAW,
        -ONE_RAW <= angle.sin.raw <= ONE_RAW,
        -0x2000_0000_0000_0000 < ab.re.raw < 0x2000_0000_0000_0000,
        -0x2000_0000_0000_0000 < ab.im.raw < 0x2000_0000_0000_0000,
    ensures
        ({
            let back = dq2ab(ab2dq(ab, angle), angle);
            let norm = angle.cos.raw * angle.cos.raw + angle.sin.raw * angle.sin.raw;
            &&& comes_back_as(back.re.raw as int, ab.re.raw as int, norm)
            &&& comes_back_as(back.im.raw as int, ab.im.raw as int, norm)
            &&& norm == ONE_RAW * ONE_RAW ==> -6 < back.re.raw - ab.re.raw < 6 && -6 < back.im.raw
                - ab.im.raw < 6
        }),
{
    let c = angle.cos.raw as int;
    let s = angle.sin.raw as int;
    let a = ab.re.raw as int;
    let b = ab.im.raw as int;
    let scale = ONE_RAW as int;
    let reverse = angle.reversed();

    // there
    lemma_mul_by_fraction(angle.cos, ab.re, 0x1fff_ffff_ffff_ffff);
    lemma_mul_by_fraction(angle.sin, ab.im, 0x1fff_ffff_ffff_ffff);
    lemma_mul_by_fraction(angle.cos, ab.im, 0x1fff_ffff_ffff_ffff);
    lemma_mul_by_fraction(angle.sin, ab.re, 0x1fff_ffff_ffff_ffff);
    let t0 = div_toward_zero(c * a, scale);
    let t1 = div_toward_zero(s * b, scale);
    let t2 = div_toward_zero(c * b, scale);
    let t3 = div_toward_zero(s * a, scale);
    let dq = ab2dq(ab, angle);
    lemma_rescaling_loses_less_than_one(c * a);
    lemma_rescaling_loses_less_than_one(s * b);
    lemma_rescaling_loses_less_than_one(c * b);
    lemma_rescaling_loses_less_than_one(s * a);
    let l0 = c * a - scale * t0;
    let l1 = s * b - scale * t1;
    let l2 = c * b - scale * t2;
    let l3 = s * a - scale * t3;

    // and back
    lemma_mul_by_fraction(reverse.cos, dq.re, 0x3fff_ffff_ffff_fffe);
    lemma_mul_by_fraction(reverse.sin, dq.im, 0x3fff_ffff_ffff_fffe);
    lemma_mul_by_fraction(reverse.cos, dq.im, 0x3fff_ffff_ffff_fffe);
    lemma_mul_by_fraction(reverse.sin, dq.re, 0x3fff_ffff_ffff_fffe);
    let u0 = div_toward_zero(c * (t0 + t1), scale);
    let u1 = div_toward_zero((-s) * (t2 - t3), scale);
    let u2 = div_toward_zero(c * (t2 - t3), scale);
    let u3 = div_toward_zero((-s) * (t0 + t1), scale);
    lemma_rescaling_loses_less_than_one(c * (t0 + t1));
    lemma_rescaling_loses_less_than_one((-s) * (t2 - t3));
    lemma_rescaling_loses_less_than_one(c * (t2 - t3));
    lemma_rescaling_loses_less_than_one((-s) * (t0 + t1));
    let l4 = c * (t0 + t1) - scale * u0;
    let l5 = (-s) * (t2 - t3) - scale * u1;
    let l6 = c * (t2 - t3) - scale * u2;
    let l7 = (-s) * (t0 + t1) - scale * u3;

    // the real part
    lemma_turn_algebra(c, s, a, b, (t0, t1, t2, t3), (u0, u1), (l0, l1, l2, l3, l4, l5));
    lemma_lost_in_turn(c, s, (l0, l1, l2, l3, l4, l5));

    // the imaginary part: the same turn of (b, -a)
    assert((-s) * a == -(s * a)) by (nonlinear_arith);
    assert((-s) * b == -(s * b)) by (nonlinear_arith);
    assert((-(-s)) * (t0 - (-t1)) == -((-s) * (t0 + t1))) by (nonlinear_arith);
    assert((-s) * (-s) == s * s) by (nonlinear_arith);
    lemma_turn_algebra(c, -s, b, a, (t2, -t3, t0, -t1), (u2, -u3), (l2, -l3, l0, -l1, l6, -l7));
    lemma_lost_in_turn(c, -s, (l2, -l3, l0, -l1, l6, -l7));

    assert(ONE_RAW * ONE_RAW == 1_099_511_627_776 * 1_099_511_627_776);
    let norm = c * c + s * s;
    if norm == ONE_RAW * ONE_RAW {
        assert(norm * a == 1_099_511_627_776 * 1_099_511_627_776 * a) by (nonlinear_arith)
            requires
                norm == 1_099_511_627_776 * 1_099_511_627_776,
        ;
        assert(norm * b == 1_099_511_627_776 * 1_099_511_627_776 * b) by (nonlinear_arith)
            requires
                norm == 1_099_511_627_776 * 1_099_511_627_776,
        ;
    }
}

/// The algebra of a turn there and back: where four products of `c` and `s`
/// with `a` and `b` are rescaled to `t`, and the two products of `c` and `-s`
/// with the sum and the difference of those are rescaled to `u`, the sum of
/// `u`, scaled up twice, is `(c² + s²)·a` less what the rescalings lost.
proof fn lemma_turn_algebra(
    c: int,
    s: int,
    a: int,
    b: int,
    t: (int, int, int, int),
    u: (int, int),
    lost: (int, int, int, int, int, int),
)
    requires
        1_099_511_627_776 * t.0 == c * a - lost.0,
        1_099_511_627_776 * t.1 == s * b - lost.1,
        1_099_511_627_776 * t.2 == c * b - lost.2,
        1_099_511_627_776 * t.3 == s * a - lost.3,
        1_099_511_627_776 * u.0 == c * (t.0 + t.1) - lost.4,
        1_099_511_627_776 * u.1 == (-s) * (t.2 - t.3) - lost.5,
    ensures
        1_099_511_627_776 * (1_099_511_627_776 * (u.0 + u.1)) - (c * c + s * s) * a == -(c * (lost.0
            + lost.1)) + s * (lost.2 - lost.3) - 1_099_511_627_776 * (lost.4 + lost.5),
{
    lemma_factor_of_rescaled(c, t.0, c * a, lost.0);
    lemma_factor_of_rescaled(c, t.1, s * b, lost.1);
    lemma_factor_of_rescaled(s, t.2, c * b, lost.2);
    lemma_factor_of_rescaled(s, t.3, s * a, lost.3);
    assert(c * (t.0 + t.1) == c * t.0 + c * t.1) by (nonlinear_arith);
    assert((-s) * (t.2 - t.3) == -(s * t.2) + s * t.3) by (nonlinear_arith);
    assert(c * (c * a) + s * (s * a) == (c * c + s * s) * a) by (nonlinear_arith);
    assert(c * (lost.0 + lost.1) == c * lost.0 + c * lost.1) by (nonlinear_arith);
    assert(s * (lost.2 - lost.3) == s * lost.2 - s * lost.3) by (nonlinear_arith);
}

/// A rescaled product, multiplied by a further factor and scaled back up.
proof fn lemma_factor_of_rescaled(factor: int, t: int, p: int, lost: int)
    by (nonlinear_arith)
    requires
        1_099_511_627_776 * t == p - lost,
    ensures
        1_099_511_627_776 * (factor * t) == factor * p - factor * lost,
{
}

/// What the six rescalings of a turn there and back lose in sum: less than
/// six units of the last place.
proof fn lemma_lost_in_turn(c: int, s: int, lost: (int, int, int, int, int, int))
    requires
        -1_099_511_627_776 <= c <= 1_099_511_627_776,
        -1_099_511_627_776 <= s <= 1_099_511_627_776,
        -1_099_511_627_776 < lost.0 < 1_099_511_627_776,
        -1_099_511_627_776 < lost.1 < 1_099_511_627_776,
        -1_099_511_627_776 < lost.2 < 1_099_511_627_776,
        -1_099_511_627_776 < lost.3 < 1_099_511_627_776,
        -1_099_511_627_776 < lost.4 < 1_099_511_627_776,
        -1_099_511_627_776 < lost.5 < 1_099_511_627_776,
    ensures
        -6 * 1_099_511_627_776 * 1_099_511_627_776 < -(c * (lost.0 + lost.1)) + s * (lost.2
            - lost.3) - 1_099_511_627_776 * (lost.4 + lost.5) < 6 * 1_099_511_627_776
            * 1_099_511_627_776,
{
    let x = lost.0 + lost.1;
    let y = lost.2 - lost.3;
    assert(-2 * 1_099_511_627_776 * 1_099_511_627_776 < c * x < 2 * 1_099_511_627_776
        * 1_099_511_627_776) by (nonlinear_arith)
        requires
            -1_099_511_627_776 <= c <= 1_099_511_627_776,
            -2 * 1_099_511_627_776 < x < 2 * 1_099_511_627_776,
    ;
    assert(-2 * 1_099_511_627_776 * 1_099_511_627_776 < s * y < 2 * 1_099_511_627_776
        * 1_099_511_627_776) by (nonlinear_arith)
        requires
            -1_099_511_627_776 <= s <= 1_099_511_627_776,
            -2 * 1_099_511_627_776 < y < 2 * 1_099_511_627_776,
    ;
}

/// Clarke there and back: [`abc2ab`] of [`ab2abc`] is the quantity times 3/2.
/// For a quantity of magnitude at most 2^20 in both parts, so that no sum or
/// product saturates, the real part comes back as three halves of it,
/// rounded toward zero, and the imaginary part as three halves of it times
/// `√3 · 1/√3` as the two constants give it, up to less than four units of
/// the last place.
pub proof fn lemma_clarke_round_trip(ab: Complex)
    requires
        -0x1000_0000_0000_0000 <= ab.re.raw <= 0x1000_0000_0000_0000,
        -0x1000_0000_0000_0000 <= ab.im.raw <= 0x1000_0000_0000_0000,
    ensures
        ({
            let back = abc2ab(ab2abc(ab));
            let unit = ONE_RAW * ONE_RAW;
            &&& -1 <= 2 * back.re.raw - 3 * ab.re.raw <= 1
            &&& -7 * unit < 2 * unit * back.im.raw - 3 * (INV_SQRT_3_RAW * SQRT_3_RAW) * ab.im.raw < 7
                * unit
        }),
{
    let a = ab.re.raw as int;
    let b = ab.im.raw as int;
    let abc = ab2abc(ab);
    // phase a: 3/2 of the real part
    let pa = THREE_HALVES_RAW * a;
    lemma_rescaling_loses_less_than_one(pa);
    let phase_a = div_toward_zero(pa, ONE_RAW as int);
    let lost_a = 3 * a - 2 * phase_a;
    assert(pa - 1_099_511_627_776 * phase_a == 549_755_813_888 * lost_a);
    // phase b: 3/4 of (im·√3 − re)
    let pu = b * SQRT_3_RAW;
    lemma_rescaling_loses_less_than_one(pu);
    let u = div_toward_zero(pu, ONE_RAW as int);
    let pb = THREE_QUARTERS_RAW * (u - a);
    lemma_rescaling_loses_less_than_one(pb);
    let phase_b = div_toward_zero(pb, ONE_RAW as int);
    let lost_b = 3 * (u - a) - 4 * phase_b;
    // back: the imaginary part is (a + 2·b) / √3
    let pd = TWO_RAW * phase_b;
    assert(pd == 2_199_023_255_552 * phase_b);
    lemma_rescaling_loses_less_than_one(pd);
    let doubled = div_toward_zero(pd, ONE_RAW as int);
    let sum = phase_a + doubled;
    let pi = INV_SQRT_3_RAW * sum;
    assert(pi == 634_803_334_274 * sum);
    lemma_rescaling_loses_less_than_one(pi);
    let im = div_toward_zero(pi, ONE_RAW as int);
    assert(ONE_RAW * im == 1_099_511_627_776 * im);
    let back = abc2ab(abc);
    assert(back.re.raw == phase_a);
    assert(ONE_RAW * ONE_RAW == 1_099_511_627_776 * 1_099_511_627_776);
    lemma_clarke_algebra(b, u, sum, im, lost_a + lost_b);
}

/// The algebra of Clarke there and back: with `u` the rescaled `√3·b`, `sum`
/// a number with `2·sum = 3·u − lost`, and `im` the rescaled `sum/√3`, twice
/// `im` is `3·(√3/√3)·b` up to the losses.
proof fn lemma_clarke_algebra(b: int, u: int, sum: int, im: int, lost: int)
    requires
        -1_099_511_627_776 < 1_904_410_002_821 * b - 1_099_511_627_776 * u < 1_099_511_627_776,
        -1_099_511_627_776 < 634_803_334_274 * sum - 1_099_511_627_776 * im < 1_099_511_627_776,
        2 * sum == 3 * u - lost,
        -4 <= lost <= 4,
    ensures
        -7 * (1_099_511_627_776 * 1_099_511_627_776) < 2 * (1_099_511_627_776 * 1_099_511_627_776)
            * im - 3 * (634_803_334_274 * 1_904_410_002_821) * b < 7 * (1_099_511_627_776
            * 1_099_511_627_776),
{
    let scale: int = 1_099_511_627_776;
    let k: int = 634_803_334_274;
    let r: int = 1_904_410_002_821;
    let lost_u = r * b - scale * u;
    let lost_i = k * sum - scale * im;
    lemma_clarke_identity(scale, k, r, b, u, sum, im, lost, lost_u, lost_i);
    lemma_clarke_losses(scale, k, lost, lost_u, lost_i);
    assert(2 * (scale * scale) * im == 2 * (scale * scale * im)) by (nonlinear_arith);
    assert(3 * (k * r) * b == 3 * (k * r * b)) by (nonlinear_arith);
}

/// Twice `S²·im` in terms of `b` and the losses.
proof fn lemma_clarke_identity(
    scale: int,
    k: int,
    r: int,
    b: int,
    u: int,
    sum: int,
    im: int,
    lost: int,
    lost_u: int,
    lost_i: int,
)
    requires
        scale * u == r * b - lost_u,
        scale * im == k * sum - lost_i,
        2 * sum == 3 * u - lost,
    ensures
        2 * (scale * scale * im) - 3 * (k * r * b) == -(3 * (k * lost_u)) - scale * (k * lost) - 2 * (
        scale * lost_i),
{
    assert(scale * scale * im == scale * (k * sum) - scale * lost_i) by (nonlinear_arith)
        requires
            scale * im == k * sum - lost_i,
    ;
    assert(2 * (scale * (k * sum)) == scale * (k * (2 * sum))) by (nonlinear_arith);
    assert(scale * (k * (3 * u - lost)) == 3 * (k * (scale * u)) - scale * (k * lost))
        by (nonlinear_arith);
    assert(k * (scale * u) == k * r * b - k * lost_u) by (nonlinear_arith)
        requires
            scale * u == r * b - lost_u,
    ;
}

/// What the rescalings of Clarke there and back lose in sum: less than seven
/// units of the last place, counted twice.
proof fn lemma_clarke_losses(scale: int, k: int, lost: int, lost_u: int, lost_i: int)
    requires
        scale > 0,
        0 <= k,
        5 * k <= 3 * scale,
        -scale < lost_u < scale,
        -scale < lost_i < scale,
        -4 <= lost <= 4,
    ensures
        -7 * (scale * scale) < -(3 * (k * lost_u)) - scale * (k * lost) - 2 * (scale * lost_i) < 7 * (
        scale * scale),
{
    assert(-(3 * (scale * scale)) <= 5 * (k * lost_u) <= 3 * (scale * scale)) by (nonlinear_arith)
        requires
            0 <= k,
            5 * k <= 3 * scale,
            -scale < lost_u < scale,
    ;
    assert(-(12 * (scale * scale)) <= 5 * (scale * (k * lost)) <= 12 * (scale * scale))
        by (nonlinear_arith)
        requires
            scale > 0,
            0 <= k,
            5 * k <= 3 * scale,
            -4 <= lost <= 4,
    ;
    assert(-(scale * scale) < scale * lost_i < scale * scale) by (nonlinear_arith)
        requires
            scale > 0,
            -scale < lost_i < scale,
    ;
}

} // verus!
