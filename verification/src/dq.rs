//! Park and Clarke transforms: between the three phases (abc), the two axes
//! of the stationary frame (ab), and the two axes of the frame that turns
//! with the rotor (dq).
//!
//! Sine and cosine are not computed here: an angle comes in as a
//! [`Rotation`], the pair of its cosine and sine.

use vstd::prelude::*;
use crate::complex::Complex;
use crate::fixed::Fixed;

verus! {

/// Raw representation of 3/2.
pub const THREE_HALVES_RAW: i64 = 1_649_267_441_664;

/// Raw representation of 3/4.
pub const THREE_QUARTERS_RAW: i64 = 824_633_720_832;

/// Raw representation of −3/4.
pub const MINUS_THREE_QUARTERS_RAW: i64 = -824_633_720_832;

/// Raw representation of 2.
pub const TWO_RAW: i64 = 2_199_023_255_552;

/// Raw representation of √3, rounded to the nearest.
pub const SQRT_3_RAW: i64 = 1_904_410_002_821;

/// Raw representation of 1/√3, rounded to the nearest.
pub const INV_SQRT_3_RAW: i64 = 634_803_334_274;

/// A rotor angle, given by its cosine and sine.
#[derive(Clone, Copy, Debug, PartialEq, Eq, Structural)]
pub struct Rotation {
    /// Cosine of the angle.
    pub cos: Fixed,
    /// Sine of the angle.
    pub sin: Fixed,
}

impl Rotation {
    /// The opposite angle: the same cosine, the sine negated.
    pub open spec fn spec_reversed(self) -> Rotation {
        Rotation { cos: self.cos, sin: self.sin.saturating_neg() }
    }

    /// The rotation by the opposite angle.
    #[verifier::when_used_as_spec(spec_reversed)]
    pub fn reversed(self) -> (r: Rotation)
        ensures
            r == self.spec_reversed(),
    {
        Rotation { cos: self.cos, sin: self.sin.saturating_neg() }
    }
}

/// `ab` turned backward by `angle`:
/// `(cos·re + sin·im) + j·(cos·im − sin·re)`.
pub open spec fn spec_ab2dq(ab: Complex, angle: Rotation) -> Complex {
    Complex {
        re: angle.cos.saturating_mul(ab.re).saturating_add(angle.sin.saturating_mul(ab.im)),
        im: angle.cos.saturating_mul(ab.im).saturating_sub(angle.sin.saturating_mul(ab.re)),
    }
}

/// `dq` turned forward by `angle`: turned backward by the opposite angle.
pub open spec fn spec_dq2ab(dq: Complex, angle: Rotation) -> Complex {
    spec_ab2dq(dq, angle.reversed())
}

/// The two-axis quantity of three phase quantities: `a + j·(a + 2·b) / √3`.
pub open spec fn spec_abc2ab(abc: [Fixed; 3]) -> Complex {
    Complex {
        re: abc[0],
        im: (Fixed { raw: INV_SQRT_3_RAW }).saturating_mul(
            abc[0].saturating_add((Fixed { raw: TWO_RAW }).saturating_mul(abc[1])),
        ),
    }
}

/// The three phase quantities of a two-axis quantity:
/// `[3/2·re, 3/4·(im·√3 − re), −3/4·(im·√3 + re)]`.
pub open spec fn spec_ab2abc(ab: Complex) -> [Fixed; 3] {
    [
        (Fixed { raw: THREE_HALVES_RAW }).saturating_mul(ab.re),
        (Fixed { raw: THREE_QUARTERS_RAW }).saturating_mul(
            ab.im.saturating_mul(Fixed { raw: SQRT_3_RAW }).saturating_sub(ab.re),
        ),
        (Fixed { raw: MINUS_THREE_QUARTERS_RAW }).saturating_mul(
            ab.im.saturating_mul(Fixed { raw: SQRT_3_RAW }).saturating_add(ab.re),
        ),
    ]
}

/// Turns a quantity backward by `angle`: from the stationary frame (ab) into
/// the frame of a rotor that stands at `angle` (dq).
#[verifier::when_used_as_spec(spec_ab2dq)]
pub fn ab2dq(ab: Complex, angle: Rotation) -> (dq: Complex)
    ensures
        dq == spec_ab2dq(ab, angle),
{
    let re: Fixed = angle.cos.saturating_mul(ab.re).saturating_add(angle.sin.saturating_mul(ab.im));
    let im: Fixed = angle.cos.saturating_mul(ab.im).saturating_sub(angle.sin.saturating_mul(ab.re));
    Complex { re, im }
}

/// Turns a quantity forward by `angle`: from the frame of a rotor that stands
/// at `angle` (dq) back into the stationary frame (ab).
#[verifier::when_used_as_spec(spec_dq2ab)]
pub fn dq2ab(dq: Complex, angle: Rotation) -> (ab: Complex)
    ensures
        ab == spec_dq2ab(dq, angle),
{
    ab2dq(dq, angle.reversed())
}

/// From the stationary frame to three phases: the phase quantities
/// `[3/2·re, 3/4·(im·√3 − re), −3/4·(im·√3 + re)]`, in the order a, b, c.
#[verifier::when_used_as_spec(spec_ab2abc)]
pub fn ab2abc(ab: Complex) -> (abc: [Fixed; 3])
    ensures
        abc == spec_ab2abc(ab),
{
    let sqrt3: Fixed = Fixed { raw: SQRT_3_RAW };
    let a: Fixed = Fixed { raw: THREE_HALVES_RAW }.saturating_mul(ab.re);
    let b: Fixed = Fixed { raw: THREE_QUARTERS_RAW }.saturating_mul(
        ab.im.saturating_mul(sqrt3).saturating_sub(ab.re),
    );
    let c: Fixed = Fixed { raw: MINUS_THREE_QUARTERS_RAW }.saturating_mul(
        ab.im.saturating_mul(sqrt3).saturating_add(ab.re),
    );
    [a, b, c]
}

/// From three phases to the stationary frame: the real axis is phase a, the
/// imaginary axis `(a + 2·b) / √3`.
#[verifier::when_used_as_spec(spec_abc2ab)]
pub fn abc2ab(abc: [Fixed; 3]) -> (ab: Complex)
    ensures
        ab == spec_abc2ab(abc),
{
    let invsqrt3: Fixed = Fixed { raw: INV_SQRT_3_RAW };
    let re: Fixed = abc[0];
    let im: Fixed = invsqrt3.saturating_mul(
        abc[0].saturating_add(Fixed { raw: TWO_RAW }.saturating_mul(abc[1])),
    );
    Complex { re, im }
}

} // verus!
