//! Signed fixed-point scalars with 40 fractional bits and saturating arithmetic.
//!
//! Every quantity of the control stack (volts, amperes, radians, seconds and
//! their rates) is a [`Fixed`]: the real number `raw / 2^40`, with a range of
//! about ±8.3 million and a resolution of about 10⁻¹². Sums, differences,
//! products and quotients that leave the range stop at its ends; products and
//! quotients that fall between two representable values are rounded toward
//! zero.

use vstd::prelude::*;

verus! {

/// Raw representation of the number one, `2^40`.
pub const ONE_RAW: i64 = 1_099_511_627_776;

/// Raw representation of π/6; the other angle constants are multiples of it,
/// so that twelve sectors of this width make exactly one full turn.
pub const SIXTH_PI_RAW: i64 = 575_702_942_060;

/// Raw representation of π/3, the width of one hall sector.
pub const THIRD_PI_RAW: i64 = 1_151_405_884_120;

/// Raw representation of 2π, one full turn.
pub const TWO_PI_RAW: i64 = 6_908_435_304_720;

/// The real number `raw / 2^40`.
#[derive(Clone, Copy, Debug, PartialEq, Eq, Structural)]
pub struct Fixed {
    /// The number times `2^40`.
    pub raw: i64,
}

/// The raw value nearest to `v` that 64 bits can hold.
pub open spec fn saturate(v: int) -> i64 {
    if v > i64::MAX {
        i64::MAX
    } else if v < i64::MIN {
        i64::MIN
    } else {
        v as i64
    }
}

/// The quotient `n / d` rounded toward zero, for a nonzero divisor `d`.
pub open spec fn div_toward_zero(n: int, d: int) -> int {
    let q = (vstd::math::abs(n) / vstd::math::abs(d)) as int;
    if (n < 0) != (d < 0) {
        -q
    } else {
        q
    }
}

/// Brings a 128-bit intermediate back into 64 bits.
fn narrow(v: i128) -> (r: i64)
    ensures
        r == saturate(v as int),
{
    if v > i64::MAX as i128 {
        i64::MAX
    } else if v < i64::MIN as i128 {
        i64::MIN
    } else {
        v as i64
    }
}

/// Divides two 128-bit intermediates, rounding toward zero.
fn quotient(n: i128, d: i128) -> (q: i128)
    requires
        d != 0,
        -0x4000_0000_0000_0000_0000_0000_0000_0000 <= n <= 0x4000_0000_0000_0000_0000_0000_0000_0000,
        -0x4000_0000_0000_0000_0000_0000_0000_0000 <= d <= 0x4000_0000_0000_0000_0000_0000_0000_0000,
    ensures
        q == div_toward_zero(n as int, d as int),
{
    let n_abs: i128 = if n < 0 { -n } else { n };
    let d_abs: i128 = if d < 0 { -d } else { d };
    let q_abs: i128 = n_abs / d_abs;
    if (n < 0) != (d < 0) {
        -q_abs
    } else {
        q_abs
    }
}

impl Fixed {
    /// The whole number `v`, or the end of the range that it lies beyond.
    pub open spec fn spec_from_int(v: i32) -> Fixed {
        Fixed { raw: saturate(v * ONE_RAW) }
    }

    /// `self + rhs`, stopped at the ends of the range.
    pub open spec fn spec_saturating_add(self, rhs: Fixed) -> Fixed {
        Fixed { raw: saturate(self.raw + rhs.raw) }
    }

    /// `self - rhs`, stopped at the ends of the range.
    pub open spec fn spec_saturating_sub(self, rhs: Fixed) -> Fixed {
        Fixed { raw: saturate(self.raw - rhs.raw) }
    }

    /// `-self`, stopped at the upper end of the range.
    pub open spec fn spec_saturating_neg(self) -> Fixed {
        Fixed { raw: saturate(-self.raw) }
    }

    /// `self · rhs`, rounded toward zero and stopped at the ends of the range.
    pub open spec fn spec_saturating_mul(self, rhs: Fixed) -> Fixed {
        Fixed { raw: saturate(div_toward_zero(self.raw * rhs.raw, ONE_RAW as int)) }
    }

    /// `self / rhs`, rounded toward zero and stopped at the ends of the range;
    /// meaningful for a nonzero `rhs`.
    pub open spec fn spec_saturating_div(self, rhs: Fixed) -> Fixed {
        Fixed { raw: saturate(div_toward_zero(self.raw * ONE_RAW, rhs.raw as int)) }
    }

    /// `self` limited from above by `high`, else from below by `low`.
    ///
    /// The upper limit is tested first, so with `low > high` a value above
    /// `high` still becomes `high`.
    pub open spec fn spec_clamp(self, low: Fixed, high: Fixed) -> Fixed {
        if self.raw > high.raw {
            high
        } else if self.raw < low.raw {
            low
        } else {
            self
        }
    }

    /// The whole number `v` as a fixed-point number.
    #[verifier::when_used_as_spec(spec_from_int)]
    pub fn from_int(v: i32) -> (r: Fixed)
        ensures
            r == Fixed::spec_from_int(v),
    {
        assert(v * ONE_RAW == v * 1_099_511_627_776);
        Fixed { raw: narrow(v as i128 * ONE_RAW as i128) }
    }

    /// Adds `rhs`.
    #[verifier::when_used_as_spec(spec_saturating_add)]
    pub fn saturating_add(self, rhs: Fixed) -> (r: Fixed)
        ensures
            r == self.spec_saturating_add(rhs),
    {
        Fixed { raw: narrow(self.raw as i128 + rhs.raw as i128) }
    }

    /// Subtracts `rhs`.
    #[verifier::when_used_as_spec(spec_saturating_sub)]
    pub fn saturating_sub(self, rhs: Fixed) -> (r: Fixed)
        ensures
            r == self.spec_saturating_sub(rhs),
    {
        Fixed { raw: narrow(self.raw as i128 - rhs.raw as i128) }
    }

    /// Negates the number.
    #[verifier::when_used_as_spec(spec_saturating_neg)]
    pub fn saturating_neg(self) -> (r: Fixed)
        ensures
            r == self.spec_saturating_neg(),
    {
        Fixed { raw: narrow(-(self.raw as i128)) }
    }

    /// Multiplies by `rhs`.
    #[verifier::when_used_as_spec(spec_saturating_mul)]
    pub fn saturating_mul(self, rhs: Fixed) -> (r: Fixed)
        ensures
            r == self.spec_saturating_mul(rhs),
    {
        assert(-0x4000_0000_0000_0000_0000_0000_0000_0000 <= self.raw * rhs.raw
            <= 0x4000_0000_0000_0000_0000_0000_0000_0000) by (nonlinear_arith)
            requires
                -0x8000_0000_0000_0000 <= self.raw <= 0x8000_0000_0000_0000,
                -0x8000_0000_0000_0000 <= rhs.raw <= 0x8000_0000_0000_0000,
        ;
        let product: i128 = self.raw as i128 * rhs.raw as i128;
        Fixed { raw: narrow(quotient(product, ONE_RAW as i128)) }
    }

    /// Divides by `rhs`, which is not zero.
    #[verifier::when_used_as_spec(spec_saturating_div)]
    pub fn saturating_div(self, rhs: Fixed) -> (r: Fixed)
        requires
            rhs.raw != 0,
        ensures
            r == self.spec_saturating_div(rhs),
    {
        assert(self.raw * ONE_RAW == self.raw * 1_099_511_627_776);
        let scaled: i128 = self.raw as i128 * ONE_RAW as i128;
        Fixed { raw: narrow(quotient(scaled, rhs.raw as i128)) }
    }

    /// Limits the number to `low` and `high`.
    #[verifier::when_used_as_spec(spec_clamp)]
    pub fn clamp(self, low: Fixed, high: Fixed) -> (r: Fixed)
        ensures
            r == self.spec_clamp(low, high),
    {
        if self.raw > high.raw {
            high
        } else if self.raw < low.raw {
            low
        } else {
            self
        }
    }
}

/// Bringing a product back to 40 fractional bits loses less than one unit of
/// the last place, and never rounds away from zero.
pub proof fn lemma_rescaling_loses_less_than_one(p: int)
    ensures
        ({
            let lost = p - ONE_RAW * div_toward_zero(p, ONE_RAW as int);
            &&& -ONE_RAW < lost < ONE_RAW
            &&& p >= 0 ==> lost >= 0
            &&& p <= 0 ==> lost <= 0
        }),
{
    let magnitude = vstd::math::abs(p) as int;
    vstd::arithmetic::div_mod::lemma_fundamental_div_mod(magnitude, ONE_RAW as int);
    vstd::arithmetic::div_mod::lemma_mod_bound(magnitude, ONE_RAW as int);
}

/// A product with a factor of magnitude at most one is no larger in
/// magnitude than the other factor, so that it does not saturate between the
/// bounds of the other factor.
pub proof fn lemma_mul_by_fraction(c: Fixed, x: Fixed, bound: int)
    requires
        -ONE_RAW <= c.raw <= ONE_RAW,
        0 <= bound <= i64::MAX,
        -bound <= x.raw <= bound,
    ensures
        c.saturating_mul(x).raw == div_toward_zero(c.raw * x.raw, ONE_RAW as int),
        -bound <= c.saturating_mul(x).raw <= bound,
{
    let p = c.raw * x.raw;
    assert(-1_099_511_627_776 * bound <= p <= 1_099_511_627_776 * bound) by (nonlinear_arith)
        requires
            p == c.raw * x.raw,
            -1_099_511_627_776 <= c.raw <= 1_099_511_627_776,
            -bound <= x.raw <= bound,
    ;
    lemma_rescaling_loses_less_than_one(p);
}

} // verus!
