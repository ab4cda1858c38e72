//! Two-axis quantities: a voltage or a current as a real and an imaginary
//! part.

use vstd::prelude::*;
use crate::fixed::Fixed;

verus! {

/// A two-axis quantity `re + j·im`.
#[derive(Clone, Copy, Debug, PartialEq, Eq, Structural)]
pub struct Complex {
    /// Real part.
    pub re: Fixed,
    /// Imaginary part.
    pub im: Fixed,
}

impl Complex {
    /// `self − rhs`, part by part.
    pub open spec fn spec_saturating_sub(self, rhs: Complex) -> Complex {
        Complex { re: self.re.saturating_sub(rhs.re), im: self.im.saturating_sub(rhs.im) }
    }

    /// `factor · self`, part by part.
    pub open spec fn spec_scaled(self, factor: Fixed) -> Complex {
        Complex { re: factor.saturating_mul(self.re), im: factor.saturating_mul(self.im) }
    }

    /// The complex product `self · rhs`:
    /// `(re·re' − im·im') + j·(re·im' + im·re')`.
    pub open spec fn spec_saturating_mul(self, rhs: Complex) -> Complex {
        Complex {
            re: self.re.saturating_mul(rhs.re).saturating_sub(self.im.saturating_mul(rhs.im)),
            im: self.re.saturating_mul(rhs.im).saturating_add(self.im.saturating_mul(rhs.re)),
        }
    }

    /// Subtracts `rhs`, part by part.
    #[verifier::when_used_as_spec(spec_saturating_sub)]
    pub fn saturating_sub(self, rhs: Complex) -> (r: Complex)
        ensures
            r == self.spec_saturating_sub(rhs),
    {
        Complex { re: self.re.saturating_sub(rhs.re), im: self.im.saturating_sub(rhs.im) }
    }

    /// Multiplies both parts by `factor`.
    #[verifier::when_used_as_spec(spec_scaled)]
    pub fn scaled(self, factor: Fixed) -> (r: Complex)
        ensures
            r == self.spec_scaled(factor),
    {
        Complex { re: factor.saturating_mul(self.re), im: factor.saturating_mul(self.im) }
    }

    /// Multiplies by `rhs`.
    #[verifier::when_used_as_spec(spec_saturating_mul)]
    pub fn saturating_mul(self, rhs: Complex) -> (r: Complex)
        ensures
            r == self.spec_saturating_mul(rhs),
    {
        Complex {
            re: self.re.saturating_mul(rhs.re).saturating_sub(self.im.saturating_mul(rhs.im)),
            im: self.re.saturating_mul(rhs.im).saturating_add(self.im.saturating_mul(rhs.re)),
        }
    }
}

} // verus!
