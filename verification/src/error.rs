//! Configurations that a controller refuses at construction.

use vstd::prelude::*;

verus! {

/// Why a controller could not be built from a configuration.
#[derive(Clone, Copy, Debug, PartialEq, Eq, Structural)]
pub enum ConfigError {
    /// The sampling frequency is zero.
    ZeroSamplingFrequency,
    /// The time constant is zero, or so small that it vanishes at the given
    /// sampling frequency.
    ZeroTimeConstant,
}

} // verus!
