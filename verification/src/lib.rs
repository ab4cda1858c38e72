//! Field-oriented control of permanent-magnet machines on fixed-point
//! numbers, with every function proved against its contract.
//!
//! The crate holds the estimation and control layer of a motor controller:
//!
//! - [`dq`]: the transforms between three phases, the stationary two-axis
//!   frame and the frame that turns with the rotor; [`round_trip`] proves
//!   what each pair of them gives one after the other;
//! - [`hall`]: the rotor state from the edges of three hall sensors;
//! - [`pll`]: the rotor state from phase voltages and currents alone;
//! - [`pid`] and [`pt1`]: a PID controller with anti-windup and a first-order
//!   low-pass filter;
//! - [`motor`]: the records that the others take and give;
//! - [`fixed`] and [`complex`]: the numbers that all of them compute on.
//!
//! Nothing here allocates, blocks or loops: every call is a fixed number of
//! integer operations, fit for an interrupt routine. Numbers are 64-bit
//! fixed-point values with 40 fractional bits whose arithmetic saturates.
//! But for a division by zero, which the contract of the division rules out,
//! no input makes a call fail; what an estimator or a controller refuses, it
//! refuses by its result.
//!
//! Each estimator and controller is described by a plain record of what it
//! holds ([`hall::HallState`], [`pid::PidState`], [`pt1::Pt1State`],
//! [`pll::PllState`]) and by functions on that record that say what one call
//! answers and what it leaves behind. The contracts of the executable
//! functions are stated over these, and so are the laws that are proved of
//! them.

pub mod complex;
pub mod dq;
pub mod error;
pub mod fixed;
pub mod hall;
pub mod motor;
pub mod pid;
pub mod pll;
pub mod pt1;
pub mod round_trip;
