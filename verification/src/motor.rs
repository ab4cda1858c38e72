//! Passive records of a permanent-magnet machine: its parameters, and its
//! electrical and mechanical state.

use vstd::prelude::*;
use crate::complex::Complex;
use crate::fixed::Fixed;
use crate::fixed::TWO_PI_RAW;

verus! {

/// Parameters of the machine.
#[derive(Clone, Copy, Debug, PartialEq, Eq, Structural)]
pub struct Config {
    /// Stator phase resistance.
    pub resistance: Fixed,
    /// Inductance along the two rotor axes. A rotor without iron has the same
    /// inductance along both: put the measured value in both parts.
    pub inductance: Complex,
    /// Magnetic flux of the rotor as the stator sees it.
    pub flux: Fixed,
    /// Rotor inertia.
    pub inertia: Fixed,
}

/// Electrical state of the machine, in the rotating frame.
#[derive(Clone, Copy, Debug, PartialEq, Eq, Structural)]
pub struct Electrical {
    /// Voltage on the machine in dq.
    pub voltage: Complex,
    /// Current through the machine in dq.
    pub current: Complex,
}

impl Electrical {
    /// Active power: the product of the imaginary parts of voltage and
    /// current.
    pub fn calc_power_active(&self) -> (power: Fixed)
        ensures
            power == self.voltage.im.saturating_mul(self.current.im),
    {
        self.voltage.im.saturating_mul(self.current.im)
    }

    /// Reactive power: the product of the real parts of voltage and current.
    pub fn calc_power_reactive(&self) -> (power: Fixed)
        ensures
            power == self.voltage.re.saturating_mul(self.current.re),
    {
        self.voltage.re.saturating_mul(self.current.re)
    }

    /// Apparent power: the complex product of voltage and current.
    pub fn calc_power_apparent(&self) -> (power: Complex)
        ensures
            power == self.voltage.saturating_mul(self.current),
    {
        self.voltage.saturating_mul(self.current)
    }
}

/// The angle `angle + step`, brought into the turn `[0, 2π)`.
pub open spec fn wrapped_angle(angle: Fixed, step: Fixed) -> Fixed {
    Fixed { raw: ((angle.raw + step.raw) % (TWO_PI_RAW as int)) as i64 }
}

/// Adds `step` to `angle` and brings the sum into the turn `[0, 2π)`.
pub fn advance_angle(angle: Fixed, step: Fixed) -> (r: Fixed)
    ensures
        r == wrapped_angle(angle, step),
        0 <= r.raw < TWO_PI_RAW,
{
    let turn: i128 = TWO_PI_RAW as i128;
    let sum: i128 = angle.raw as i128 + step.raw as i128;
    let rest: i128 = sum % turn;
    let wrapped: i128 = if rest < 0 { rest + turn } else { rest };
    Fixed { raw: wrapped as i64 }
}

/// Mechanical state of the rotor.
#[derive(Clone, Copy, Debug, PartialEq, Eq, Structural)]
pub struct Mechanical {
    /// Rotor angle in rad.
    pub angle: Fixed,
    /// Rotor speed in rad/s.
    pub speed: Fixed,
    /// Rotor acceleration in rad/s².
    pub acceleration: Fixed,
}

impl Mechanical {
    /// The angle lies in the turn `[0, 2π)`.
    pub open spec fn angle_wrapped(self) -> bool {
        0 <= self.angle.raw < TWO_PI_RAW
    }

    /// The state one time step `t_delta` later: the speed gains
    /// `acceleration · t_delta`, then the angle gains `speed · t_delta` with
    /// the new speed and is wrapped into one turn.
    pub open spec fn after(self, t_delta: Fixed) -> Mechanical {
        let speed = self.speed.saturating_add(self.acceleration.saturating_mul(t_delta));
        Mechanical {
            angle: wrapped_angle(self.angle, speed.saturating_mul(t_delta)),
            speed,
            acceleration: self.acceleration,
        }
    }

    /// The state after one time step of each length in `steps`, in order.
    pub open spec fn after_all(self, steps: Seq<Fixed>) -> Mechanical
        decreases steps.len(),
    {
        if steps.len() == 0 {
            self
        } else {
            self.after_all(steps.drop_last()).after(steps.last())
        }
    }

    /// Integrates speed and angle over the time step `t_delta`.
    pub fn calc_state_iteration(&mut self, t_delta: Fixed)
        ensures
            *final(self) == old(self).after(t_delta),
            final(self).angle_wrapped(),
    {
        self.speed = self.speed.saturating_add(self.acceleration.saturating_mul(t_delta));
        self.angle = advance_angle(self.angle, self.speed.saturating_mul(t_delta));
    }
}

/// Electrical and mechanical state of one machine.
#[derive(Clone, Copy, Debug, PartialEq, Eq, Structural)]
pub struct Motor {
    /// Electrical data.
    pub elec: Electrical,
    /// Mechanical data.
    pub mech: Mechanical,
}

/// A rotor at rest stays at rest: without speed and acceleration, any number
/// of time steps of any lengths leaves a state with a wrapped angle as it is.
pub proof fn lemma_rest_is_kept(state: Mechanical, steps: Seq<Fixed>)
    requires
        state.speed.raw == 0,
        state.acceleration.raw == 0,
        state.angle_wrapped(),
    ensures
        state.after_all(steps) == state,
    decreases steps.len(),
{
    if steps.len() > 0 {
        lemma_rest_is_kept(state, steps.drop_last());
    }
}

/// After any time step the angle lies in the turn `[0, 2π)`, whatever the
/// state was before.
pub proof fn lemma_angle_is_wrapped(state: Mechanical, steps: Seq<Fixed>)
    requires
        steps.len() > 0,
    ensures
        state.after_all(steps).angle_wrapped(),
{
}

} // verus!
