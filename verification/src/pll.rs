//! Sensorless rotor estimation from phase voltages and currents.
//!
//! The best hint that electrical data gives about the rotor is the voltage
//! that it induces: it stands at a right angle to the rotor's flux axis (the
//! d axis). Seen from a frame that turns with the rotor, the induced voltage
//! therefore has no real part. The estimator keeps a guess of the rotor angle,
//! looks at the induced voltage from the frame of that guess, and lets a PID
//! controller pull the real part to zero by correcting the guessed speed. The
//! guessed angle is the integral of that speed.
//!
//! This works only on a rotor that already turns: without speed there is no
//! induced voltage to see. Bring the rotor up to speed open-loop first.

#![allow(non_snake_case)]

use vstd::prelude::*;
use crate::complex::Complex;
use crate::dq::ab2dq;
use crate::dq::abc2ab;
use crate::dq::Rotation;
use crate::error::ConfigError;
use crate::fixed::Fixed;
use crate::fixed::ONE_RAW;
use crate::fixed::TWO_PI_RAW;
use crate::motor::advance_angle;
use crate::motor::wrapped_angle;
use crate::motor::Config;
use crate::motor::Mechanical;
use crate::pid::PIDConfig;
use crate::pid::PidState;
use crate::pid::PID;

verus! {

/// Everything a sensorless estimator holds.
pub struct PllState {
    /// The controller that corrects the speed.
    pub pid: PidState,
    /// Stator phase resistance.
    pub resistance: Fixed,
    /// Samples per second.
    pub f_sampling: Fixed,
    /// Time between two samples in seconds.
    pub t_sample: Fixed,
    /// The guessed rotor angle.
    pub angle: Fixed,
    /// The guessed rotor speed.
    pub speed: Fixed,
}

impl PllState {
    /// The guessed angle lies in the turn `[0, 2π)`.
    pub open spec fn wf(self) -> bool {
        0 <= self.angle.raw < TWO_PI_RAW
    }

    /// The state of a fresh estimator: a fresh controller, the sample time
    /// `1 / f_sampling_Hz`, and the angle and speed of `start` as first guess.
    pub open spec fn initial(
        motor: Config,
        cfg: PIDConfig,
        f_sampling_Hz: Fixed,
        start: Mechanical,
    ) -> PllState {
        PllState {
            pid: PidState::initial(cfg, f_sampling_Hz),
            resistance: motor.resistance,
            f_sampling: f_sampling_Hz,
            t_sample: (Fixed { raw: ONE_RAW }).saturating_div(f_sampling_Hz),
            angle: wrapped_angle(start.angle, Fixed { raw: 0 }),
            speed: start.speed,
        }
    }

    /// The induced voltage in the stationary frame: the phase voltages less
    /// the drop `R · i` over the stator resistance.
    pub open spec fn induced_voltage(self, v_1: [Fixed; 3], i: [Fixed; 3]) -> Complex {
        abc2ab(v_1).saturating_sub(abc2ab(i).scaled(self.resistance))
    }

    /// The control error of one sample: the real part of the induced voltage,
    /// seen from the frame that is turned by `angle`.
    pub open spec fn error(self, v_1: [Fixed; 3], i: [Fixed; 3], angle: Rotation) -> Fixed {
        ab2dq(self.induced_voltage(v_1, i), angle).re
    }

    /// The guessed speed after one sample: the old guess plus the
    /// controller's output for the control error.
    pub open spec fn corrected_speed(self, v_1: [Fixed; 3], i: [Fixed; 3], angle: Rotation) -> Fixed {
        self.speed.saturating_add(self.pid.step(self.error(v_1, i, angle)).output)
    }

    /// The rotor state that the estimator reports for one sample: the
    /// corrected speed, the old angle advanced by that speed over one sample
    /// time, and the change of speed times the sampling frequency as
    /// acceleration.
    pub open spec fn estimate(self, v_1: [Fixed; 3], i: [Fixed; 3], angle: Rotation) -> Mechanical {
        let speed = self.corrected_speed(v_1, i, angle);
        Mechanical {
            angle: wrapped_angle(self.angle, speed.saturating_mul(self.t_sample)),
            speed,
            acceleration: speed.saturating_sub(self.speed).saturating_mul(self.f_sampling),
        }
    }

    /// The state after one sample.
    pub open spec fn step(self, v_1: [Fixed; 3], i: [Fixed; 3], angle: Rotation) -> PllState {
        PllState {
            pid: self.pid.step(self.error(v_1, i, angle)),
            resistance: self.resistance,
            f_sampling: self.f_sampling,
            t_sample: self.t_sample,
            angle: self.estimate(v_1, i, angle).angle,
            speed: self.estimate(v_1, i, angle).speed,
        }
    }
}

/// Sensorless rotor estimator.
#[derive(Debug)]
pub struct PllEstimator {
    /// The controller that corrects the speed.
    pid: PID,
    /// Stator phase resistance.
    resistance: Fixed,
    /// Samples per second.
    f_sampling: Fixed,
    /// Time between two samples in seconds.
    t_sample: Fixed,
    /// The guessed rotor angle.
    angle: Fixed,
    /// The guessed rotor speed.
    speed: Fixed,
}

impl View for PllEstimator {
    type V = PllState;

    closed spec fn view(&self) -> PllState {
        PllState {
            pid: self.pid@,
            resistance: self.resistance,
            f_sampling: self.f_sampling,
            t_sample: self.t_sample,
            angle: self.angle,
            speed: self.speed,
        }
    }
}

impl PllEstimator {
    /// An estimator for the machine `motor`, sampled `f_sampling_Hz` times a
    /// second, whose speed is corrected by a controller with the gains and
    /// limits of `cfg`, and whose first guess is the angle and speed of
    /// `start`. A sampling frequency of zero is refused.
    pub fn new(motor: &Config, cfg: PIDConfig, f_sampling_Hz: Fixed, start: Mechanical) -> (pll:
        Result<PllEstimator, ConfigError>)
        ensures
            f_sampling_Hz.raw == 0 ==> (pll matches Err(e) && e
                == ConfigError::ZeroSamplingFrequency),
            f_sampling_Hz.raw != 0 ==> (pll matches Ok(p) && p@ == PllState::initial(
                *motor,
                cfg,
                f_sampling_Hz,
                start,
            ) && p@.wf()),
    {
        let pid = match PID::new(cfg, f_sampling_Hz) {
            Ok(pid) => pid,
            Err(e) => {
                return Err(e);
            },
        };
        let t_sample: Fixed = Fixed { raw: ONE_RAW }.saturating_div(f_sampling_Hz);
        Ok(
            PllEstimator {
                pid,
                resistance: motor.resistance,
                f_sampling: f_sampling_Hz,
                t_sample,
                angle: advance_angle(start.angle, Fixed { raw: 0 }),
                speed: start.speed,
            },
        )
    }

    /// The guessed rotor angle.
    pub fn angle(&self) -> (angle: Fixed)
        ensures
            angle == self@.angle,
    {
        self.angle
    }
}

/// Takes in one sample of the three phase voltages `v_1` and phase currents
/// `i`, and returns the rotor state estimated from it.
///
/// `angle` is the cosine and sine of the angle that the estimator guessed
/// last, as [`PllEstimator::angle`] returns it.
pub fn pll(estimator: &mut PllEstimator, v_1: [Fixed; 3], i: [Fixed; 3], angle: Rotation) -> (rotor:
    Mechanical)
    ensures
        rotor == old(estimator)@.estimate(v_1, i, angle),
        final(estimator)@ == old(estimator)@.step(v_1, i, angle),
        final(estimator)@.wf(),
        rotor.angle_wrapped(),
{
    // transform input to ab
    let v_ab: Complex = abc2ab(v_1);
    let i_ab: Complex = abc2ab(i);
    // voltage drop over the stator resistance
    let v_z: Complex = i_ab.scaled(estimator.resistance);
    // what is left is the induced voltage
    let v_ind: Complex = v_ab.saturating_sub(v_z);
    // its real part in the guessed rotor frame drives the control loop
    let v_dq: Complex = ab2dq(v_ind, angle);
    let correction: Fixed = estimator.pid.update(v_dq.re);
    let speed: Fixed = estimator.speed.saturating_add(correction);
    let acceleration: Fixed = speed.saturating_sub(estimator.speed).saturating_mul(
        estimator.f_sampling,
    );
    // integrate rotor speed for angle
    let angle: Fixed = advance_angle(estimator.angle, speed.saturating_mul(estimator.t_sample));
    estimator.speed = speed;
    estimator.angle = angle;
    Mechanical { angle, speed, acceleration }
}

/// A locked loop keeps its speed: where the controller answers the sample
/// with no correction, as a proportional controller does when the induced
/// voltage has no real part in the guessed frame, the estimator reports its
/// old speed, no acceleration, and an angle that has advanced by that speed
/// over one sample time.
pub proof fn lemma_locked_loop_keeps_speed(
    state: PllState,
    v_1: [Fixed; 3],
    i: [Fixed; 3],
    angle: Rotation,
)
    requires
        state.pid.step(state.error(v_1, i, angle)).output.raw == 0,
    ensures
        state.estimate(v_1, i, angle) == (Mechanical {
            angle: wrapped_angle(state.angle, state.speed.saturating_mul(state.t_sample)),
            speed: state.speed,
            acceleration: Fixed { raw: 0 },
        }),
{
    assert(0 * state.f_sampling.raw == 0);
}

} // verus!
