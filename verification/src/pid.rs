//! Discrete PID controller with anti-windup and output limits.

#![allow(non_snake_case)]

use vstd::prelude::*;
use crate::error::ConfigError;
use crate::fixed::Fixed;
use crate::fixed::ONE_RAW;

verus! {

/// Gains and limits of a PID controller.
#[derive(Clone, Copy, Debug, PartialEq, Eq, Structural)]
pub struct PIDConfig {
    /// Proportional gain, applied to the sum of all three channels.
    pub K_p: Fixed,
    /// Integrator gain per second.
    pub K_i: Fixed,
    /// Differentiator gain in seconds.
    pub K_d: Fixed,
    /// Upper limit of integrator and output.
    pub limit_high: Fixed,
    /// Lower limit of integrator and output.
    pub limit_low: Fixed,
}

/// Everything a PID controller holds: its three memories, and its gains per
/// sample.
pub struct PidState {
    /// The integrator channel.
    pub integrator: Fixed,
    /// The error of the last update, which the differentiator compares with.
    pub last_error: Fixed,
    /// The output of the last update.
    pub output: Fixed,
    /// Limits and gains, the integrator and differentiator gains per sample.
    pub config: PIDConfig,
}

impl PidState {
    /// The state of a fresh controller: all memories empty, the integrator
    /// and differentiator gains divided by the sampling frequency.
    pub open spec fn initial(cfg: PIDConfig, f_sampling_Hz: Fixed) -> PidState {
        PidState {
            integrator: Fixed { raw: 0 },
            last_error: Fixed { raw: 0 },
            output: Fixed { raw: 0 },
            config: PIDConfig {
                K_p: cfg.K_p,
                K_i: cfg.K_i.saturating_div(f_sampling_Hz),
                K_d: cfg.K_d.saturating_div(f_sampling_Hz),
                limit_high: cfg.limit_high,
                limit_low: cfg.limit_low,
            },
        }
    }

    /// The integrator after an update with `error`: with an integrator gain,
    /// the old value plus `K_i · error`, held inside the limits; without one,
    /// zero.
    pub open spec fn integrated(self, error: Fixed) -> Fixed {
        if self.config.K_i.raw != 0 {
            self.integrator.saturating_add(self.config.K_i.saturating_mul(error)).clamp(
                self.config.limit_low,
                self.config.limit_high,
            )
        } else {
            Fixed { raw: 0 }
        }
    }

    /// The differentiator term of an update with `error`:
    /// `K_d · (error − last error)`.
    pub open spec fn differentiated(self, error: Fixed) -> Fixed {
        self.config.K_d.saturating_mul(error.saturating_sub(self.last_error))
    }

    /// The state after an update with `error`: the output is
    /// `(integrator + differentiator term + error) · K_p`, held inside the
    /// limits.
    pub open spec fn step(self, error: Fixed) -> PidState {
        PidState {
            integrator: self.integrated(error),
            last_error: error,
            output: self.integrated(error).saturating_add(self.differentiated(error)).saturating_add(
                error,
            ).saturating_mul(self.config.K_p).clamp(self.config.limit_low, self.config.limit_high),
            config: self.config,
        }
    }

    /// The state after one update with each of `errors`, in order.
    pub open spec fn after_all(self, errors: Seq<Fixed>) -> PidState
        decreases errors.len(),
    {
        if errors.len() == 0 {
            self
        } else {
            self.after_all(errors.drop_last()).step(errors.last())
        }
    }

    /// The state after a reset of the two memories.
    pub open spec fn with_memories(self, i_channel: Fixed, d_channel: Fixed) -> PidState {
        PidState {
            integrator: i_channel,
            last_error: d_channel,
            output: self.output,
            config: self.config,
        }
    }
}

/// PID controller.
#[derive(Debug, PartialEq, Eq, Structural)]
pub struct PID {
    /// State of the integrator channel.
    i_chan: Fixed,
    /// State of the differentiator channel: the error last seen.
    d_chan: Fixed,
    /// Most recent output.
    output: Fixed,
    /// Gains per sample, and limits.
    config: PIDConfig,
}

impl View for PID {
    type V = PidState;

    closed spec fn view(&self) -> PidState {
        PidState {
            integrator: self.i_chan,
            last_error: self.d_chan,
            output: self.output,
            config: self.config,
        }
    }
}

impl PID {
    /// A controller with the gains of `cfg`, which are given in continuous
    /// time, sampled `f_sampling_Hz` times a second. A sampling frequency of
    /// zero is refused.
    pub fn new(cfg: PIDConfig, f_sampling_Hz: Fixed) -> (pid: Result<PID, ConfigError>)
        ensures
            f_sampling_Hz.raw == 0 ==> (pid matches Err(e) && e
                == ConfigError::ZeroSamplingFrequency),
            f_sampling_Hz.raw != 0 ==> (pid matches Ok(p) && p@ == PidState::initial(
                cfg,
                f_sampling_Hz,
            )),
    {
        if f_sampling_Hz.raw == 0 {
            return Err(ConfigError::ZeroSamplingFrequency);
        }
        let newconfig = PIDConfig {
            K_p: cfg.K_p,
            K_i: cfg.K_i.saturating_div(f_sampling_Hz),
            K_d: cfg.K_d.saturating_div(f_sampling_Hz),
            limit_high: cfg.limit_high,
            limit_low: cfg.limit_low,
        };
        Ok(
            PID {
                i_chan: Fixed { raw: 0 },
                d_chan: Fixed { raw: 0 },
                output: Fixed { raw: 0 },
                config: newconfig,
            },
        )
    }

    /// Feeds the controller the current control error and returns its new
    /// output.
    pub fn update(&mut self, error: Fixed) -> (output: Fixed)
        ensures
            final(self)@ == old(self)@.step(error),
            output == final(self)@.output,
            old(self)@.config.limit_low.raw <= old(self)@.config.limit_high.raw ==> old(
                self,
            )@.config.limit_low.raw <= output.raw <= old(self)@.config.limit_high.raw,
    {
        // I channel, with anti-windup
        if self.config.K_i.raw != 0 {
            self.i_chan = self.i_chan.saturating_add(self.config.K_i.saturating_mul(error)).clamp(
                self.config.limit_low,
                self.config.limit_high,
            );
        } else {
            self.i_chan = Fixed { raw: 0 };
        }

        // D channel
        let d: Fixed = self.config.K_d.saturating_mul(error.saturating_sub(self.d_chan));
        self.d_chan = error;

        // final amplification and output limit
        self.output = self.i_chan.saturating_add(d).saturating_add(error).saturating_mul(
            self.config.K_p,
        ).clamp(self.config.limit_low, self.config.limit_high);

        self.output
    }

    /// Sets the integrator and the differentiator's memory of the last error
    /// to the given values.
    pub fn reset(&mut self, i_channel: Fixed, d_channel: Fixed)
        ensures
            final(self)@ == old(self)@.with_memories(i_channel, d_channel),
    {
        self.i_chan = i_channel;
        self.d_chan = d_channel;
    }
}

/// A purely proportional controller of gain one hands its input through,
/// held inside its limits.
pub proof fn lemma_proportional_only(state: PidState, x: Fixed)
    requires
        state.config.K_p.raw == ONE_RAW,
        state.config.K_i.raw == 0,
        state.config.K_d.raw == 0,
    ensures
        state.step(x).output == x.clamp(state.config.limit_low, state.config.limit_high),
{
}

/// Anti-windup: whatever the state and the error, an update leaves the output
/// inside the limits, and the integrator too, provided that the limits are
/// in order and the integrator is in use or zero lies inside them.
pub proof fn lemma_anti_windup(state: PidState, error: Fixed)
    requires
        state.config.limit_low.raw <= state.config.limit_high.raw,
    ensures
        state.config.limit_low.raw <= state.step(error).output.raw <= state.config.limit_high.raw,
        state.config.K_i.raw != 0 || state.config.limit_low.raw <= 0 <= state.config.limit_high.raw
            ==> state.config.limit_low.raw <= state.step(error).integrator.raw
            <= state.config.limit_high.raw,
{
}

/// Anti-windup over time: after any run of updates, however large the
/// errors, the controller still has its gains and limits, its output lies
/// inside the limits, and so does its integrator, provided that the limits
/// are in order and the integrator is in use or zero lies inside them.
pub proof fn lemma_anti_windup_holds(state: PidState, errors: Seq<Fixed>)
    requires
        errors.len() > 0,
        state.config.limit_low.raw <= state.config.limit_high.raw,
    ensures
        state.after_all(errors).config == state.config,
        state.config.limit_low.raw <= state.after_all(errors).output.raw
            <= state.config.limit_high.raw,
        state.config.K_i.raw != 0 || state.config.limit_low.raw <= 0 <= state.config.limit_high.raw
            ==> state.config.limit_low.raw <= state.after_all(errors).integrator.raw
            <= state.config.limit_high.raw,
    decreases errors.len(),
{
    let before = state.after_all(errors.drop_last());
    if errors.len() > 1 {
        lemma_anti_windup_holds(state, errors.drop_last());
    }
    lemma_anti_windup(before, errors.last());
}

/// Reset, then an update with error zero: the output is the integrator's
/// new value times `K_p`, held inside the limits, provided that the
/// integrator keeps the value (it is in use and the value lies inside the
/// limits, or it is not in use and the value is zero) and the differentiator
/// adds nothing.
pub proof fn lemma_reset_then_update(state: PidState, i_channel: Fixed, d_channel: Fixed)
    requires
        if state.config.K_i.raw != 0 {
            state.config.limit_low.raw <= i_channel.raw <= state.config.limit_high.raw
        } else {
            i_channel.raw == 0
        },
        state.with_memories(i_channel, d_channel).differentiated(Fixed { raw: 0 }).raw == 0,
    ensures
        state.with_memories(i_channel, d_channel).step(Fixed { raw: 0 }).output
            == i_channel.saturating_mul(state.config.K_p).clamp(
            state.config.limit_low,
            state.config.limit_high,
        ),
{
}

} // verus!
