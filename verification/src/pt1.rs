//! Discrete first-order low-pass filter (PT1).

#![allow(non_snake_case)]

use vstd::prelude::*;
use crate::error::ConfigError;
use crate::fixed::saturate;
use crate::fixed::Fixed;
use crate::fixed::ONE_RAW;

verus! {

/// Gain and time constant of a PT1 filter.
#[derive(Clone, Copy, Debug, PartialEq, Eq, Structural)]
pub struct PT1Config {
    /// Gain applied to the input.
    pub K_p: Fixed,
    /// Time constant in seconds.
    pub T: Fixed,
}

/// Everything a PT1 filter holds: its integrator, its last output, and its
/// gain and time constant, the latter in samples.
pub struct Pt1State {
    /// The integrator.
    pub integrator: Fixed,
    /// The output of the last update.
    pub output: Fixed,
    /// Gain, and time constant in samples.
    pub config: PT1Config,
}

impl Pt1State {
    /// The time constant is not zero.
    pub open spec fn wf(self) -> bool {
        self.config.T.raw != 0
    }

    /// The state of a fresh filter: integrator and output empty, the time
    /// constant multiplied by the sampling frequency.
    pub open spec fn initial(cfg: PT1Config, f_sample_Hz: Fixed) -> Pt1State {
        Pt1State {
            integrator: Fixed { raw: 0 },
            output: Fixed { raw: 0 },
            config: PT1Config { K_p: cfg.K_p, T: cfg.T.saturating_mul(f_sample_Hz) },
        }
    }

    /// The integrator after an update with `input`: it gains
    /// `input · K_p − integrator / T`.
    pub open spec fn integrated(self, input: Fixed) -> Fixed {
        self.integrator.saturating_add(
            input.saturating_mul(self.config.K_p).saturating_sub(
                self.integrator.saturating_div(self.config.T),
            ),
        )
    }

    /// The state after an update with `input`: the output is the new
    /// integrator over `T`.
    pub open spec fn step(self, input: Fixed) -> Pt1State {
        Pt1State {
            integrator: self.integrated(input),
            output: self.integrated(input).saturating_div(self.config.T),
            config: self.config,
        }
    }

    /// The state after `n` updates with the same `input`.
    pub open spec fn after_steady(self, input: Fixed, n: nat) -> Pt1State
        decreases n,
    {
        if n == 0 {
            self
        } else {
            self.after_steady(input, (n - 1) as nat).step(input)
        }
    }

    /// The integrator is not negative and has not passed the value at which
    /// the output reaches `goal`.
    pub open spec fn below(self, goal: Fixed) -> bool {
        0 <= self.integrator.raw && self.integrator.raw * ONE_RAW < (goal.raw + 1)
            * self.config.T.raw
    }

    /// The state after a reset to the output `reset_value`.
    pub open spec fn with_output(self, reset_value: Fixed) -> Pt1State {
        Pt1State {
            integrator: reset_value.saturating_mul(self.config.T),
            output: reset_value,
            config: self.config,
        }
    }
}

/// PT1 filter.
#[derive(Debug)]
pub struct PT1 {
    /// Integrator state.
    i_chan: Fixed,
    /// Most recent output.
    output: Fixed,
    /// Gain, and time constant in samples.
    config: PT1Config,
}

impl View for PT1 {
    type V = Pt1State;

    closed spec fn view(&self) -> Pt1State {
        Pt1State { integrator: self.i_chan, output: self.output, config: self.config }
    }
}

impl PT1 {
    #[verifier::type_invariant]
    spec fn time_constant_nonzero(self) -> bool {
        self.config.T.raw != 0
    }

    /// A filter with the gain and time constant of `cfg`, sampled
    /// `f_sample_Hz` times a second. Refused are a sampling frequency of zero,
    /// and a time constant that is zero or vanishes when counted in samples.
    pub fn new(cfg: PT1Config, f_sample_Hz: Fixed) -> (pt1: Result<PT1, ConfigError>)
        ensures
            f_sample_Hz.raw == 0 ==> (pt1 matches Err(e) && e == ConfigError::ZeroSamplingFrequency),
            f_sample_Hz.raw != 0 && cfg.T.saturating_mul(f_sample_Hz).raw == 0 ==> (pt1 matches Err(e)
                && e == ConfigError::ZeroTimeConstant),
            f_sample_Hz.raw != 0 && cfg.T.saturating_mul(f_sample_Hz).raw != 0 ==> (pt1 matches Ok(p)
                && p@ == Pt1State::initial(cfg, f_sample_Hz) && p@.wf()),
    {
        if f_sample_Hz.raw == 0 {
            return Err(ConfigError::ZeroSamplingFrequency);
        }
        let newconfig = PT1Config { K_p: cfg.K_p, T: cfg.T.saturating_mul(f_sample_Hz) };
        if newconfig.T.raw == 0 {
            return Err(ConfigError::ZeroTimeConstant);
        }
        Ok(PT1 { i_chan: Fixed { raw: 0 }, output: Fixed { raw: 0 }, config: newconfig })
    }

    /// Feeds the filter a new input and returns its new output.
    pub fn update(&mut self, input: Fixed) -> (output: Fixed)
        ensures
            final(self)@ == old(self)@.step(input),
            final(self)@.wf(),
            output == final(self)@.output,
    {
        proof {
            use_type_invariant(&*self);
        }
        self.i_chan = self.i_chan.saturating_add(
            input.saturating_mul(self.config.K_p).saturating_sub(
                self.i_chan.saturating_div(self.config.T),
            ),
        );
        self.output = self.i_chan.saturating_div(self.config.T);

        self.output
    }

    /// Sets the filter to the output `reset_value`, and its integrator to
    /// match. If in doubt, use zero.
    pub fn reset(&mut self, reset_value: Fixed)
        ensures
            final(self)@ == old(self)@.with_output(reset_value),
            final(self)@.wf(),
    {
        proof {
            use_type_invariant(&*self);
        }
        self.i_chan = reset_value.saturating_mul(self.config.T);
        self.output = reset_value;
    }

    /// The output of the last update or reset.
    pub fn output(&self) -> (output: Fixed)
        ensures
            output == self@.output,
    {
        self.output
    }
}

/// Steady state: a filter whose integrator over `T` already equals the
/// amplified input stays where it is, and its output is the amplified input.
pub proof fn lemma_steady_state(state: Pt1State, input: Fixed)
    requires
        state.integrator.saturating_div(state.config.T) == input.saturating_mul(state.config.K_p),
    ensures
        state.step(input).integrator == state.integrator,
        state.step(input).output == input.saturating_mul(state.config.K_p),
{
}

/// One update on the way to the steady state: with a time constant of at
/// least one sample and an amplified input `goal` that is not negative, a
/// filter below the goal stays below it, its integrator does not fall, and
/// its new output lies between the integrator's old share and the goal.
pub proof fn lemma_step_toward_goal(state: Pt1State, input: Fixed)
    requires
        state.config.T.raw >= ONE_RAW,
        input.saturating_mul(state.config.K_p).raw >= 0,
        state.below(input.saturating_mul(state.config.K_p)),
    ensures
        state.step(input).below(input.saturating_mul(state.config.K_p)),
        state.step(input).integrator.raw >= state.integrator.raw,
        state.integrator.saturating_div(state.config.T).raw <= state.step(input).output.raw
            <= input.saturating_mul(state.config.K_p).raw,
{
    let goal = input.saturating_mul(state.config.K_p).raw as int;
    let t = state.config.T.raw as int;
    let i = state.integrator.raw as int;
    let share = lemma_share(i, t, goal);
    let gain = goal - share;
    let next = state.step(input).integrator.raw as int;
    // the exact sum is below the goal, and saturation only lowers it
    assert((i + gain) * 1_099_511_627_776 < (goal + 1) * t) by (nonlinear_arith)
        requires
            share * t <= i * 1_099_511_627_776 < share * t + t,
            gain == goal - share,
            gain >= 0,
            t >= 1_099_511_627_776,
    ;
    let next_share = lemma_share(next, t, goal);
    assert(share <= next_share) by (nonlinear_arith)
        requires
            share * t <= i * 1_099_511_627_776,
            next * 1_099_511_627_776 < next_share * t + t,
            i <= next,
            t > 0,
    ;
}

/// The share `i / T` of an integrator `i` that is below the goal: the
/// quotient of `i · 2^40` by `T`, which is not negative and not above the
/// goal.
proof fn lemma_share(i: int, t: int, goal: int) -> (share: int)
    requires
        0 <= i <= i64::MAX,
        1_099_511_627_776 <= t <= i64::MAX,
        0 <= goal <= i64::MAX,
        i * ONE_RAW < (goal + 1) * t,
    ensures
        share == (Fixed { raw: i as i64 }).saturating_div(Fixed { raw: t as i64 }).raw,
        0 <= share <= goal,
        share * t <= i * 1_099_511_627_776 < share * t + t,
{
    let n = i * 1_099_511_627_776;
    let share = n / t;
    vstd::arithmetic::div_mod::lemma_fundamental_div_mod(n, t);
    vstd::arithmetic::div_mod::lemma_mod_bound(n, t);
    assert(0 <= share <= goal) by (nonlinear_arith)
        requires
            share * t <= n < share * t + t,
            0 <= n < (goal + 1) * t,
            t > 0,
    ;
    share
}

/// Step response: a filter at rest, with a time constant of at least one
/// sample, that is fed one input again and again, whose amplified value is
/// not negative, never lowers its output and never passes the amplified
/// input.
pub proof fn lemma_step_response(state: Pt1State, input: Fixed, n: nat)
    requires
        state.integrator.raw == 0,
        state.output.raw == 0,
        state.config.T.raw >= ONE_RAW,
        input.saturating_mul(state.config.K_p).raw >= 0,
    ensures
        state.after_steady(input, n).config == state.config,
        state.after_steady(input, n).below(input.saturating_mul(state.config.K_p)),
        state.after_steady(input, n).output == state.after_steady(
            input,
            n,
        ).integrator.saturating_div(state.config.T),
        0 <= state.after_steady(input, n).output.raw <= state.after_steady(
            input,
            n + 1,
        ).output.raw <= input.saturating_mul(state.config.K_p).raw,
    decreases n,
{
    let goal = input.saturating_mul(state.config.K_p);
    assert(0 < (goal.raw + 1) * state.config.T.raw) by (nonlinear_arith)
        requires
            goal.raw >= 0,
            state.config.T.raw > 0,
    ;
    if n > 0 {
        lemma_step_response(state, input, (n - 1) as nat);
        lemma_step_toward_goal(state.after_steady(input, (n - 1) as nat), input);
    }
    lemma_step_toward_goal(state.after_steady(input, n), input);
}

} // verus!
