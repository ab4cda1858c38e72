//! Rotor estimation from three hall sensors.
//!
//! Three hall sensors mounted 120° apart split the turn into six sectors of
//! 60°. Each edge on one of the lines tells that the rotor has just crossed
//! the boundary between two neighbouring sectors:
//!
//! | sector | rotor angle | hall 1 | hall 2 | hall 3 | sum |
//! | ------ | ----------- | ------ | ------ | ------ | --- |
//! | 0      | 330° –  30° | true   | false  | false  | 1   |
//! | 1      |  30° –  90° | true   | true   | false  | 3   |
//! | 2      |  90° – 150° | false  | true   | false  | 2   |
//! | 3      | 150° – 210° | false  | true   | true   | 6   |
//! | 4      | 210° – 270° | false  | false  | true   | 4   |
//! | 5      | 270° – 330° | true   | false  | true   | 5   |

use vstd::prelude::*;
use crate::fixed::Fixed;
use crate::fixed::ONE_RAW;
use crate::fixed::SIXTH_PI_RAW;
use crate::fixed::THIRD_PI_RAW;
use crate::fixed::TWO_PI_RAW;
use crate::motor::Mechanical;

verus! {

/// Sector of each valid hall sum, at index `sum - 1`.
pub const HALL_SUM_TO_SECTOR_NO: [i8; 6] = [0, 2, 1, 4, 5, 3];

/// Why the estimator gave no rotor state.
#[derive(Clone, Copy, Debug, PartialEq, Eq, Structural)]
pub enum HallFault {
    /// All three hall lines are low, or all three are high.
    Sensor,
    /// The time since the last edge is not positive.
    Interval,
    /// The new sector is not next to the last one.
    Transition,
}

/// The three hall lines packed into one number: `hall_1 + 2·hall_2 + 4·hall_3`.
pub open spec fn hall_sum(hall_1: bool, hall_2: bool, hall_3: bool) -> int {
    (if hall_1 { 1int } else { 0int }) + (if hall_2 { 2int } else { 0int })
        + (if hall_3 { 4int } else { 0int })
}

/// The sector that a valid hall sum (1 to 6) stands for.
pub open spec fn sector_of_sum(sum: int) -> int {
    HALL_SUM_TO_SECTOR_NO[sum - 1] as int
}

/// Whether a sector difference is one step to a neighbouring sector.
///
/// The differences `1` and `-1` are steps inside the turn; `-5` is the step
/// from sector 5 on to sector 0, and `5` the step from sector 0 back to
/// sector 5.
pub open spec fn is_step(sector_diff: int) -> bool {
    sector_diff == 1 || sector_diff == -1 || sector_diff == -5 || sector_diff == 5
}

/// Whether a step turns clockwise, toward higher sectors.
pub open spec fn is_clockwise(sector_diff: int) -> bool {
    sector_diff == 1 || sector_diff == -5
}

/// The rotor angle right after a step into `sector`: the boundary that the
/// rotor has just crossed.
pub open spec fn step_angle(sector: int, sector_diff: int) -> Fixed {
    if sector_diff == 1 {
        Fixed { raw: (sector * THIRD_PI_RAW - SIXTH_PI_RAW) as i64 }
    } else if sector_diff == -1 {
        Fixed { raw: (sector * THIRD_PI_RAW + SIXTH_PI_RAW) as i64 }
    } else {
        Fixed { raw: (11 * SIXTH_PI_RAW) as i64 }
    }
}

/// The rotor speed of a step that took the time `t`: one sector width per
/// `t`, positive clockwise and negative counter-clockwise.
pub open spec fn step_speed(sector_diff: int, t: Fixed) -> Fixed {
    let magnitude = Fixed { raw: THIRD_PI_RAW }.saturating_div(t);
    if is_clockwise(sector_diff) {
        magnitude
    } else {
        magnitude.saturating_neg()
    }
}

/// What a hall estimator remembers between two edges.
pub struct HallState {
    /// The sector of the last edge, 0 to 5.
    pub recent_sector: int,
    /// The speed of the last step.
    pub speed_recent: Fixed,
}

impl HallState {
    /// The remembered sector is one of the six.
    pub open spec fn wf(self) -> bool {
        0 <= self.recent_sector <= 5
    }

    /// What the estimator answers to an edge that left the hall lines at
    /// `hall_1`, `hall_2`, `hall_3`, the time `t` after the edge before.
    pub open spec fn outcome(self, hall_1: bool, hall_2: bool, hall_3: bool, t: Fixed) -> Result<
        Mechanical,
        HallFault,
    > {
        let sum = hall_sum(hall_1, hall_2, hall_3);
        let sector = sector_of_sum(sum);
        let sector_diff = sector - self.recent_sector;
        if sum == 0 || sum == 7 {
            Err(HallFault::Sensor)
        } else if t.raw <= 0 {
            Err(HallFault::Interval)
        } else if !is_step(sector_diff) {
            Err(HallFault::Transition)
        } else {
            let speed = step_speed(sector_diff, t);
            Ok(
                Mechanical {
                    angle: step_angle(sector, sector_diff),
                    speed,
                    acceleration: speed.saturating_sub(self.speed_recent).saturating_div(t),
                },
            )
        }
    }

    /// What the estimator remembers after that edge: nothing new where the
    /// lines or the time were refused, else the new sector, with the speed of
    /// the step or, after a jump, no speed.
    pub open spec fn next(self, hall_1: bool, hall_2: bool, hall_3: bool, t: Fixed) -> HallState {
        let sector = sector_of_sum(hall_sum(hall_1, hall_2, hall_3));
        match self.outcome(hall_1, hall_2, hall_3, t) {
            Ok(state) => HallState { recent_sector: sector, speed_recent: state.speed },
            Err(HallFault::Transition) => HallState {
                recent_sector: sector,
                speed_recent: Fixed { raw: 0 },
            },
            Err(_) => self,
        }
    }
}

/// Rotor estimator driven by the edges of three hall lines.
#[derive(Debug, PartialEq, Eq, Structural)]
pub struct Hall {
    /// The sector of the last edge, 0 to 5.
    recent_sector: i8,
    /// The speed of the last step.
    speed_recent: Fixed,
}

impl View for Hall {
    type V = HallState;

    closed spec fn view(&self) -> HallState {
        HallState { recent_sector: self.recent_sector as int, speed_recent: self.speed_recent }
    }
}

impl Hall {
    #[verifier::type_invariant]
    spec fn sector_in_range(self) -> bool {
        0 <= self.recent_sector <= 5
    }

    /// An estimator that last saw the rotor enter `recent_sector` at the speed
    /// `speed_recent`; none for a sector other than 0 to 5.
    pub fn new(recent_sector: i8, speed_recent: Fixed) -> (hall: Option<Hall>)
        ensures
            hall is Some <==> 0 <= recent_sector <= 5,
            hall matches Some(h) ==> h@.wf() && h@ == (HallState {
                recent_sector: recent_sector as int,
                speed_recent,
            }),
    {
        if 0 <= recent_sector && recent_sector <= 5 {
            Some(Hall { recent_sector, speed_recent })
        } else {
            None
        }
    }

    /// Takes in one edge of the hall lines.
    ///
    /// Call it on every state change of any hall line, best from a fast
    /// interrupt, with the new levels of the three lines and the time
    /// `t_hall_state` since the edge before.
    pub fn interrupt_service_routine(
        &mut self,
        hall_1: bool,
        hall_2: bool,
        hall_3: bool,
        t_hall_state: Fixed,
    ) -> (result: Result<Mechanical, HallFault>)
        ensures
            final(self)@.wf(),
            result == old(self)@.outcome(hall_1, hall_2, hall_3, t_hall_state),
            final(self)@ == old(self)@.next(hall_1, hall_2, hall_3, t_hall_state),
            hall_1 == hall_2 && hall_2 == hall_3 ==> result == Err::<Mechanical, HallFault>(
                HallFault::Sensor,
            ) && final(self)@ == old(self)@,
            result matches Ok(state) ==> state.angle_wrapped(),
    {
        proof {
            use_type_invariant(&*self);
        }
        let sum: usize = (if hall_1 { 1usize } else { 0usize }) + (if hall_2 { 2usize } else { 0usize })
            + (if hall_3 { 4usize } else { 0usize });
        if sum == 0 || sum == 7 {
            return Err(HallFault::Sensor);
        }
        if t_hall_state.raw <= 0 {
            return Err(HallFault::Interval);
        }
        let sector: i8 = HALL_SUM_TO_SECTOR_NO[sum - 1];
        let sector_diff: i8 = sector - self.recent_sector;
        let clockwise: bool = sector_diff == 1 || sector_diff == -5;
        if !(clockwise || sector_diff == -1 || sector_diff == 5) {
            self.speed_recent = Fixed { raw: 0 };
            self.recent_sector = sector;
            return Err(HallFault::Transition);
        }
        let magnitude: Fixed = Fixed { raw: THIRD_PI_RAW }.saturating_div(t_hall_state);
        let speed: Fixed = if clockwise { magnitude } else { magnitude.saturating_neg() };
        let acceleration: Fixed = speed.saturating_sub(self.speed_recent).saturating_div(t_hall_state);
        let angle: Fixed = if sector_diff == 1 {
            Fixed { raw: sector as i64 * THIRD_PI_RAW - SIXTH_PI_RAW }
        } else if sector_diff == -1 {
            Fixed { raw: sector as i64 * THIRD_PI_RAW + SIXTH_PI_RAW }
        } else {
            Fixed { raw: 11 * SIXTH_PI_RAW }
        };
        self.speed_recent = speed;
        self.recent_sector = sector;
        Ok(Mechanical { angle, speed, acceleration })
    }
}

/// One sector width per positive time is a positive speed, however long the
/// time.
pub proof fn lemma_step_speed_positive(t: Fixed)
    requires
        t.raw > 0,
    ensures
        (Fixed { raw: THIRD_PI_RAW }).saturating_div(t).raw > 0,
        (Fixed { raw: THIRD_PI_RAW }).saturating_div(t).saturating_neg().raw < 0,
{
    let n: int = THIRD_PI_RAW * ONE_RAW;
    assert(n / (t.raw as int) >= 1) by (nonlinear_arith)
        requires
            0 < t.raw <= 0x7fff_ffff_ffff_ffff,
            n >= 0x7fff_ffff_ffff_ffff,
    ;
}

/// A clockwise step: from any sector, the hall lines of the next sector up
/// give the boundary between the two as the angle, and one sector width per
/// `t` as a positive speed.
pub proof fn lemma_clockwise_step(state: HallState, hall_1: bool, hall_2: bool, hall_3: bool, t: Fixed)
    requires
        state.wf(),
        t.raw > 0,
        1 <= hall_sum(hall_1, hall_2, hall_3) <= 6,
        sector_of_sum(hall_sum(hall_1, hall_2, hall_3)) == (state.recent_sector + 1) % 6,
    ensures
        state.outcome(hall_1, hall_2, hall_3, t) matches Ok(rotor) && {
            &&& rotor.angle.raw == ((2 * state.recent_sector + 1) % 12) * SIXTH_PI_RAW
            &&& rotor.speed == (Fixed { raw: THIRD_PI_RAW }).saturating_div(t)
            &&& rotor.speed.raw > 0
            &&& state.next(hall_1, hall_2, hall_3, t) == (HallState {
                recent_sector: (state.recent_sector + 1) % 6,
                speed_recent: rotor.speed,
            })
        },
{
    lemma_step_speed_positive(t);
}

/// A counter-clockwise step: from any sector, the hall lines of the next
/// sector down give the boundary between the two as the angle, and one sector
/// width per `t` as a negative speed.
pub proof fn lemma_counter_clockwise_step(
    state: HallState,
    hall_1: bool,
    hall_2: bool,
    hall_3: bool,
    t: Fixed,
)
    requires
        state.wf(),
        t.raw > 0,
        1 <= hall_sum(hall_1, hall_2, hall_3) <= 6,
        sector_of_sum(hall_sum(hall_1, hall_2, hall_3)) == (state.recent_sector + 5) % 6,
    ensures
        state.outcome(hall_1, hall_2, hall_3, t) matches Ok(rotor) && {
            &&& rotor.angle.raw == ((2 * state.recent_sector + 11) % 12) * SIXTH_PI_RAW
            &&& rotor.speed == (Fixed { raw: THIRD_PI_RAW }).saturating_div(t).saturating_neg()
            &&& rotor.speed.raw < 0
            &&& state.next(hall_1, hall_2, hall_3, t) == (HallState {
                recent_sector: (state.recent_sector + 5) % 6,
                speed_recent: rotor.speed,
            })
        },
{
    lemma_step_speed_positive(t);
}

/// Steady rotation: two steps in a row in one direction, each after the same
/// time `t`, give the same speed twice, no acceleration at the second step,
/// and two angles one sector width apart.
pub proof fn lemma_steady_rotation(
    state: HallState,
    clockwise: bool,
    first: (bool, bool, bool),
    second: (bool, bool, bool),
    t: Fixed,
)
    requires
        state.wf(),
        t.raw > 0,
        1 <= hall_sum(first.0, first.1, first.2) <= 6,
        1 <= hall_sum(second.0, second.1, second.2) <= 6,
        sector_of_sum(hall_sum(first.0, first.1, first.2)) == (state.recent_sector + (if clockwise {
            1int
        } else {
            5int
        })) % 6,
        sector_of_sum(hall_sum(second.0, second.1, second.2)) == (state.recent_sector + (
        if clockwise {
            2int
        } else {
            4int
        })) % 6,
    ensures
        state.outcome(first.0, first.1, first.2, t) matches Ok(one) && state.next(
            first.0,
            first.1,
            first.2,
            t,
        ).outcome(second.0, second.1, second.2, t) matches Ok(two) && {
            &&& two.speed == one.speed
            &&& two.acceleration.raw == 0
            &&& clockwise ==> (two.angle.raw - one.angle.raw) % (TWO_PI_RAW as int) == THIRD_PI_RAW
            &&& !clockwise ==> (one.angle.raw - two.angle.raw) % (TWO_PI_RAW as int) == THIRD_PI_RAW
        },
{
    if clockwise {
        lemma_clockwise_step(state, first.0, first.1, first.2, t);
        lemma_clockwise_step(state.next(first.0, first.1, first.2, t), second.0, second.1, second.2, t);
    } else {
        lemma_counter_clockwise_step(state, first.0, first.1, first.2, t);
        lemma_counter_clockwise_step(
            state.next(first.0, first.1, first.2, t),
            second.0,
            second.1,
            second.2,
            t,
        );
    }
}

} // verus!
