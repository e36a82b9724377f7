//! The simulation clock and its speed control.

use crate::arith::{evaluates, total, Num, Request, Term};
use crate::geometry::Scalar;
use vstd::prelude::*;

verus! {

/// Speed steps that make one unit of speed: the speed control moves in tenths.
pub const STEPS_PER_UNIT: u64 = 10;

/// The speed a new clock runs at, and the speed a resumed clock falls back to
/// when it remembers none: fifteen units.
pub const DEFAULT_SPEED: i64 = 150;

/// Number of ticks that make one unit of phase for the step size.
pub const MAX_PHASE: u64 = 100;

/// What a clock shows.
///
/// `elapsed` counts ticks since the last reset. `speed` is the signed speed in
/// steps of a tenth; zero means paused. `resume` is the speed that was running
/// when the clock was last paused.
pub struct ClockModel {
    pub elapsed: int,
    pub speed: int,
    pub resume: int,
}

impl ClockModel {
    /// A clock at zero that runs at the default speed.
    pub open spec fn start() -> ClockModel {
        ClockModel { elapsed: 0, speed: DEFAULT_SPEED as int, resume: DEFAULT_SPEED as int }
    }

    /// Whether the clock is paused.
    pub open spec fn paused(self) -> bool {
        self.speed == 0
    }

    /// The speed in units: the count of steps, with its sign, over the steps
    /// per unit.
    pub open spec fn speed_term(self) -> Term {
        if self.speed >= 0 {
            Term::Lift(self.speed as u64).over(Term::Lift(STEPS_PER_UNIT))
        } else {
            Term::Lift((-self.speed) as u64).negated().over(Term::Lift(STEPS_PER_UNIT))
        }
    }

    /// The step size of the motion for a frame that took `frame_dt` of real
    /// time: `speed * frame_dt * sin(elapsed / max_phase)`. The step size
    /// swings with the phase of the clock, and the speed scales it.
    pub open spec fn step_size_term(self, frame_dt: Scalar) -> Term {
        self.speed_term().times(Term::Value(frame_dt)).times(
            Term::Lift(self.elapsed as u64).over(Term::Lift(MAX_PHASE)).sin(),
        )
    }

    /// One tick later. The count stops at the largest value a `u64` holds.
    pub open spec fn tick(self) -> ClockModel {
        ClockModel {
            elapsed: if self.elapsed < u64::MAX {
                self.elapsed + 1
            } else {
                self.elapsed
            },
            ..self
        }
    }

    /// Back at zero, speed untouched.
    pub open spec fn reset(self) -> ClockModel {
        ClockModel { elapsed: 0, ..self }
    }

    /// One step faster. The speed stops at the largest value an `i64` holds.
    pub open spec fn faster(self) -> ClockModel {
        ClockModel {
            speed: if self.speed < i64::MAX {
                self.speed + 1
            } else {
                self.speed
            },
            ..self
        }
    }

    /// One step slower. The speed stops at the smallest value an `i64` holds.
    pub open spec fn slower(self) -> ClockModel {
        ClockModel {
            speed: if self.speed > i64::MIN {
                self.speed - 1
            } else {
                self.speed
            },
            ..self
        }
    }

    /// Pause or resume. A running clock remembers its speed and stops. A
    /// paused clock takes up the speed it remembers, or the default speed if
    /// it remembers zero.
    pub open spec fn toggle_pause(self) -> ClockModel {
        if self.speed != 0 {
            ClockModel { speed: 0, resume: self.speed, ..self }
        } else if self.resume != 0 {
            ClockModel { speed: self.resume, ..self }
        } else {
            ClockModel { speed: DEFAULT_SPEED as int, ..self }
        }
    }
}

/// Elapsed simulation time in ticks, and the speed that scales the motion.
/// The speed scales the step size only: the clock itself ticks at one pace.
#[derive(Clone, Copy, Debug, PartialEq, Eq, Structural)]
pub struct SimulationClock {
    elapsed: u64,
    speed: i64,
    resume: i64,
}

impl View for SimulationClock {
    type V = ClockModel;

    closed spec fn view(&self) -> ClockModel {
        ClockModel {
            elapsed: self.elapsed as int,
            speed: self.speed as int,
            resume: self.resume as int,
        }
    }
}

impl SimulationClock {
    /// A clock at zero that runs at the default speed.
    pub fn new() -> (clock: SimulationClock)
        ensures
            clock@ == ClockModel::start(),
    {
        SimulationClock { elapsed: 0, speed: DEFAULT_SPEED, resume: DEFAULT_SPEED }
    }

    /// Ticks since the last reset.
    pub fn elapsed(&self) -> (ticks: u64)
        ensures
            ticks == self@.elapsed,
    {
        self.elapsed
    }

    /// The signed speed, in steps of a tenth.
    pub fn speed(&self) -> (steps: i64)
        ensures
            steps == self@.speed,
    {
        self.speed
    }

    /// Whether the clock is paused.
    pub fn is_paused(&self) -> (paused: bool)
        ensures
            paused == self@.paused(),
    {
        self.speed == 0
    }

    fn speed_num<A: Fn(Request) -> Scalar>(&self, arith: &A) -> (speed: Num)
        requires
            total(*arith),
        ensures
            speed.holds(*arith),
            speed.term@ == self@.speed_term(),
    {
        let per_unit = Num::lift(STEPS_PER_UNIT, arith);
        if self.speed >= 0 {
            Num::lift(self.speed as u64, arith).over(per_unit, arith)
        } else {
            let size: u64 = (-(self.speed + 1)) as u64 + 1;
            Num::lift(size, arith).negated(arith).over(per_unit, arith)
        }
    }

    /// The speed in units.
    pub fn speed_in_units<A: Fn(Request) -> Scalar>(&self, arith: &A) -> (speed: Scalar)
        requires
            total(*arith),
        ensures
            evaluates(*arith, self@.speed_term(), speed),
    {
        self.speed_num(arith).value
    }

    /// The step size of the motion for a frame that took `frame_dt` of real
    /// time.
    pub fn step_size<A: Fn(Request) -> Scalar>(&self, frame_dt: Scalar, arith: &A) -> (dt: Scalar)
        requires
            total(*arith),
        ensures
            evaluates(*arith, self@.step_size_term(frame_dt), dt),
    {
        let speed = self.speed_num(arith);
        let phase = Num::lift(self.elapsed, arith).over(Num::lift(MAX_PHASE, arith), arith);
        let dt = speed.times(Num::of(frame_dt), arith).times(phase.sin(arith), arith);
        dt.value
    }

    /// Advances the clock by one tick.
    pub fn tick(&mut self)
        ensures
            final(self)@ == old(self)@.tick(),
    {
        if self.elapsed < u64::MAX {
            self.elapsed = self.elapsed + 1;
        }
    }

    /// Sets the clock back to zero.
    pub fn reset(&mut self)
        ensures
            final(self)@ == old(self)@.reset(),
    {
        self.elapsed = 0;
    }

    /// Raises the speed by one step.
    pub fn faster(&mut self)
        ensures
            final(self)@ == old(self)@.faster(),
    {
        if self.speed < i64::MAX {
            self.speed = self.speed + 1;
        }
    }

    /// Lowers the speed by one step.
    pub fn slower(&mut self)
        ensures
            final(self)@ == old(self)@.slower(),
    {
        if self.speed > i64::MIN {
            self.speed = self.speed - 1;
        }
    }

    /// Pauses a running clock and resumes a paused one.
    pub fn toggle_pause(&mut self)
        ensures
            final(self)@ == old(self)@.toggle_pause(),
    {
        if self.speed != 0 {
            self.resume = self.speed;
            self.speed = 0;
        } else if self.resume != 0 {
            self.speed = self.resume;
        } else {
            self.speed = DEFAULT_SPEED;
        }
    }
}

/// Pausing a running clock and resuming it gives back the speed it ran at, and
/// leaves the elapsed time alone.
pub proof fn lemma_pause_then_resume(c: ClockModel)
    requires
        !c.paused(),
    ensures
        c.toggle_pause().paused(),
        c.toggle_pause().toggle_pause().speed == c.speed,
        c.toggle_pause().toggle_pause().elapsed == c.elapsed,
{
}

/// A tick never moves the clock backwards and never touches the speed; on a
/// clock that is not at the end of its range it adds exactly one.
pub proof fn lemma_tick_monotonic(c: ClockModel)
    ensures
        c.tick().elapsed >= c.elapsed,
        c.elapsed < u64::MAX ==> c.tick().elapsed == c.elapsed + 1,
        c.tick().speed == c.speed,
        c.tick().resume == c.resume,
{
}

} // verus!
