//! The turn animator's own state: the single turn in flight, its timer and
//! the angle it has swept.

use crate::geometry::{Axis, Sign};
use crate::moves::MoveDescriptor;
use vstd::prelude::*;

verus! {

/// Angular speed of a turn in quarter-turn mode, in degrees per second.
pub const TURN_SPEED: u32 = 560;

/// Angular speed of a turn in double-turn mode, in degrees per second.
pub const DOUBLE_SPEED: u32 = 960;

/// Angular speed of a scramble turn, in degrees per second.
pub const SCRAMBLE_SPEED: u32 = 1080;

/// How long a turn takes in quarter-turn mode, in microseconds.
pub const TURN_DELAY: u64 = 140_000;

/// How long a turn takes in double-turn mode, in microseconds.
pub const DOUBLE_DELAY: u64 = 180_000;

/// How long a scramble turn takes, in microseconds.
pub const SCRAMBLE_DELAY: u64 = 75_000;

/// The angular speed that manual turns have in the given mode.
pub open spec fn mode_speed(double: bool) -> nat {
    if double {
        DOUBLE_SPEED as nat
    } else {
        TURN_SPEED as nat
    }
}

/// How long a turn takes: a scramble turn, or else a manual turn in the
/// given mode.
pub open spec fn turn_duration(scramble: bool, double: bool) -> nat {
    if scramble {
        SCRAMBLE_DELAY as nat
    } else if double {
        DOUBLE_DELAY as nat
    } else {
        TURN_DELAY as nat
    }
}

/// What a step of the animator did to the turn in flight.
#[derive(Clone, Copy, Debug, PartialEq, Eq, Structural)]
pub enum TurnOutcome {
    /// No turn was in flight.
    Idle,
    /// The turn went on and is still in flight.
    Continuing,
    /// The turn's timer ran out: its cubies were snapped to their targets.
    JustCompleted,
}

/// The model of a [`TurnState`].
pub struct TurnView {
    pub active: bool,
    pub scramble: bool,
    pub axis: Axis,
    pub direction: Sign,
    pub angular_speed: nat,
    pub elapsed: nat,
    pub swept: int,
}

impl TurnView {
    /// The speed is one of the three that the modes have, the timer has not
    /// run out in every mode, and the swept angle is no more than the fastest
    /// turn sweeps in the time elapsed.
    pub open spec fn valid(self) -> bool {
        &&& self.angular_speed == TURN_SPEED || self.angular_speed == DOUBLE_SPEED
            || self.angular_speed == SCRAMBLE_SPEED
        &&& self.elapsed < DOUBLE_DELAY
        &&& -(SCRAMBLE_SPEED * self.elapsed) <= self.swept <= SCRAMBLE_SPEED * self.elapsed
    }

    /// The state with no turn in flight, at the given speed.
    pub open spec fn idle(angular_speed: nat) -> TurnView {
        TurnView {
            active: false,
            scramble: false,
            axis: Axis::X,
            direction: Sign::Positive,
            angular_speed,
            elapsed: 0,
            swept: 0,
        }
    }

    /// The state at the start of the turn that `descriptor` asks for.
    pub open spec fn started(self, descriptor: MoveDescriptor, scramble: bool) -> TurnView {
        TurnView {
            active: true,
            scramble,
            axis: descriptor.axis,
            direction: descriptor.sign,
            angular_speed: self.angular_speed,
            elapsed: 0,
            swept: 0,
        }
    }

    /// Whether the timer of the turn in flight runs out within the next `dt`
    /// microseconds.
    pub open spec fn completes(self, dt: nat, double: bool) -> bool {
        self.elapsed + dt >= turn_duration(self.scramble, double)
    }

    /// The state after `dt` more microseconds of turning: the timer has gone
    /// on by `dt`, and the swept angle by `dt` times the angular speed, in
    /// the sense of the turn.
    pub open spec fn advanced(self, dt: nat) -> TurnView {
        TurnView {
            elapsed: self.elapsed + dt,
            swept: self.swept + self.direction.value() * (self.angular_speed * dt),
            ..self
        }
    }

    /// The state once the turn in flight has ended: none is in flight, the
    /// timer and the swept angle are back at zero.
    pub open spec fn stopped(self) -> TurnView {
        TurnView { active: false, scramble: false, elapsed: 0, swept: 0, ..self }
    }

    /// The same state at another angular speed.
    pub open spec fn at_speed(self, angular_speed: nat) -> TurnView {
        TurnView { angular_speed, ..self }
    }
}

/// The single turn that may be in flight. `active` says whether one is;
/// `scramble` whether the scrambler started it. `angular_speed` is in degrees
/// per second, `elapsed` in microseconds since the turn began, and `swept` is
/// the angle that the turn has gone through so far, in microdegrees, signed
/// in the sense of `direction` about `axis`.
#[derive(Clone, Copy, Debug, PartialEq, Eq, Structural)]
pub struct TurnState {
    pub active: bool,
    pub scramble: bool,
    pub axis: Axis,
    pub direction: Sign,
    pub angular_speed: u32,
    pub elapsed: u64,
    pub swept: i64,
}

impl View for TurnState {
    type V = TurnView;

    open spec fn view(&self) -> TurnView {
        TurnView {
            active: self.active,
            scramble: self.scramble,
            axis: self.axis,
            direction: self.direction,
            angular_speed: self.angular_speed as nat,
            elapsed: self.elapsed as nat,
            swept: self.swept as int,
        }
    }
}

impl TurnState {
    /// The state with no turn in flight, at the speed of quarter-turn mode.
    pub fn new() -> (r: TurnState)
        ensures
            r@ == TurnView::idle(TURN_SPEED as nat),
            r@.valid(),
    {
        TurnState {
            active: false,
            scramble: false,
            axis: Axis::X,
            direction: Sign::Positive,
            angular_speed: TURN_SPEED,
            elapsed: 0,
            swept: 0,
        }
    }

    /// The state at the start of the turn that `descriptor` asks for.
    pub fn started(&self, descriptor: &MoveDescriptor, scramble: bool) -> (r: TurnState)
        ensures
            r@ == self@.started(*descriptor, scramble),
            self@.valid() ==> r@.valid(),
    {
        TurnState {
            active: true,
            scramble,
            axis: descriptor.axis,
            direction: descriptor.sign,
            angular_speed: self.angular_speed,
            elapsed: 0,
            swept: 0,
        }
    }

    /// How long the turn in flight takes in the given mode, in microseconds.
    pub fn duration(&self, double: bool) -> (r: u64)
        ensures
            r == turn_duration(self.scramble, double),
    {
        if self.scramble {
            SCRAMBLE_DELAY
        } else if double {
            DOUBLE_DELAY
        } else {
            TURN_DELAY
        }
    }

    /// Whether the timer of the turn in flight runs out within the next `dt`
    /// microseconds.
    pub fn completes(&self, dt: u64, double: bool) -> (r: bool)
        ensures
            r == self@.completes(dt as nat, double),
    {
        let duration = self.duration(double);
        self.elapsed >= duration || dt >= duration - self.elapsed
    }

    /// The state after `dt` more microseconds of turning, for a `dt` within
    /// which the timer does not run out.
    pub(crate) fn advanced(&self, dt: u64, double: bool) -> (r: TurnState)
        requires
            self@.valid(),
            !self@.completes(dt as nat, double),
        ensures
            r@ == self@.advanced(dt as nat),
            r@.valid(),
    {
        let speed: i64 = self.angular_speed as i64;
        let time: i64 = dt as i64;
        assert(0 <= speed * time <= SCRAMBLE_SPEED * time) by (nonlinear_arith)
            requires
                0 <= speed <= SCRAMBLE_SPEED,
                0 <= time,
        ;
        let step: i64 = speed * time;
        let swept: i64 = match self.direction {
            Sign::Positive => self.swept + step,
            Sign::Negative => self.swept - step,
        };
        TurnState {
            active: self.active,
            scramble: self.scramble,
            axis: self.axis,
            direction: self.direction,
            angular_speed: self.angular_speed,
            elapsed: self.elapsed + dt,
            swept,
        }
    }

    /// The state once the turn in flight has ended.
    pub fn stopped(&self) -> (r: TurnState)
        ensures
            r@ == self@.stopped(),
            self@.valid() ==> r@.valid(),
    {
        TurnState {
            active: false,
            scramble: false,
            axis: self.axis,
            direction: self.direction,
            angular_speed: self.angular_speed,
            elapsed: 0,
            swept: 0,
        }
    }
}

} // verus!
