//! The solve clock: the time since the puzzle was last scrambled.

use vstd::prelude::*;

verus! {

/// The model of a [`SolveClock`].
pub struct ClockView {
    pub elapsed: nat,
    pub started: bool,
    pub solved: bool,
}

impl ClockView {
    /// The clock's count fits the machine word that holds it.
    pub open spec fn valid(self) -> bool {
        self.elapsed <= u64::MAX
    }

    /// The clock before any scramble: at zero, not running.
    pub open spec fn fresh() -> ClockView {
        ClockView { elapsed: 0, started: false, solved: false }
    }

    /// The clock after `dt` more idle microseconds: a running clock has gone
    /// on by `dt`, and stays at the largest count once it has reached it; one
    /// that is not running has not moved.
    pub open spec fn ticked(self, dt: nat) -> ClockView {
        if self.started {
            ClockView {
                elapsed: if self.elapsed + dt <= u64::MAX {
                    self.elapsed + dt
                } else {
                    u64::MAX as nat
                },
                ..self
            }
        } else {
            self
        }
    }

    /// The clock when a scramble has completed: at zero and running, with no
    /// solve reported.
    pub open spec fn restarted() -> ClockView {
        ClockView { elapsed: 0, started: true, solved: false }
    }

    /// The clock when a manual turn begins: back at zero if a solve has been
    /// reported since it last was, else unchanged.
    pub open spec fn manual_turn(self) -> ClockView {
        if self.solved {
            ClockView { elapsed: 0, solved: false, ..self }
        } else {
            self
        }
    }

    /// The clock once a solve has been reported.
    pub open spec fn reported(self) -> ClockView {
        ClockView { solved: true, ..self }
    }
}

/// The solve clock. `elapsed` counts the idle microseconds since the last
/// scramble completed; `started` says whether one ever has; `solved` says
/// whether a solve has been reported since the count last began at zero.
#[derive(Clone, Copy, Debug, PartialEq, Eq, Structural)]
pub struct SolveClock {
    pub elapsed: u64,
    pub started: bool,
    pub solved: bool,
}

impl View for SolveClock {
    type V = ClockView;

    open spec fn view(&self) -> ClockView {
        ClockView { elapsed: self.elapsed as nat, started: self.started, solved: self.solved }
    }
}

impl SolveClock {
    /// The clock before any scramble.
    pub fn new() -> (r: SolveClock)
        ensures
            r@ == ClockView::fresh(),
    {
        SolveClock { elapsed: 0, started: false, solved: false }
    }

    /// The clock after `dt` more idle microseconds.
    pub fn ticked(&self, dt: u64) -> (r: SolveClock)
        ensures
            r@ == self@.ticked(dt as nat),
    {
        if self.started {
            let elapsed: u64 = if dt <= u64::MAX - self.elapsed {
                self.elapsed + dt
            } else {
                u64::MAX
            };
            SolveClock { elapsed, started: self.started, solved: self.solved }
        } else {
            *self
        }
    }

    /// The clock when a scramble has completed.
    pub fn restarted() -> (r: SolveClock)
        ensures
            r@ == ClockView::restarted(),
    {
        SolveClock { elapsed: 0, started: true, solved: false }
    }

    /// The clock when a manual turn begins.
    pub fn manual_turn(&self) -> (r: SolveClock)
        ensures
            r@ == self@.manual_turn(),
    {
        if self.solved {
            SolveClock { elapsed: 0, started: self.started, solved: false }
        } else {
            *self
        }
    }

    /// The clock once a solve has been reported.
    pub fn reported(&self) -> (r: SolveClock)
        ensures
            r@ == self@.reported(),
    {
        SolveClock { elapsed: self.elapsed, started: self.started, solved: true }
    }
}

} // verus!
