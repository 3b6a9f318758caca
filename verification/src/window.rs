//! The mathematical model of a fixed-window counter.
//!
//! Instants and spans of time are natural numbers of ticks on one clock.

use vstd::prelude::*;

verus! {

/// What a fixed-window counter stands for: its quota and the window it is in.
pub struct Window {
    /// The most admissions that one window grants.
    pub limit: nat,
    /// The width of a window.
    pub period: nat,
    /// The instant at which the current window ends; the instant itself
    /// already belongs to the next window.
    pub deadline: nat,
    /// The admissions granted in the current window so far.
    pub count: nat,
}

impl Window {
    /// The quota is usable and has not been exceeded.
    pub open spec fn wf(self) -> bool {
        &&& self.limit > 0
        &&& self.period > 0
        &&& self.count <= self.limit
    }

    /// The counter before its first decision: its window has already ended,
    /// whatever the clock shows.
    pub open spec fn fresh(limit: nat, period: nat) -> Window {
        Window { limit, period, deadline: 0, count: 0 }
    }

    /// At `now` the current window is over.
    pub open spec fn expired(self, now: nat) -> bool {
        now >= self.deadline
    }

    /// A decision taken at `now` lets the caller go ahead.
    pub open spec fn admits(self, now: nat) -> bool {
        self.expired(now) || self.count < self.limit
    }

    /// How long a caller arriving at `now` has to hold back: `None` where it
    /// is admitted, else the time left until the window ends.
    pub open spec fn wait(self, now: nat) -> Option<nat> {
        if self.admits(now) {
            None
        } else {
            Some((self.deadline - now) as nat)
        }
    }

    /// The counter after a decision taken at `now`.
    ///
    /// A decision in an expired window opens a new one at `now` and is its
    /// first admission. A decision in an open window takes one unit of the
    /// quota if any is left, and changes nothing otherwise.
    pub open spec fn step(self, now: nat) -> Window {
        if self.expired(now) {
            Window { deadline: now + self.period, count: 1, ..self }
        } else if self.count < self.limit {
            Window { count: self.count + 1, ..self }
        } else {
            self
        }
    }

    /// The counter after decisions taken at each instant of `nows` in turn.
    pub open spec fn run(self, nows: Seq<nat>) -> Window
        decreases nows.len(),
    {
        if nows.len() == 0 {
            self
        } else {
            self.run(nows.drop_last()).step(nows.last())
        }
    }

    /// How many of the decisions taken at the instants of `nows` in turn let
    /// their caller go ahead.
    pub open spec fn admitted(self, nows: Seq<nat>) -> nat
        decreases nows.len(),
    {
        if nows.len() == 0 {
            0
        } else {
            let earlier = nows.drop_last();
            if self.run(earlier).admits(nows.last()) {
                self.admitted(earlier) + 1
            } else {
                self.admitted(earlier)
            }
        }
    }
}

} // verus!
