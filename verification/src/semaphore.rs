//! The limiter itself: a fixed-window counter with a clock of its own.

use crate::clock::saturate;
use crate::window::Window;
use std::time::Instant;
use vstd::prelude::*;

verus! {

/// Why a limiter could not be made.
#[derive(Clone, Copy, Debug, PartialEq, Eq, Structural)]
pub enum ConstructionError {
    /// The quota was zero admissions.
    InvalidLimit,
    /// The window was zero ticks wide.
    InvalidPeriod,
}

/// What the limiter tells a caller.
#[derive(Clone, Copy, Debug, PartialEq, Eq, Structural)]
pub enum Decision {
    /// The caller may act at once.
    Proceed,
    /// The caller has to hold back for this many ticks before it acts.
    WaitUntil(u128),
}

impl View for Decision {
    type V = Option<nat>;

    /// The wait that the decision imposes, if any.
    open spec fn view(&self) -> Option<nat> {
        match *self {
            Decision::Proceed => None,
            Decision::WaitUntil(wait) => Some(wait as nat),
        }
    }
}

/// The wait that an optional delay stands for.
pub open spec fn delay_view(delay: Option<u128>) -> Option<nat> {
    match delay {
        None => None,
        Some(wait) => Some(wait as nat),
    }
}

impl Decision {
    /// The decision as an optional delay: `None` to go ahead, else the wait.
    pub fn delay(self) -> (delay: Option<u128>)
        ensures
            delay_view(delay) == self@,
    {
        match self {
            Decision::Proceed => None,
            Decision::WaitUntil(wait) => Some(wait),
        }
    }
}

/// A limiter that admits `access_times` callers in every window of
/// `per_period` ticks.
///
/// A limiter goes by one clock: either its callers bring the tick of their
/// own clock to [`Semaphore::evaluate`], or they leave the clock to the
/// limiter and call [`Semaphore::calc_delay`], which counts in nanoseconds.
///
/// It is meant to sit behind a lock that all callers share: a caller takes the
/// lock, asks for a decision, gives the lock back and only then waits.
#[derive(Debug)]
pub struct Semaphore {
    access_times: u64,
    per_period: u64,
    boundary: u128,
    current_block_access: u64,
    benchmark_stamp: Instant,
}

impl View for Semaphore {
    type V = Window;

    closed spec fn view(&self) -> Window {
        Window {
            limit: self.access_times as nat,
            period: self.per_period as nat,
            deadline: self.boundary as nat,
            count: self.current_block_access as nat,
        }
    }
}

impl Clone for Semaphore {
    /// A second limiter in the same state, with the same clock. From here on
    /// the two count apart.
    fn clone(&self) -> (twin: Self)
        ensures
            twin@ == self@,
    {
        proof {
            use_type_invariant(self);
        }
        Semaphore {
            access_times: self.access_times,
            per_period: self.per_period,
            boundary: self.boundary,
            current_block_access: self.current_block_access,
            benchmark_stamp: self.benchmark_stamp,
        }
    }
}

impl Semaphore {
    /// What holds of every limiter: its quota is usable and not exceeded.
    #[verifier::type_invariant]
    pub open spec fn inv(&self) -> bool {
        self@.wf()
    }

    /// Makes a limiter that admits `access_times` callers in every window of
    /// `per_period` ticks, and starts its clock. No window is open yet: the
    /// first caller opens one.
    ///
    /// A quota of zero admissions is refused, and so is a window of no width;
    /// where both are zero, the error names the quota.
    pub fn new(access_times: u64, per_period: u64) -> (made: Result<Semaphore, ConstructionError>)
        ensures
            match made {
                Ok(sem) => {
                    &&& access_times != 0
                    &&& per_period != 0
                    &&& sem@ == Window::fresh(access_times as nat, per_period as nat)
                },
                Err(ConstructionError::InvalidLimit) => access_times == 0,
                Err(ConstructionError::InvalidPeriod) => access_times != 0 && per_period == 0,
            },
    {
        if access_times == 0 {
            return Err(ConstructionError::InvalidLimit);
        }
        if per_period == 0 {
            return Err(ConstructionError::InvalidPeriod);
        }
        Ok(
            Semaphore {
                access_times,
                per_period,
                boundary: 0,
                current_block_access: 0,
                benchmark_stamp: Instant::now(),
            },
        )
    }

    /// Decides on a caller that arrives at tick `now` of the caller's clock.
    ///
    /// Once the window is over, the caller opens a new one, `per_period`
    /// ticks wide from `now` on, and is the first that it admits. In an open
    /// window the caller is admitted while any of the quota is left. After
    /// that it is told to wait for the rest of the window, and the limiter
    /// stays as it is.
    pub fn evaluate(&mut self, now: u64) -> (decision: Decision)
        ensures
            final(self)@ == old(self)@.step(now as nat),
            decision@ == old(self)@.wait(now as nat),
            final(self)@.wf(),
    {
        proof {
            use_type_invariant(&*self);
        }
        if now as u128 >= self.boundary {
            self.boundary = now as u128 + self.per_period as u128;
            self.current_block_access = 1;
            Decision::Proceed
        } else if self.current_block_access < self.access_times {
            self.current_block_access = self.current_block_access + 1;
            Decision::Proceed
        } else {
            Decision::WaitUntil(self.boundary - now as u128)
        }
    }

    /// Decides on a caller that arrives now, by the limiter's own clock, which
    /// counts the nanoseconds since the limiter was made: `None` lets the
    /// caller go ahead, `Some` holds the nanoseconds that it has to wait.
    ///
    /// The reading of the clock is not known beforehand. Whatever it is, the
    /// decision and the limiter afterwards are those of [`Semaphore::evaluate`]
    /// at that reading.
    pub fn calc_delay(&mut self) -> (delay: Option<u128>)
        ensures
            exists|now: nat|
                now <= u64::MAX && final(self)@ == #[trigger] old(self)@.step(now)
                    && delay_view(delay) == old(self)@.wait(now),
            final(self)@.wf(),
    {
        let now: u64 = saturate(self.benchmark_stamp.elapsed().as_nanos());
        self.evaluate(now).delay()
    }

    /// The admissions that one window grants.
    pub fn access_times(&self) -> (limit: u64)
        ensures
            limit == self@.limit,
    {
        self.access_times
    }

    /// The width of a window, in ticks.
    pub fn per_period(&self) -> (period: u64)
        ensures
            period == self@.period,
    {
        self.per_period
    }

    /// The tick at which the current window ends, and zero while none has
    /// been opened.
    pub fn boundary(&self) -> (deadline: u128)
        ensures
            deadline == self@.deadline,
    {
        self.boundary
    }

    /// The admissions granted in the current window so far.
    pub fn current_block_access(&self) -> (count: u64)
        ensures
            count == self@.count,
    {
        self.current_block_access
    }
}

} // verus!
