//! A fixed-window rate limiter.
//!
//! A [`Semaphore`] grants at most a fixed number of admissions in each window
//! of time. It never sleeps: on every attempt it says whether the caller may
//! go ahead or for how long it has to hold back, and leaves the waiting to
//! the caller.

pub mod clock;
pub mod laws;
pub mod semaphore;
pub mod window;

pub use semaphore::{ConstructionError, Decision, Semaphore};
