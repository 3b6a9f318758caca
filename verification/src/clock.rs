//! The monotonic clock of the standard library, as far as the limiter reads it.

use vstd::prelude::*;

verus! {

/// `std::time::Instant`, one reading of the monotonic clock. The type is
/// opaque here: a value is carried along and never looked into.
#[verifier::external_type_specification]
#[verifier::external_body]
pub struct ExInstant(std::time::Instant);

/// `std::time::Instant::now` reads the clock. Nothing is claimed of the
/// reading that comes back.
pub assume_specification[ std::time::Instant::now ]() -> (stamp: std::time::Instant);

/// `std::time::Instant::elapsed` gives the time gone by since the reading was
/// taken. It depends on the moment of the call, so nothing is claimed of it.
/// It asks nothing of the reading either: where the clock has not moved on,
/// the standard library hands back a span of zero.
pub assume_specification[ std::time::Instant::elapsed ](stamp: &std::time::Instant) -> (span:
    core::time::Duration);

/// `core::time::Duration::as_nanos` gives a span as a whole number of
/// nanoseconds. Nothing is claimed of the number: the span it is taken from
/// is opaque here.
pub assume_specification[ core::time::Duration::as_nanos ](span: &core::time::Duration) -> (nanos:
    u128);

/// Brings a count of nanoseconds into the range of the ticks that the limiter
/// reckons with: a count beyond the range becomes the last tick.
pub fn saturate(nanos: u128) -> (tick: u64)
    ensures
        nanos <= u64::MAX ==> tick == nanos,
        nanos > u64::MAX ==> tick == u64::MAX,
{
    if nanos > u64::MAX as u128 {
        u64::MAX
    } else {
        nanos as u64
    }
}

} // verus!
