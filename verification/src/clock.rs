//! Wall-clock readings for the fixed-duration sampling loops. The clock
//! alone decides the values, so nothing is assumed of them: every caller
//! must hold for whatever comes back.

use vstd::prelude::*;

verus! {

#[verifier::external_type_specification]
#[verifier::external_body]
pub struct ExInstant(std::time::Instant);

/// Relies on std::time::Instant::now: an opaque reading of the monotonic
/// clock, taken when a measurement starts.
#[verifier::external_body]
pub(crate) fn instant_now() -> std::time::Instant {
    std::time::Instant::now()
}

/// Relies on std::time::Instant::elapsed: the time since `start` was
/// taken. The clock alone decides the value; nothing is assumed of it.
#[verifier::external_body]
fn elapsed_since(start: &std::time::Instant) -> std::time::Duration {
    start.elapsed()
}

/// Relies on std::time::Duration::as_millis: the total number of whole
/// milliseconds the duration contains, saturated into sixty-four bits.
#[verifier::external_body]
fn duration_as_millis(d: &std::time::Duration) -> u64 {
    u64::try_from(d.as_millis()).unwrap_or(u64::MAX)
}

/// The whole milliseconds the monotonic clock has moved since `start` was
/// taken.
pub(crate) fn elapsed_millis(start: &std::time::Instant) -> u64 {
    let elapsed = elapsed_since(start);
    duration_as_millis(&elapsed)
}

} // verus!
