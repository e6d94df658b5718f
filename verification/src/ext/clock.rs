//! The system clock, read through `std::time::SystemTime`.
use vstd::prelude::*;

verus! {

/// Milliseconds elapsed since the Unix epoch according to the system clock
/// (`SystemTime::now().duration_since(UNIX_EPOCH)`, then `as_millis`), or
/// `None` when the clock reads earlier than the epoch. The value depends on
/// the moment of the call, so nothing is stated about it.
#[verifier::external_body]
pub(crate) fn unix_clock_millis() -> (r: Option<u128>) {
    match std::time::SystemTime::now().duration_since(std::time::UNIX_EPOCH) {
        Ok(elapsed) => Some(elapsed.as_millis()),
        Err(_) => None,
    }
}

#[verifier::external_type_specification]
#[verifier::external_body]
pub struct ExInstant(std::time::Instant);

/// `Instant::now`: the current instant of the monotonic clock.
#[verifier::external_body]
pub(crate) fn instant_now() -> (r: std::time::Instant) {
    std::time::Instant::now()
}

/// `Instant::elapsed`, in whole nanoseconds (`Duration::as_nanos`). It
/// depends on the moment of the call, so nothing is stated about it.
#[verifier::external_body]
pub(crate) fn nanos_since(t: &std::time::Instant) -> (r: u128) {
    t.elapsed().as_nanos()
}

/// `Duration::as_nanos`: the whole nanoseconds of a duration. `Duration`
/// is opaque here, so the result is left unstated.
#[verifier::external_body]
pub(crate) fn duration_nanos(d: std::time::Duration) -> (r: u128) {
    d.as_nanos()
}

} // verus!
