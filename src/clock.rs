//! The clock of a request.
use vstd::prelude::*;

verus! {

/// An instant of web_time's monotonic clock, carried through unread.
#[verifier::external_type_specification]
#[verifier::external_body]
pub struct ExInstant(web_time::Instant);

/// Relies on web_time::Instant::now: the current instant of a monotonic clock.
#[verifier::external_body]
pub(crate) fn clock_now() -> (r: web_time::Instant) {
    web_time::Instant::now()
}

/// Relies on web_time::Instant::elapsed: the time since `start`, read as whole
/// nanoseconds with Duration::as_nanos.
#[verifier::external_body]
pub(crate) fn nanos_since(start: &web_time::Instant) -> (r: u128) {
    start.elapsed().as_nanos()
}

} // verus!
