//! The monotonic clock, read through `std::time::Instant`.
use vstd::prelude::*;

verus! {

#[verifier::external_type_specification]
#[verifier::external_body]
pub struct ExInstant(std::time::Instant);

/// Relies on `Instant::now`: a reading of the monotonic clock. It depends on
/// the time, so nothing is promised of it.
pub assume_specification[ std::time::Instant::now ]() -> std::time::Instant;

/// Relies on `Instant::elapsed`, converted by `Duration::as_nanos`: the
/// nanoseconds passed on the monotonic clock since `origin`. It depends on the
/// time, so nothing is promised of the value.
#[verifier::external_body]
pub(crate) fn nanos_since(origin: &std::time::Instant) -> (r: u128) {
    origin.elapsed().as_nanos()
}

} // verus!
