//! Reading the monotonic clock.
use vstd::prelude::*;

verus! {

#[verifier::external_type_specification]
#[verifier::external_body]
pub struct ExInstant(tokio::time::Instant);

/// Calls `tokio::time::Instant::now`. The clock's reading depends on the
/// moment of the call, so nothing is stated of it.
#[verifier::external_body]
pub(crate) fn instant_now() -> tokio::time::Instant {
    tokio::time::Instant::now()
}

/// Calls `tokio::time::Instant::elapsed` on `earlier` and gives back the
/// duration in whole nanoseconds (`Duration::as_nanos`). It depends on the
/// moment of the call, so nothing is stated of it.
#[verifier::external_body]
pub(crate) fn nanos_since(earlier: &tokio::time::Instant) -> u128 {
    earlier.elapsed().as_nanos()
}

} // verus!
