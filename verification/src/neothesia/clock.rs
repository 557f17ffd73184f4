//! The monotonic clock that timestamps presses and toasts.
use std::time::Instant;
use vstd::prelude::*;

verus! {

#[verifier::external_type_specification]
#[verifier::external_body]
pub struct ExInstant(Instant);

/// Reads the monotonic clock: `std::time::Instant::now`. Nothing is stated
/// of the result, which is the time of the call.
#[verifier::external_body]
pub(crate) fn clock_now() -> Instant {
    Instant::now()
}

/// The nanoseconds elapsed on the monotonic clock since `origin`:
/// `std::time::Instant::elapsed`, as nanoseconds cut to 64 bits. Nothing is
/// stated of the result, which depends on the time of the call.
#[verifier::external_body]
pub(crate) fn nanos_since(origin: &Instant) -> u64 {
    origin.elapsed().as_nanos() as u64
}

/// The whole seconds elapsed on the monotonic clock since `origin`:
/// `std::time::Instant::elapsed`, in seconds. Nothing is stated of the
/// result, which depends on the time of the call.
#[verifier::external_body]
pub(crate) fn secs_since(origin: &Instant) -> u64 {
    origin.elapsed().as_secs()
}

} // verus!
