//! The two outside abilities the decorators need: reading a monotonic clock
//! and blocking for a stretch of time. The clock comes from `std::time`
//! behind trusted declarations; blocking is a capability, `Pause`, that a
//! caller supplies, since this crate itself never sleeps.

use vstd::prelude::*;

verus! {

/// `std::time::Instant`, declared so that a reading of the monotonic clock
/// can be held as the epoch a rate limiter measures from. The type is opaque
/// here: nothing is assumed of its contents.
#[verifier::external_type_specification]
#[verifier::external_body]
pub struct ExInstant(std::time::Instant);

/// Relies on `std::time::Instant::now`: a reading of the monotonic clock.
/// The value depends on the moment of the call, so nothing is promised of it.
#[verifier::external_body]
pub(crate) fn instant_now() -> std::time::Instant {
    std::time::Instant::now()
}

/// Relies on `std::time::Instant::elapsed`: the span the monotonic clock has
/// counted since `epoch`, or zero if `epoch` lies ahead of it. The value
/// depends on the moment of the call, so nothing is promised of it.
#[verifier::external_body]
pub(crate) fn elapsed_since(epoch: &std::time::Instant) -> std::time::Duration {
    epoch.elapsed()
}

/// Relies on `std::time::Duration::as_nanos`: the whole span counted in
/// nanoseconds. Every span fits, the longest being below 2^94 nanoseconds.
#[verifier::external_body]
pub(crate) fn duration_nanos(d: &std::time::Duration) -> u128 {
    d.as_nanos()
}

/// The ability to block the calling thread for about `nanos` nanoseconds.
///
/// The decorators only ever ask to pause; how the pause happens is the
/// caller's affair, so no contract binds it. A host program would implement
/// this with `std::thread::sleep`; an implementation must yield the thread
/// rather than busy-wait when it can.
pub trait Pause {
    /// Blocks the calling thread for about `nanos` nanoseconds.
    fn pause(&mut self, nanos: u128);
}

/// A `Pause` that returns at once: decorators built over it never block, and
/// only the bookkeeping of their rate limiters remains observable.
pub struct NoPause;

impl Pause for NoPause {
    fn pause(&mut self, nanos: u128) {
        let _ = nanos;
    }
}

} // verus!
