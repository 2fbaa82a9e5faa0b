//! The monotonic clock, read as whole nanoseconds since an anchor.

use std::time::Duration;
use std::time::Instant;
use vstd::prelude::*;

verus! {

/// `std::time::Instant`, a point on the monotonic clock.
#[verifier::external_type_specification]
#[verifier::external_body]
pub struct ExInstant(Instant);

/// `Instant::now`: the present moment. Nothing is claimed of it.
#[verifier::external_body]
pub(crate) fn anchor() -> (now: Instant) {
    Instant::now()
}

/// `Instant::elapsed`: the time that has passed since `start`. Nothing is
/// claimed of it.
#[verifier::external_body]
pub(crate) fn elapsed_since(start: &Instant) -> (elapsed: Duration) {
    start.elapsed()
}

/// The length of a duration in whole nanoseconds.
pub uninterp spec fn nanos_of(duration: Duration) -> u128;

/// `Duration::as_nanos`: the length of the duration in whole nanoseconds,
/// which depends on the duration alone.
#[verifier::external_body]
pub(crate) fn whole_nanos(duration: &Duration) -> (nanos: u128)
    ensures
        nanos == nanos_of(*duration),
{
    duration.as_nanos()
}

/// The value of a nanosecond count on a 64-bit clock, which stops at its
/// last reading (some 584 years).
pub open spec fn clamped(nanos: u128) -> u64 {
    if nanos > u64::MAX {
        u64::MAX
    } else {
        nanos as u64
    }
}

/// Brings a nanosecond count into the range of a 64-bit clock.
pub fn clamp_nanos(nanos: u128) -> (reading: u64)
    ensures
        reading == clamped(nanos),
{
    if nanos > u64::MAX as u128 {
        u64::MAX
    } else {
        nanos as u64
    }
}

/// A duration as nanoseconds on a 64-bit clock.
pub fn duration_nanos(duration: &Duration) -> (nanos: u64)
    ensures
        nanos == clamped(nanos_of(*duration)),
{
    clamp_nanos(whole_nanos(duration))
}

/// Whether `nanos` is the length of some duration, in nanoseconds on a
/// 64-bit clock. Which duration the clock gives is not known beforehand.
pub open spec fn is_reading(nanos: u64) -> bool {
    exists|elapsed: Duration| nanos == clamped(#[trigger] nanos_of(elapsed))
}

/// Nanoseconds on a 64-bit clock since `start`: the time that the clock says
/// has passed since then, in whole nanoseconds, stopped at the clock's last
/// reading.
pub fn nanos_since(start: &Instant) -> (nanos: u64)
    ensures
        is_reading(nanos),
{
    let elapsed = elapsed_since(start);
    let nanos: u64 = duration_nanos(&elapsed);
    assert(nanos == clamped(nanos_of(elapsed)));
    nanos
}

} // verus!
