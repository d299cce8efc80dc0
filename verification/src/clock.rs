//! Milliseconds since a start instant, the clock that the HID and raw
//! trackpad fallbacks stamp their reports with.

use vstd::prelude::*;

verus! {

#[verifier::external_type_specification]
#[verifier::external_body]
pub struct ExInstant(std::time::Instant);

/// Calls `std::time::Instant::elapsed`. Nothing is claimed of the result:
/// it depends on the time at which the call is made.
#[verifier::external_body]
fn instant_elapsed(started_at: &std::time::Instant) -> std::time::Duration {
    started_at.elapsed()
}

/// Calls `std::time::Duration::as_millis`. `Duration` is opaque here, so
/// nothing is claimed of the result beyond its type.
#[verifier::external_body]
fn duration_as_millis(duration: &std::time::Duration) -> u128 {
    duration.as_millis()
}

/// A millisecond count that fits in `u64` as itself, any larger one as `u64::MAX`.
pub open spec fn saturated_millis(millis: u128) -> u64 {
    if millis <= u64::MAX as u128 {
        millis as u64
    } else {
        u64::MAX
    }
}

/// Narrows a millisecond count to `u64`, saturating.
pub fn millis_to_u64_saturating(millis: u128) -> (r: u64)
    ensures
        r == saturated_millis(millis),
{
    if millis <= u64::MAX as u128 {
        millis as u64
    } else {
        u64::MAX
    }
}

/// Milliseconds elapsed since `started_at`, saturating at `u64::MAX`; the
/// clock of the IOHID fallback.
pub fn hid_elapsed_millis(started_at: &std::time::Instant) -> u64 {
    let elapsed = instant_elapsed(started_at);
    millis_to_u64_saturating(duration_as_millis(&elapsed))
}

/// Milliseconds elapsed since `started_at`, saturating at `u64::MAX`; the
/// clock of the raw trackpad fallback.
pub fn raw_trackpad_elapsed_millis(started_at: &std::time::Instant) -> u64 {
    let elapsed = instant_elapsed(started_at);
    millis_to_u64_saturating(duration_as_millis(&elapsed))
}

} // verus!
