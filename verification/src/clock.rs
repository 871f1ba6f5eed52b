//! The system clock and a stopwatch.

use vstd::prelude::*;

verus! {

/// `std::time::Instant`, a point on the monotonic clock.
#[verifier::external_type_specification]
#[verifier::external_body]
pub struct ExInstant(std::time::Instant);

/// `chrono::Utc::now().timestamp()`: the seconds since the Unix epoch on the
/// system clock. The value differs from call to call. It lies within the
/// dates that `chrono` can hold, whose day number fits in 32 bits. The call
/// panics where the system clock stands before the epoch.
#[verifier::external_body]
pub(crate) fn unix_now() -> (now: i64)
    ensures
        -0x1_0000_0000_0000 < now < 0x1_0000_0000_0000,
{
    chrono::Utc::now().timestamp()
}

/// `std::time::Instant::now()`: starts a stopwatch.
#[verifier::external_body]
pub(crate) fn stopwatch_start() -> std::time::Instant {
    std::time::Instant::now()
}

/// `std::time::Instant::elapsed()`: the time since the stopwatch was started.
#[verifier::external_body]
pub(crate) fn stopwatch_elapsed(started: &std::time::Instant) -> std::time::Duration {
    started.elapsed()
}

/// `std::time::Duration::as_millis()`: the whole milliseconds of a duration.
#[verifier::external_body]
pub(crate) fn whole_millis(duration: &std::time::Duration) -> u128 {
    duration.as_millis()
}

/// The whole milliseconds since the stopwatch was started; a time that does
/// not fit in 64 bits counts as the longest that does.
pub(crate) fn stopwatch_elapsed_ms(started: &std::time::Instant) -> (ms: u64) {
    let elapsed = stopwatch_elapsed(started);
    let millis = whole_millis(&elapsed);
    if millis > 0xffff_ffff_ffff_ffff {
        0xffff_ffff_ffff_ffff
    } else {
        millis as u64
    }
}

/// A clock reading as seconds since the epoch; readings before the epoch
/// count as the epoch itself.
pub open spec fn epoch_seconds_spec(now: i64) -> u64 {
    if now < 0 {
        0
    } else {
        now as u64
    }
}

/// A clock reading as seconds since the epoch; readings before the epoch
/// count as the epoch itself.
pub fn epoch_seconds(now: i64) -> (secs: u64)
    ensures
        secs == epoch_seconds_spec(now),
{
    if now < 0 {
        0
    } else {
        now as u64
    }
}

} // verus!
