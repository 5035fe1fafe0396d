//! The system clock, as far as the uptime report needs it.

use std::time::{Duration, SystemTime, SystemTimeError};
use vstd::prelude::*;

verus! {

/// `std::time::SystemTime`: a reading of the system clock. Nothing is known
/// of what a value holds.
#[verifier::external_type_specification]
#[verifier::external_body]
pub struct ExSystemTime(SystemTime);

/// `std::time::SystemTimeError`: what `SystemTime::duration_since` returns
/// when the second reading is later than the first.
#[verifier::external_type_specification]
#[verifier::external_body]
pub struct ExSystemTimeError(SystemTimeError);

/// `SystemTime::now` reads the clock. Nothing is claimed of the reading.
pub assume_specification[ SystemTime::now ]() -> SystemTime;

/// What `SystemTime::duration_since` gives for two readings: it depends on
/// the two readings alone.
pub uninterp spec fn span_since(later: SystemTime, earlier: SystemTime) -> Result<
    Duration,
    SystemTimeError,
>;

/// `SystemTime::duration_since` returns the time that passed from `earlier`
/// to `later`, or an error if `earlier` is the later of the two. The contract
/// gives that outcome a name and claims nothing of which it is.
pub assume_specification[ SystemTime::duration_since ](
    later: &SystemTime,
    earlier: SystemTime,
) -> (elapsed: Result<Duration, SystemTimeError>)
    ensures
        elapsed == span_since(*later, earlier),
;

/// What `Duration::as_secs` gives for a span: its whole seconds, the
/// fraction of a second dropped.
pub uninterp spec fn whole_secs(d: Duration) -> u64;

/// `Duration::as_secs` returns the whole seconds of a duration. The contract
/// gives that number a name and claims nothing of its size.
pub assume_specification[ Duration::as_secs ](d: &Duration) -> (secs: u64)
    ensures
        secs == whole_secs(*d),
;

/// The whole seconds of the outcome of a measurement: those of the span
/// where there is one, none where the measurement failed.
pub open spec fn seconds_of(elapsed: Result<Duration, SystemTimeError>) -> Option<u64> {
    match elapsed {
        Ok(span) => Some(whole_secs(span)),
        Err(_) => None,
    }
}

/// The whole seconds of a measured span of time, or `None` where the
/// measurement failed.
pub fn whole_seconds(elapsed: Result<Duration, SystemTimeError>) -> (seconds: Option<u64>)
    ensures
        seconds == seconds_of(elapsed),
{
    match elapsed {
        Ok(span) => Some(span.as_secs()),
        Err(_) => None,
    }
}

/// The whole seconds that have passed since `start_time`, or `None` if the
/// clock now reads earlier than `start_time`. The clock is read once, during
/// the call; the result is what the span from `start_time` to that reading
/// gives.
pub fn calculate_uptime(start_time: &SystemTime) -> (uptime: Option<u64>)
    ensures
        exists|now: SystemTime| uptime == seconds_of(#[trigger] span_since(now, *start_time)),
{
    let now: SystemTime = SystemTime::now();
    whole_seconds(now.duration_since(*start_time))
}

} // verus!
