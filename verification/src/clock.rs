//! The wall clock in whole seconds since the Unix epoch.

use std::time::{Duration, SystemTime, SystemTimeError};

use vstd::prelude::*;

verus! {

/// A reading of the wall clock, carried and never looked into.
#[verifier::external_type_specification]
#[verifier::external_body]
pub struct ExSystemTime(SystemTime);

/// That one clock reading lies before another, carried and never looked into.
#[verifier::external_type_specification]
#[verifier::external_body]
pub struct ExSystemTimeError(SystemTimeError);

/// `SystemTime::now`: whatever the wall clock shows. Nothing is claimed of it.
pub assume_specification[ SystemTime::now ]() -> (now: SystemTime);

/// `SystemTime::duration_since`: the span between two readings, or that they
/// are the other way round. Both readings come from the machine, so nothing
/// is claimed of the span.
pub assume_specification[ SystemTime::duration_since ](
    later: &SystemTime,
    earlier: SystemTime,
) -> (span: Result<Duration, SystemTimeError>);

/// `Duration::as_secs`: the whole seconds of a span. The span comes from the
/// machine, so nothing is claimed of the number.
pub assume_specification[ Duration::as_secs ](span: &Duration) -> (seconds: u64);

/// `std::time::UNIX_EPOCH`: the reading that Unix time counts from. Nothing
/// is claimed of it.
#[verifier::external_body]
pub(crate) fn unix_epoch() -> (epoch: SystemTime) {
    std::time::UNIX_EPOCH
}

/// Seconds since the epoch as a signed number: the largest one where they do
/// not fit, and zero for a clock that stands before the epoch.
pub open spec fn as_unix_seconds(since_epoch: Option<u64>) -> i64 {
    match since_epoch {
        None => 0,
        Some(seconds) => if seconds <= i64::MAX {
            seconds as i64
        } else {
            i64::MAX
        },
    }
}

/// `reading` is the one that Unix time counts from.
pub closed spec fn is_unix_epoch(reading: SystemTime) -> bool {
    call_ensures(unix_epoch, (), reading)
}

/// `now` is what one reading of the wall clock comes to: the clock was read,
/// the reading was measured against the epoch, and `now` is the whole seconds
/// of that span, or zero where the clock stands before the epoch.
pub open spec fn is_clock_reading(now: i64) -> bool {
    exists|reading: SystemTime, epoch: SystemTime, since: Result<Duration, SystemTimeError>|
        {
            &&& call_ensures(SystemTime::now, (), reading)
            &&& is_unix_epoch(epoch)
            &&& #[trigger] call_ensures(SystemTime::duration_since, (&reading, epoch), since)
            &&& match since {
                Ok(span) => exists|seconds: u64| #[trigger]
                    call_ensures(Duration::as_secs, (&span,), seconds) && now == as_unix_seconds(
                        Some(seconds),
                    ),
                Err(_) => now == as_unix_seconds(None),
            }
        }
}

/// Seconds since the epoch as a signed number: the largest one where they do
/// not fit, and zero for a clock that stands before the epoch.
pub fn unix_seconds(since_epoch: Option<u64>) -> (now: i64)
    ensures
        now == as_unix_seconds(since_epoch),
{
    match since_epoch {
        None => 0,
        Some(seconds) => if seconds <= i64::MAX as u64 {
            seconds as i64
        } else {
            i64::MAX
        },
    }
}

/// What the wall clock shows, in seconds since the epoch. It is never
/// negative; which moment the clock shows is the machine's.
pub fn unix_time() -> (now: i64)
    ensures
        is_clock_reading(now),
        now >= 0,
{
    match SystemTime::now().duration_since(unix_epoch()) {
        Ok(span) => unix_seconds(Some(span.as_secs())),
        Err(_) => unix_seconds(None),
    }
}

/// Seconds since the epoch stay what they are as far as they fit, never run
/// backwards and never turn negative; a clock before the epoch reads zero.
pub proof fn seconds_are_kept(since_epoch: Option<u64>, now: i64)
    requires
        call_ensures(unix_seconds, (since_epoch,), now),
    ensures
        since_epoch is None ==> now == 0,
        since_epoch matches Some(seconds) ==> now <= seconds,
        since_epoch matches Some(seconds) ==> (now == seconds || now == i64::MAX),
        now >= 0,
{
}

/// A reading of the clock is the whole seconds it has run since the epoch, as
/// far as they fit, and zero where it stands before the epoch.
pub proof fn reading_is_seconds_since_the_epoch(now: i64)
    requires
        call_ensures(unix_time, (), now),
    ensures
        exists|reading: SystemTime, epoch: SystemTime, since: Result<Duration, SystemTimeError>|
            {
                &&& call_ensures(SystemTime::now, (), reading)
                &&& is_unix_epoch(epoch)
                &&& #[trigger] call_ensures(SystemTime::duration_since, (&reading, epoch), since)
                &&& since is Err ==> now == 0
                &&& since matches Ok(span) ==> exists|seconds: u64| #[trigger]
                    call_ensures(Duration::as_secs, (&span,), seconds) && 0 <= now <= seconds
                        && (now == seconds || now == i64::MAX)
            },
{
    let (reading, epoch, since) = choose|
        reading: SystemTime,
        epoch: SystemTime,
        since: Result<Duration, SystemTimeError>,
    |
        {
            &&& call_ensures(SystemTime::now, (), reading)
            &&& is_unix_epoch(epoch)
            &&& #[trigger] call_ensures(SystemTime::duration_since, (&reading, epoch), since)
            &&& match since {
                Ok(span) => exists|seconds: u64| #[trigger]
                    call_ensures(Duration::as_secs, (&span,), seconds) && now == as_unix_seconds(
                        Some(seconds),
                    ),
                Err(_) => now == as_unix_seconds(None),
            }
        };
    assert(call_ensures(SystemTime::duration_since, (&reading, epoch), since));
}

/// What readings are measured against is the Unix epoch and no other reading.
pub(crate) proof fn readings_count_from_the_unix_epoch(reading: SystemTime)
    ensures
        is_unix_epoch(reading) ==> call_ensures(unix_epoch, (), reading),
{
}

} // verus!
