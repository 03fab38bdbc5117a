//! The wall clock, for hosts that do not bring their own timestamps.

use std::time::Duration;
use std::time::SystemTime;
use std::time::SystemTimeError;
use vstd::prelude::*;

verus! {

#[verifier::external_type_specification]
#[verifier::external_body]
pub struct ExSystemTime(std::time::SystemTime);

#[verifier::external_type_specification]
#[verifier::external_body]
pub struct ExSystemTimeError(std::time::SystemTimeError);

/// Calls `std::time::SystemTime::now`. The result is whatever the system
/// clock says; nothing is claimed of it.
#[verifier::external_body]
fn system_time_now() -> SystemTime {
    SystemTime::now()
}

/// Calls `SystemTime::duration_since` with `std::time::UNIX_EPOCH`: the time
/// from the epoch to `time`, or an error where `time` lies before the epoch.
/// Nothing is claimed of the result.
#[verifier::external_body]
fn since_unix_epoch(time: &SystemTime) -> Result<Duration, SystemTimeError> {
    time.duration_since(std::time::UNIX_EPOCH)
}

/// Calls `Duration::as_millis`: the whole milliseconds in `duration`. Nothing
/// is claimed of the result.
#[verifier::external_body]
fn whole_millis(duration: &Duration) -> u128 {
    duration.as_millis()
}

/// Milliseconds since the Unix epoch by the system clock.
///
/// The clock alone decides the reading; `timestamp_ms` says which timestamp
/// each reading gives.
pub fn now_ms() -> (r: i64)
    ensures
        r >= 0,
{
    let now = system_time_now();
    let elapsed = match since_unix_epoch(&now) {
        Ok(elapsed) => Some(whole_millis(&elapsed)),
        Err(_) => None,
    };
    timestamp_ms(elapsed)
}

/// The timestamp for a clock reading of `elapsed` milliseconds since the Unix
/// epoch, where `None` is a clock that stands before the epoch: the reading
/// itself, `i64::MAX` beyond the range of `i64`, and zero before the epoch.
pub open spec fn timestamp_of(elapsed: Option<u128>) -> int {
    match elapsed {
        Some(millis) => if millis <= i64::MAX {
            millis as int
        } else {
            i64::MAX as int
        },
        None => 0,
    }
}

/// Turns a clock reading into a timestamp.
pub fn timestamp_ms(elapsed: Option<u128>) -> (r: i64)
    ensures
        r == timestamp_of(elapsed),
{
    match elapsed {
        Some(millis) => {
            if millis > i64::MAX as u128 {
                i64::MAX
            } else {
                millis as i64
            }
        },
        None => 0,
    }
}

} // verus!
