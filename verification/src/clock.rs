//! The wall clock, read as milliseconds since the Unix epoch.

use vstd::prelude::*;
use std::time::{SystemTime, SystemTimeError, Duration, UNIX_EPOCH};

verus! {

#[verifier::external_type_specification]
#[verifier::external_body]
pub struct ExSystemTime(SystemTime);

#[verifier::external_type_specification]
#[verifier::external_body]
pub struct ExSystemTimeError(SystemTimeError);

/// Calls `SystemTime::now`. Nothing is claimed of the instant it returns.
#[verifier::external_body]
fn system_time_now() -> SystemTime {
    SystemTime::now()
}

/// Calls `SystemTime::duration_since` with `UNIX_EPOCH`. Nothing is claimed:
/// the result depends on the instant, which is opaque here (it is an error
/// when the instant lies before the epoch).
#[verifier::external_body]
fn since_unix_epoch(t: &SystemTime) -> Result<Duration, SystemTimeError> {
    t.duration_since(UNIX_EPOCH)
}

/// The whole milliseconds in the largest `Duration` (`Duration::MAX`, which
/// is `u64::MAX` seconds and 999 999 999 nanoseconds).
pub const MAX_DURATION_MILLIS: u128 = 18446744073709551615999;

/// Calls `Duration::as_millis`. The contract claims only that the count is at
/// most the milliseconds in `Duration::MAX`, as every duration is.
#[verifier::external_body]
fn duration_as_millis(d: &Duration) -> (ms: u128)
    ensures
        ms <= MAX_DURATION_MILLIS,
{
    d.as_millis()
}

/// Reads the wall clock as whole milliseconds since the Unix epoch; `None`
/// when the clock reads a time before the epoch. A reading is never more
/// than the milliseconds a `Duration` can hold.
pub fn mock_timestamp() -> (r: Option<u128>)
    ensures
        r matches Some(t) ==> t <= MAX_DURATION_MILLIS,
{
    let now = system_time_now();
    match since_unix_epoch(&now) {
        Ok(elapsed) => Some(duration_as_millis(&elapsed)),
        Err(_) => None,
    }
}

} // verus!
