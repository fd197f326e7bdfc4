//! Reading the wall clock.

use vstd::prelude::*;
use std::time::{Duration, SystemTime, SystemTimeError, UNIX_EPOCH};

verus! {

/// `std::time::SystemTime`, a reading of the wall clock.
#[verifier::external_type_specification]
#[verifier::external_body]
pub struct ExSystemTime(SystemTime);

/// `std::time::SystemTimeError`, the error of a clock reading that lies
/// before the instant it is measured from.
#[verifier::external_type_specification]
#[verifier::external_body]
pub struct ExSystemTimeError(SystemTimeError);

/// Calls `SystemTime::now`. Nothing is claimed of the reading.
#[verifier::external_body]
fn clock_reading() -> (reading: SystemTime) {
    SystemTime::now()
}

/// Calls `SystemTime::duration_since` with `UNIX_EPOCH`. Nothing is claimed
/// of the result: the call fails when the reading lies before the epoch.
#[verifier::external_body]
fn since_epoch(reading: &SystemTime) -> (elapsed: Result<Duration, SystemTimeError>) {
    reading.duration_since(UNIX_EPOCH)
}

/// The whole seconds that have passed since the Unix epoch, or `None` where
/// the clock reads a time before it.
///
/// The clock decides which time is measured. Whatever it reads, a count that
/// is returned is the whole seconds of some measured duration; what comes of
/// each measurement is stated by [`timestamp_of`].
pub fn get_current_timestamp() -> (seconds: Option<u64>)
    ensures
        seconds matches Some(count) ==> exists|passed: Duration|
            count == #[trigger] seconds_in(passed),
{
    let reading = clock_reading();
    timestamp_of(since_epoch(&reading))
}

/// The whole seconds that a duration holds, as `Duration::as_secs` gives
/// them.
pub uninterp spec fn seconds_in(elapsed: Duration) -> u64;

/// Calls `Duration::as_secs`.
///
/// Trusted: the count is a function of the duration alone. Nothing is
/// claimed about which count a duration has.
#[verifier::external_body]
fn whole_seconds(elapsed: &Duration) -> (seconds: u64)
    ensures
        seconds == seconds_in(*elapsed),
{
    elapsed.as_secs()
}

/// The timestamp that a measurement from the Unix epoch stands for: the
/// whole seconds of the time that has passed, or `None` where the
/// measurement failed because the clock read a time before the epoch.
pub fn timestamp_of(elapsed: Result<Duration, SystemTimeError>) -> (seconds: Option<u64>)
    ensures
        match elapsed {
            Ok(passed) => seconds == Some(seconds_in(passed)),
            Err(_) => seconds is None,
        },
{
    match elapsed {
        Ok(passed) => Some(whole_seconds(&passed)),
        Err(_) => None,
    }
}

} // verus!
