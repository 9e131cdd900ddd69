//! The wall clock, read in milliseconds since the Unix epoch.

use std::time::Duration;
use std::time::SystemTime;
use std::time::SystemTimeError;
use vstd::prelude::*;

verus! {

/// `std::time::SystemTime`, a point in time as the system clock counts it.
/// Opaque here: it is read once and handed on to `since_epoch`.
#[verifier::external_type_specification]
#[verifier::external_body]
pub struct ExSystemTime(SystemTime);

/// `std::time::SystemTimeError`, the error of a clock that stands before the
/// time it is compared with. Opaque here: only that it came is used.
#[verifier::external_type_specification]
#[verifier::external_body]
pub struct ExSystemTimeError(SystemTimeError);

/// `SystemTime::now` reads the system clock. Nothing is claimed of the
/// reading: two calls may give any two values, the later one the smaller.
pub assume_specification[ SystemTime::now ]() -> (now: SystemTime);

/// `SystemTime::duration_since`, with `SystemTime::UNIX_EPOCH` for the earlier
/// time: the time elapsed since the Unix epoch, or an error where the clock
/// stands before it. Nothing is claimed of which.
#[verifier::external_body]
fn since_epoch(time: &SystemTime) -> (elapsed: Result<Duration, SystemTimeError>) {
    time.duration_since(SystemTime::UNIX_EPOCH)
}

/// `Duration::as_millis` gives the whole milliseconds in a duration.
/// Nothing is claimed of the number.
pub assume_specification[ Duration::as_millis ](duration: &Duration) -> (millis: u128);

/// Reads the clock: milliseconds since the Unix epoch, cut to 64 bits, or
/// `None` where the clock stands before the epoch.
pub fn current_timestamp() -> (now: Option<u64>) {
    let time = SystemTime::now();
    match since_epoch(&time) {
        Ok(elapsed) => {
            let millis: u128 = elapsed.as_millis();
            Some(#[verifier::truncate] (millis as u64))
        },
        Err(_) => None,
    }
}

} // verus!
