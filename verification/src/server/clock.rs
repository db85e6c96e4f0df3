//! The system clock.
use std::time::{Duration, SystemTime, SystemTimeError};
use vstd::prelude::*;

verus! {

/// A point in time of the system clock.
#[verifier::external_type_specification]
#[verifier::external_body]
pub struct ExSystemTime(SystemTime);

/// The clock stands before the point in time that it was compared with.
#[verifier::external_type_specification]
#[verifier::external_body]
pub struct ExSystemTimeError(SystemTimeError);

/// `SystemTime::now`: the current time, of which nothing is promised.
pub assume_specification[ SystemTime::now ]() -> (r: SystemTime);

/// `SystemTime::duration_since` the Unix epoch. What it returns depends on the clock, so nothing is
/// promised of it.
#[verifier::external_body]
fn since_epoch(time: SystemTime) -> (r: Result<Duration, SystemTimeError>) {
    time.duration_since(SystemTime::UNIX_EPOCH)
}

/// `Duration::as_millis`: the whole milliseconds of a duration. A duration has no contents that a
/// contract could speak of, so nothing is promised of the number.
pub assume_specification[ Duration::as_millis ](d: &Duration) -> (r: u128);

/// A number of milliseconds in 64 bits; zero for a clock that stands before the Unix epoch.
pub fn clock_reading(elapsed_ms: Option<u128>) -> (r: u64)
    ensures
        r == match elapsed_ms {
            Some(ms) => ms as u64,
            None => 0,
        },
{
    match elapsed_ms {
        Some(ms) => #[verifier::truncate]
        (ms as u64),
        None => 0,
    }
}

/// Milliseconds since the Unix epoch. What the clock shows is not known beforehand; `clock_reading`
/// says what is made of it.
pub fn now_ms() -> (r: u64) {
    let elapsed = match since_epoch(SystemTime::now()) {
        Ok(d) => Some(d.as_millis()),
        Err(_) => None,
    };
    clock_reading(elapsed)
}

} // verus!
