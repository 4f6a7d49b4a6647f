//! The time of writing, read from the system clock.

use vstd::prelude::*;

verus! {

/// `std::time::SystemTime`, a reading of the system clock.
#[verifier::external_type_specification]
#[verifier::external_body]
pub struct ExSystemTime(std::time::SystemTime);

/// `std::time::SystemTimeError`, with which `duration_since` answers where
/// the reading lies before the time it is held against.
#[verifier::external_type_specification]
#[verifier::external_body]
pub struct ExSystemTimeError(std::time::SystemTimeError);

/// `std::time::SystemTime::now` reads the system clock. Nothing is claimed
/// of the reading.
pub assume_specification[ std::time::SystemTime::now ]() -> (t: std::time::SystemTime);

/// `std::time::SystemTime::duration_since` gives the time that has passed
/// between `earlier` and the reading, or an error where the reading is the
/// earlier of the two. Nothing is claimed of the answer.
pub assume_specification[ std::time::SystemTime::duration_since ](
    t: &std::time::SystemTime,
    earlier: std::time::SystemTime,
) -> (r: Result<std::time::Duration, std::time::SystemTimeError>);

/// `std::time::Duration::as_secs` gives the whole seconds of a duration.
/// Nothing is claimed of the number.
pub assume_specification[ std::time::Duration::as_secs ](d: &std::time::Duration) -> (secs: u64);

/// Hands out the constant `std::time::UNIX_EPOCH`.
#[verifier::external_body]
fn epoch() -> (t: std::time::SystemTime) {
    std::time::UNIX_EPOCH
}

/// The time of writing that a reading of the clock gives: the seconds that
/// have passed since the epoch, and zero for a clock that stands before it.
pub fn seconds_or_zero(elapsed: Option<u64>) -> (secs: u64)
    ensures
        secs == match elapsed {
            Some(s) => s,
            None => 0,
        },
{
    match elapsed {
        Some(s) => s,
        None => 0,
    }
}

/// The seconds since the epoch on the system clock, and zero for a clock
/// that stands before the epoch.
pub fn seconds_since_epoch() -> (secs: u64) {
    let now = std::time::SystemTime::now();
    match now.duration_since(epoch()) {
        Ok(d) => seconds_or_zero(Some(d.as_secs())),
        Err(_) => seconds_or_zero(None),
    }
}

} // verus!
