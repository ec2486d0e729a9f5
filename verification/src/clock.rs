//! The wall clock, read in milliseconds since the Unix epoch.

use std::time::{Duration, SystemTime, SystemTimeError};
use vstd::prelude::*;

verus! {

/// `std::time::SystemTime`, carried from the clock to the subtraction and
/// never looked into.
#[verifier::external_type_specification]
#[verifier::external_body]
pub struct ExSystemTime(std::time::SystemTime);

/// `std::time::SystemTimeError`, the sign that an instant lies before the
/// one it was measured from; never looked into.
#[verifier::external_type_specification]
#[verifier::external_body]
pub struct ExSystemTimeError(std::time::SystemTimeError);

/// `SystemTime::now`: the current reading of the system clock. Nothing is
/// claimed of it: the clock may jump in either direction between two calls.
#[verifier::external_body]
fn system_now() -> SystemTime {
    SystemTime::now()
}

/// `SystemTime::duration_since` with the Unix epoch as the earlier instant:
/// the time elapsed since the epoch, or an error when `instant` lies before
/// it. Nothing is claimed of which it is, nor of the duration.
#[verifier::external_body]
fn since_epoch(instant: &SystemTime) -> Result<Duration, SystemTimeError> {
    instant.duration_since(std::time::UNIX_EPOCH)
}

/// `Duration::as_millis`: the whole milliseconds in `elapsed`. Nothing is
/// claimed of the number.
#[verifier::external_body]
fn whole_millis(elapsed: &Duration) -> u128 {
    elapsed.as_millis()
}

/// Two to the sixty-fourth: one more than the largest timestamp.
pub const STAMP_MODULUS: u128 = 0x1_0000_0000_0000_0000u128;

/// The timestamp that stands for a clock reading. A reading of so many
/// milliseconds after the epoch keeps its low 64 bits; a clock that stands
/// before the epoch gives no reading and is stamped zero.
pub open spec fn stamp_of(elapsed_millis: Option<u128>) -> int {
    match elapsed_millis {
        Some(millis) => millis as int % STAMP_MODULUS as int,
        None => 0,
    }
}

/// Turns a clock reading into a timestamp.
pub fn stamp(elapsed_millis: Option<u128>) -> (timestamp: u64)
    ensures
        timestamp == stamp_of(elapsed_millis),
{
    match elapsed_millis {
        Some(millis) => {
            let low: u128 = millis % STAMP_MODULUS;
            low as u64
        },
        None => 0,
    }
}

/// The current time in milliseconds since the Unix epoch, cut to 64 bits;
/// zero when the clock stands before the epoch. The clock decides the
/// reading and `stamp` decides the rest, so nothing holds of the result
/// that does not hold of every `u64`.
pub(crate) fn now_millis() -> u64 {
    let instant = system_now();
    let reading: Option<u128> = match since_epoch(&instant) {
        Ok(elapsed) => Some(whole_millis(&elapsed)),
        Err(_) => None,
    };
    stamp(reading)
}

} // verus!
