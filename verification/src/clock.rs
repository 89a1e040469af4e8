//! The release clock: a key is released no sooner than one minute from now.

use vstd::prelude::*;
use std::time::SystemTime;
use std::time::SystemTimeError;
use core::time::Duration;
use crate::error::EnvelopeError;

verus! {

/// One minute in milliseconds: the minimum lock interval.
pub const ONE_MINUTE: u64 = 60 * 1000;

/// The latest moment, in milliseconds since the epoch, whose release time
/// still fits in 64 bits.
pub const MAX_CLOCK_MILLIS: u64 = 18_446_744_073_709_491_615;

/// `std::time::SystemTime`, a reading of the system clock. It is carried
/// from the call that reads the clock to the call that measures it, and
/// nothing is known of what it holds.
#[verifier::external_type_specification]
#[verifier::external_body]
pub struct ExSystemTime(SystemTime);

/// `std::time::SystemTimeError`, the error of a clock that reads earlier
/// than the epoch. Only its presence is looked at.
#[verifier::external_type_specification]
#[verifier::external_body]
pub struct ExSystemTimeError(SystemTimeError);

/// `SystemTime::now` reads the system clock: nothing is known of the result.
pub assume_specification[ SystemTime::now ]() -> (now: SystemTime);

/// `SystemTime::duration_since` gives the time elapsed since `earlier`, or an
/// error when `earlier` is the later of the two. Which of them comes depends
/// on the clock that was read.
pub assume_specification[ SystemTime::duration_since ](
    time: &SystemTime,
    earlier: SystemTime,
) -> (elapsed: Result<Duration, SystemTimeError>);

/// `Duration::as_millis` gives the whole milliseconds of a duration. A
/// duration is opaque here, so nothing is stated of the number.
pub assume_specification[ Duration::as_millis ](elapsed: &Duration) -> (millis: u128);

/// The constant `SystemTime::UNIX_EPOCH`, the instant that readings count from.
#[verifier::external_body]
fn unix_epoch() -> (epoch: SystemTime) {
    SystemTime::UNIX_EPOCH
}

/// The release time that belongs to a moment given in milliseconds.
pub open spec fn release_time_after(now_ms: int) -> int {
    now_ms + ONE_MINUTE
}

/// What a count of milliseconds comes to as a clock reading: the count
/// where 64 bits hold it, else a refusal.
pub open spec fn reading_of_millis(millis: u128) -> Result<u64, EnvelopeError> {
    if millis <= u64::MAX {
        Ok(millis as u64)
    } else {
        Err(EnvelopeError::ClockError)
    }
}

/// What a clock reading comes to. A reading is the milliseconds since the
/// epoch, or nothing where the clock stands before the epoch. A clock before
/// the epoch counts as the epoch itself. A reading whose release time does
/// not fit in 64 bits is refused; any other is answered with the moment one
/// minute after it.
pub open spec fn release_time_of_reading(reading: Option<u64>) -> Result<u64, EnvelopeError> {
    match reading {
        None => Ok(ONE_MINUTE),
        Some(now_ms) => if now_ms <= MAX_CLOCK_MILLIS {
            Ok(release_time_after(now_ms as int) as u64)
        } else {
            Err(EnvelopeError::ClockError)
        },
    }
}

/// The release time for content locked at `now_ms`, in milliseconds since
/// the epoch: exactly one minute later.
pub fn compute_release_time(now_ms: u64) -> (release: u64)
    requires
        now_ms + ONE_MINUTE <= u64::MAX,
    ensures
        release == release_time_after(now_ms as int),
        release >= now_ms,
{
    now_ms + ONE_MINUTE
}

/// Takes a count of milliseconds as a clock reading, refusing one that 64
/// bits do not hold.
pub fn reading_from_millis(millis: u128) -> (reading: Result<u64, EnvelopeError>)
    ensures
        reading == reading_of_millis(millis),
{
    if millis <= u64::MAX as u128 {
        Ok(millis as u64)
    } else {
        Err(EnvelopeError::ClockError)
    }
}

/// The release time for a clock reading in milliseconds since the epoch:
/// one minute after the reading, and never before it. A reading too late for
/// that is refused, not wrapped. Where there is no reading, the clock stands
/// before the epoch, and the release time is one minute after the epoch.
pub fn release_time_at(reading: Option<u64>) -> (release: Result<u64, EnvelopeError>)
    ensures
        release == release_time_of_reading(reading),
        reading matches Some(now_ms) ==> {
            &&& release is Ok <==> now_ms + ONE_MINUTE <= u64::MAX
            &&& release matches Ok(at) ==> at == now_ms + ONE_MINUTE
        },
{
    match reading {
        None => Ok(compute_release_time(0)),
        Some(now_ms) => {
            if now_ms <= MAX_CLOCK_MILLIS {
                Ok(compute_release_time(now_ms))
            } else {
                Err(EnvelopeError::ClockError)
            }
        },
    }
}

/// Release time: take the current time and push it back one minute. The
/// clock is read in milliseconds since the epoch, and the result is what
/// `release_time_at` makes of the reading; a clock too late to be read in 64
/// bits of milliseconds is refused like a reading too late to be released.
pub fn release_time() -> (release: Result<u64, EnvelopeError>)
    ensures
        exists|reading: Option<u64>| release == release_time_of_reading(reading),
        release matches Ok(at) ==> at >= ONE_MINUTE,
        release matches Err(e) ==> e == EnvelopeError::ClockError,
{
    let now = SystemTime::now();
    match now.duration_since(unix_epoch()) {
        Ok(elapsed) => match reading_from_millis(elapsed.as_millis()) {
            Ok(now_ms) => release_time_at(Some(now_ms)),
            Err(e) => {
                assert(release_time_of_reading(Some(u64::MAX)) == Err::<u64, EnvelopeError>(e));
                Err(e)
            },
        },
        Err(_) => release_time_at(None),
    }
}

} // verus!
