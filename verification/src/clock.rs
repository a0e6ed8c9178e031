//! The system clock, read in whole seconds since the Unix epoch.

use vstd::prelude::*;

verus! {

/// `std::time::SystemTime`, carried through unread.
#[verifier::external_type_specification]
#[verifier::external_body]
pub struct ExSystemTime(std::time::SystemTime);

/// `std::time::SystemTimeError`, carried through unread.
#[verifier::external_type_specification]
#[verifier::external_body]
pub struct ExSystemTimeError(std::time::SystemTimeError);

/// The present moment, from `std::time::SystemTime::now`. Nothing is
/// claimed of it: two readings may differ in either direction.
#[verifier::external_body]
fn present() -> (moment: std::time::SystemTime) {
    std::time::SystemTime::now()
}

/// How long after the Unix epoch a moment lies, from
/// `std::time::SystemTime::duration_since`; an error where it lies before.
#[verifier::external_body]
fn since_epoch(moment: &std::time::SystemTime) -> (elapsed: Result<
    std::time::Duration,
    std::time::SystemTimeError,
>) {
    moment.duration_since(std::time::UNIX_EPOCH)
}

/// The whole seconds of a duration, from `std::time::Duration::as_secs`.
#[verifier::external_body]
fn whole_seconds(elapsed: &std::time::Duration) -> (seconds: u64) {
    elapsed.as_secs()
}

/// The time a reading stands for: a clock before the epoch counts as the
/// epoch itself.
pub open spec fn reading_or_epoch(reading: Option<u64>) -> u64 {
    match reading {
        Some(t) => t,
        None => 0,
    }
}

/// The time a reading stands for.
pub fn time_of(reading: Option<u64>) -> (now: u64)
    ensures
        now == reading_or_epoch(reading),
{
    match reading {
        Some(t) => t,
        None => 0,
    }
}

/// The current time in seconds since the epoch. The value is whatever the
/// clock says, so no caller can rely on more than its type.
pub fn unix_now() -> (now: u64) {
    let reading = match since_epoch(&present()) {
        Ok(elapsed) => Some(whole_seconds(&elapsed)),
        Err(_) => None,
    };
    time_of(reading)
}

} // verus!
