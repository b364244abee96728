//! The system clock, read in whole seconds since the Unix epoch.

use vstd::prelude::*;

verus! {

/// The standard library's system time.
#[verifier::external_type_specification]
#[verifier::external_body]
pub struct ExSystemTime(std::time::SystemTime);

/// The standard library's error for a time before a reference time.
#[verifier::external_type_specification]
#[verifier::external_body]
pub struct ExSystemTimeError(std::time::SystemTimeError);

/// `SystemTime::now`: the current system time.
///
/// The clock is outside the library; nothing is stated of the value.
#[verifier::external_body]
fn system_time_now() -> (res: std::time::SystemTime)
{
    std::time::SystemTime::now()
}

/// `SystemTime::duration_since` with the Unix epoch as the reference.
///
/// It fails when `t` lies before the epoch; nothing is stated of the result.
#[verifier::external_body]
fn duration_since_unix_epoch(t: std::time::SystemTime) -> (res: Result<std::time::Duration, std::time::SystemTimeError>)
{
    t.duration_since(std::time::UNIX_EPOCH)
}

/// `Duration::as_secs`: the whole seconds of a duration.
///
/// A duration is opaque here; nothing is stated of the value.
#[verifier::external_body]
fn duration_whole_seconds(d: &std::time::Duration) -> (res: u64)
{
    d.as_secs()
}

/// The current time in whole seconds since the Unix epoch; zero when the
/// system clock reads a time before the epoch.
pub(crate) fn unix_time_now() -> (res: u64)
{
    match duration_since_unix_epoch(system_time_now()) {
        Ok(d) => duration_whole_seconds(&d),
        Err(_) => 0,
    }
}

} // verus!
