//! Milliseconds since the Unix epoch, as upload ids and timestamps use them.

use vstd::prelude::*;
use std::time::{Duration, SystemTime, SystemTimeError};

verus! {

#[verifier::external_type_specification]
#[verifier::external_body]
pub struct ExSystemTime(SystemTime);

#[verifier::external_type_specification]
#[verifier::external_body]
pub struct ExSystemTimeError(SystemTimeError);

/// Calls `SystemTime::now`: the current time of the system clock, of which
/// nothing is stated.
#[verifier::external_body]
fn system_now() -> SystemTime {
    SystemTime::now()
}

/// Calls `SystemTime::duration_since` with `UNIX_EPOCH`: the time elapsed since
/// the epoch, or an error when the clock reads earlier; nothing more is stated.
#[verifier::external_body]
fn since_unix_epoch(now: &SystemTime) -> Result<Duration, SystemTimeError> {
    now.duration_since(std::time::UNIX_EPOCH)
}

/// Calls `Duration::as_millis`: the whole milliseconds of a duration, of which
/// nothing is stated since a `Duration` has no model here.
#[verifier::external_body]
fn duration_millis(elapsed: &Duration) -> u128 {
    elapsed.as_millis()
}

/// Milliseconds since the epoch as `i64` (the `as` conversion), or 0 when the
/// clock reads earlier than the epoch.
pub open spec fn epoch_ms_spec(millis: Option<u128>) -> i64 {
    match millis {
        Some(m) => m as i64,
        None => 0,
    }
}

/// Converts elapsed milliseconds, when known, to the `i64` timestamp.
pub fn epoch_ms_from_millis(millis: Option<u128>) -> (ms: i64)
    ensures
        ms == epoch_ms_spec(millis),
{
    match millis {
        Some(m) => m as i64,
        None => 0,
    }
}

/// The current time in milliseconds since the Unix epoch, 0 when the clock reads
/// earlier than the epoch. The value depends on the clock alone, so no clause
/// states it; `epoch_ms_from_millis` states the conversion.
pub fn current_epoch_ms() -> i64 {
    let now = system_now();
    let millis = match since_unix_epoch(&now) {
        Ok(elapsed) => Some(duration_millis(&elapsed)),
        Err(_) => None,
    };
    epoch_ms_from_millis(millis)
}

} // verus!
