//! Wall-clock timestamps in milliseconds since the Unix epoch.
use vstd::prelude::*;
use std::time::{Duration, SystemTime};

verus! {

#[verifier::external_type_specification]
#[verifier::external_body]
pub struct ExSystemTime(SystemTime);

/// `SystemTime::now`: the current wall-clock time. It depends on the
/// moment of the call, so nothing is stated of it.
#[verifier::external_body]
fn system_now() -> SystemTime {
    SystemTime::now()
}

/// `SystemTime::duration_since` applied to the Unix epoch: the time elapsed
/// since then, `None` when the clock is set before the epoch. The time is
/// opaque here, so nothing is stated of the result.
#[verifier::external_body]
fn since_unix_epoch(time: &SystemTime) -> Option<Duration> {
    match time.duration_since(std::time::UNIX_EPOCH) {
        Ok(elapsed) => Some(elapsed),
        Err(_) => None,
    }
}

/// `Duration::as_millis`: the whole milliseconds of a duration. The
/// duration is opaque here, so nothing is stated of the result.
#[verifier::external_body]
fn whole_millis(elapsed: &Duration) -> u128 {
    elapsed.as_millis()
}

/// A millisecond count as a timestamp: its low 64 bits, or 0 when the
/// clock could not be read.
pub fn millis_timestamp(millis: Option<u128>) -> (t: u64)
    ensures
        t == match millis {
            Some(m) => m as u64,
            None => 0,
        },
{
    match millis {
        Some(m) => m as u64,
        None => 0,
    }
}

/// The current time in milliseconds since the Unix epoch; 0 when the clock
/// is set before the epoch.
pub fn now_millis() -> u64 {
    let now = system_now();
    let millis = match since_unix_epoch(&now) {
        Some(elapsed) => Some(whole_millis(&elapsed)),
        None => None,
    };
    millis_timestamp(millis)
}

} // verus!
