use vstd::prelude::*;
use std::time::{Duration, SystemTime};

verus! {

#[verifier::external_type_specification]
#[verifier::external_body]
pub struct ExSystemTime(SystemTime);

/// Calls `std::time::SystemTime::now`. Nothing is claimed of the instant it
/// returns: it depends on the clock.
#[verifier::external_body]
fn system_time_now() -> SystemTime {
    SystemTime::now()
}

/// Calls `SystemTime::duration_since` with `UNIX_EPOCH`, keeping the duration
/// and turning the error (an instant before the epoch) into `None`. Nothing is
/// claimed of the result: the instant is opaque here.
#[verifier::external_body]
fn duration_since_unix_epoch(t: &SystemTime) -> Option<Duration> {
    match t.duration_since(std::time::UNIX_EPOCH) {
        Ok(d) => Some(d),
        Err(_) => None,
    }
}

/// Calls `Duration::as_millis`. Nothing is claimed of the result: the
/// duration is opaque here.
#[verifier::external_body]
fn duration_as_millis(d: &Duration) -> u128 {
    d.as_millis()
}

/// The timestamp kept for a reading of the clock: the milliseconds since the
/// epoch truncated to 64 bits, or 0 when the clock reads before the epoch.
pub fn epoch_millis_to_timestamp(millis: Option<u128>) -> (ms: u64)
    ensures
        ms == match millis {
            Some(m) => m as u64,
            None => 0u64,
        },
{
    match millis {
        Some(m) => m as u64,
        None => 0,
    }
}

/// Milliseconds since the Unix epoch, read from the system clock (0 when the
/// clock reads before the epoch).
pub fn unix_time_ms() -> u64 {
    let now = system_time_now();
    let since_epoch = duration_since_unix_epoch(&now);
    let millis = match since_epoch {
        Some(d) => Some(duration_as_millis(&d)),
        None => None,
    };
    epoch_millis_to_timestamp(millis)
}

} // verus!
