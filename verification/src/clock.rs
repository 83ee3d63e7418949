//! Wall-clock timestamps for archived files.

use vstd::prelude::*;
use std::time::{Duration, SystemTime, UNIX_EPOCH};

verus! {

/// `std::time::SystemTime`, carried through opaquely.
#[verifier::external_type_specification]
#[verifier::external_body]
pub struct ExSystemTime(std::time::SystemTime);

/// Calls `std::time::SystemTime::now`. Nothing is stated of the result: it
/// reads the clock.
#[verifier::external_body]
fn system_now() -> SystemTime {
    SystemTime::now()
}

/// Calls `std::time::SystemTime::duration_since` with the Unix epoch and
/// keeps the duration when the time is not before the epoch. Nothing is
/// stated of the result: it depends on the clock reading.
#[verifier::external_body]
fn since_unix_epoch(t: &SystemTime) -> Option<Duration> {
    match t.duration_since(UNIX_EPOCH) {
        Ok(d) => Some(d),
        Err(_) => None,
    }
}

/// Calls `std::time::Duration::as_millis`. Nothing is stated of the
/// result: the duration is opaque here.
#[verifier::external_body]
fn whole_millis(d: &Duration) -> u128 {
    d.as_millis()
}

/// The millisecond count of a clock reading as a `u64`: truncated as `as`
/// does, and 0 when the clock reads before the epoch.
pub fn millis_as_u64(elapsed: Option<u128>) -> (r: u64)
    ensures
        match elapsed {
            Some(m) => r as int == m as int % 0x1_0000_0000_0000_0000,
            None => r == 0,
        },
{
    match elapsed {
        Some(m) => {
            let r = m as u64;
            assert(r as int == m as int % 0x1_0000_0000_0000_0000) by (bit_vector)
                requires
                    r == m as u64,
            ;
            r
        },
        None => 0,
    }
}

/// The current Unix time in milliseconds, or 0 when the clock reads
/// before the epoch.
pub fn unix_ms() -> (r: u64) {
    let now = system_now();
    let elapsed = match since_unix_epoch(&now) {
        Some(d) => Some(whole_millis(&d)),
        None => None,
    };
    millis_as_u64(elapsed)
}

} // verus!
