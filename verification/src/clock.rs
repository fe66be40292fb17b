//! The wall-clock time used to date deploys.
use vstd::prelude::*;
use std::time::{Duration, SystemTime};

verus! {

#[verifier::external_type_specification]
#[verifier::external_body]
pub struct ExSystemTime(SystemTime);

/// `SystemTime::now`: the time of the system clock. Nothing is stated of
/// it: it is whatever the clock reads.
#[verifier::external_body]
fn system_time_now() -> SystemTime {
    SystemTime::now()
}

/// `SystemTime::duration_since` the Unix epoch: the time elapsed since
/// then, or `None` (std's error) for a time before the epoch. Nothing more
/// is stated: the time is opaque here.
#[verifier::external_body]
fn since_unix_epoch(t: SystemTime) -> Option<Duration> {
    match t.duration_since(SystemTime::UNIX_EPOCH) {
        Ok(d) => Some(d),
        Err(_) => None,
    }
}

/// `Duration::as_millis`: the whole milliseconds of `d`. Nothing is
/// stated: the duration is opaque here.
#[verifier::external_body]
fn duration_millis(d: Duration) -> u128 {
    d.as_millis()
}

/// Milliseconds as a `u64`, keeping the low 64 bits.
pub fn millis_to_u64(millis: u128) -> (r: u64)
    ensures
        r == millis % 0x1_0000_0000_0000_0000,
{
    let r = millis as u64;
    assert(millis as u64 == millis % 0x1_0000_0000_0000_0000) by (bit_vector);
    r
}

/// The milliseconds since the Unix epoch, truncated to 64 bits, or `None`
/// when the system clock reads a time before the epoch.
pub fn now() -> Option<u64> {
    match since_unix_epoch(system_time_now()) {
        Some(d) => Some(millis_to_u64(duration_millis(d))),
        None => None,
    }
}

} // verus!
