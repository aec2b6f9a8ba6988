//! Readings of the system clocks. Nothing is promised of a reading.

use std::time::{Duration, Instant, SystemTime};
use vstd::prelude::*;

verus! {

#[verifier::external_type_specification]
#[verifier::external_body]
pub struct ExInstant(Instant);

#[verifier::external_type_specification]
#[verifier::external_body]
pub struct ExSystemTime(SystemTime);

/// Calls `std::time::Instant::now`.
#[verifier::external_body]
pub(crate) fn instant_now() -> Instant {
    Instant::now()
}

/// Calls `Instant::elapsed`: the time since `start`.
#[verifier::external_body]
fn instant_elapsed(start: &Instant) -> Duration {
    start.elapsed()
}

/// Calls `Duration::as_millis`.
#[verifier::external_body]
fn duration_millis(d: &Duration) -> u128 {
    d.as_millis()
}

/// Calls `Duration::as_secs`.
#[verifier::external_body]
fn duration_secs(d: &Duration) -> u64 {
    d.as_secs()
}

/// Calls `Duration::as_nanos`.
#[verifier::external_body]
fn duration_nanos(d: &Duration) -> u128 {
    d.as_nanos()
}

/// Calls `std::time::SystemTime::now`.
#[verifier::external_body]
fn system_now() -> SystemTime {
    SystemTime::now()
}

/// Calls `SystemTime::duration_since` with `UNIX_EPOCH`; its error (a
/// reading before the epoch) becomes `None`.
#[verifier::external_body]
fn since_unix_epoch(t: &SystemTime) -> Option<Duration> {
    t.duration_since(std::time::UNIX_EPOCH).ok()
}

/// Whole milliseconds since `start`, cut to 64 bits.
pub(crate) fn elapsed_millis(start: &Instant) -> u64 {
    let d = instant_elapsed(start);
    let ms = duration_millis(&d);
    ms as u64
}

/// Whole seconds since the Unix epoch; 0 when the clock reads before it.
pub(crate) fn unix_now_secs() -> u64 {
    let now = system_now();
    match since_unix_epoch(&now) {
        Some(d) => duration_secs(&d),
        None => 0,
    }
}

/// Nanoseconds since the Unix epoch; 0 when the clock reads before it.
pub(crate) fn unix_now_nanos() -> u128 {
    let now = system_now();
    match since_unix_epoch(&now) {
        Some(d) => duration_nanos(&d),
        None => 0,
    }
}

/// Calls `Duration::subsec_nanos`, which std documents as less than one second.
#[verifier::external_body]
fn duration_subsec_nanos(d: &Duration) -> (r: u32)
    ensures
        r < 1_000_000_000,
{
    d.subsec_nanos()
}

/// What `DateTime::<Utc>::from_timestamp(secs, nanos)` followed by
/// `to_rfc3339` gives.
pub uninterp spec fn rfc3339_of_timestamp(secs: i64, nanos: u32) -> Option<Seq<char>>;

/// Calls chrono's `DateTime::<Utc>::from_timestamp` and formats the instant
/// with `to_rfc3339`. `from_timestamp` answers `None` only for a day count
/// outside `i32` or a date beyond chrono's range (years up to 262 142), or an
/// invalid time of day; any second count from 0 to 10^11 (about year 5138)
/// with fewer than 10^9 nanoseconds is a valid instant. Formatting a valid
/// instant does not fail.
#[verifier::external_body]
fn rfc3339_at(secs: i64, nanos: u32) -> (r: Option<String>)
    ensures
        r.deep_view() == rfc3339_of_timestamp(secs, nanos),
        0 <= secs < 100_000_000_000 && nanos < 1_000_000_000 ==> r is Some,
{
    chrono::DateTime::from_timestamp(secs, nanos).map(|t| t.to_rfc3339())
}

/// The current time as RFC 3339 text in UTC: the reading of the system clock
/// (the epoch when the clock reads before it), empty past about year 5138.
pub(crate) fn now_rfc3339() -> (r: String)
    ensures
        r@.len() == 0 || exists|secs: i64, nanos: u32|
            0 <= secs && nanos < 1_000_000_000 && rfc3339_of_timestamp(secs, nanos) == Some(r@),
{
    let now = system_now();
    let (secs, nanos): (u64, u32) = match since_unix_epoch(&now) {
        Some(d) => (duration_secs(&d), duration_subsec_nanos(&d)),
        None => (0, 0),
    };
    if secs >= 100_000_000_000 {
        return String::new();
    }
    match rfc3339_at(secs as i64, nanos) {
        Some(t) => t,
        None => String::new(),
    }
}

} // verus!
