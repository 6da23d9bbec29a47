//! Local wall-clock moments: the system clock read through `std`, turned into local time by `chrono`.

use vstd::prelude::*;
use chrono::{Datelike, Local, TimeZone, Timelike};

verus! {

/// Largest distance from the Unix epoch, in seconds, of any moment that
/// `chrono` can represent (about 262,000 years).
pub const MAX_ABS_SECS: i64 = 8_400_000_000_000;

/// The earliest instant `chrono` represents: -262143-01-01 00:00:00 UTC, in
/// seconds since the Unix epoch.
pub const MIN_TIMESTAMP: i64 = -8_334_601_228_800;

/// The latest instant `chrono` represents: +262142-12-31 23:59:59 UTC, in
/// seconds since the Unix epoch.
pub const MAX_TIMESTAMP: i64 = 8_210_266_876_799;

/// A moment of local time: the instant (seconds and nanoseconds since the
/// Unix epoch) and its local calendar and clock fields.
#[derive(Clone, Copy, Debug, PartialEq, Eq)]
pub struct Moment {
    pub secs: i64,
    /// Nanoseconds past `secs`.
    pub nanos: u32,
    /// 1 ..= 12.
    pub month: u32,
    /// 1 ..= 31.
    pub day: u32,
    /// Monday = 0 .. Sunday = 6.
    pub weekday: u32,
    /// 0 ..= 23.
    pub hour: u32,
    /// 0 ..= 59.
    pub minute: u32,
}

impl Moment {
    /// Every field is in its range.
    pub open spec fn wf(self) -> bool {
        &&& -MAX_ABS_SECS <= self.secs <= MAX_ABS_SECS
        &&& self.nanos < 1_000_000_000
        &&& 1 <= self.month <= 12
        &&& 1 <= self.day <= 31
        &&& self.weekday < 7
        &&& self.hour < 24
        &&& self.minute < 60
    }

    /// Minutes since local midnight.
    pub open spec fn minute_of_day(self) -> int {
        self.hour * 60 + self.minute
    }

    /// The instant in nanoseconds since the Unix epoch.
    pub open spec fn instant(self) -> int {
        self.secs * 1_000_000_000 + self.nanos
    }
}

/// Reads the system clock with `std::time::SystemTime::now`, as seconds and
/// nanoseconds since the Unix epoch (`duration_since(UNIX_EPOCH)`). Trusted:
/// the sub-second part is below one second (`Duration::subsec_nanos`); `None`
/// when the clock reads before the epoch. Which reading comes back depends on
/// the clock, so nothing more is stated.
#[verifier::external_body]
pub fn unix_time_now() -> (r: Option<(u64, u32)>)
    ensures
        r matches Some((_, n)) ==> n < 1_000_000_000,
{
    match std::time::SystemTime::now().duration_since(std::time::UNIX_EPOCH) {
        Ok(d) => Some((d.as_secs(), d.subsec_nanos())),
        Err(_) => None,
    }
}

/// The current local time: the clock reading (`unix_time_now`) as a local
/// moment (`local_at`). `None` when the clock reads before the Unix epoch or
/// after the latest instant `chrono` represents; otherwise the moment of that
/// reading, with every field in range.
pub fn local_now() -> (r: Option<Moment>)
    ensures
        r matches Some(m) ==> m.wf() && 0 <= m.secs <= MAX_TIMESTAMP,
{
    match unix_time_now() {
        Some((secs, nanos)) => {
            if secs <= i64::MAX as u64 {
                local_at(secs as i64, nanos)
            } else {
                None
            }
        },
        None => None,
    }
}

/// The local moment of an instant, via `chrono::TimeZone::timestamp_opt` on
/// `Local`. Trusted: a result carries the given instant and fields in range,
/// and (the sub-second part being below one second) a result comes back
/// exactly for the instants `chrono` represents, `MIN_TIMESTAMP` to
/// `MAX_TIMESTAMP` (`DateTime::from_timestamp` returns `None` only outside its
/// date range). The local fields depend on the machine's time zone and are
/// not named.
#[verifier::external_body]
pub fn local_at(secs: i64, nanos: u32) -> (r: Option<Moment>)
    requires
        nanos < 1_000_000_000,
    ensures
        r matches Some(m) ==> m.wf() && m.secs == secs && m.nanos == nanos,
        r is Some <==> MIN_TIMESTAMP <= secs <= MAX_TIMESTAMP,
{
    Local.timestamp_opt(secs, nanos).single().map(|t| Moment {
        secs: t.timestamp(),
        nanos: t.timestamp_subsec_nanos(),
        month: t.month(),
        day: t.day(),
        weekday: t.weekday().num_days_from_monday(),
        hour: t.hour(),
        minute: t.minute(),
    })
}

} // verus!
