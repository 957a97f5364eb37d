use vstd::prelude::*;
use chrono::{DateTime, FixedOffset, Local, TimeDelta, TimeZone};
use std::fmt::Write;
use std::time::{Duration, SystemTime, UNIX_EPOCH};

verus! {

/// A point in time: whole seconds since 1970-01-01T00:00:00Z and the nanoseconds
/// past that second. A nanosecond count of a billion or more marks a leap second.
#[derive(Clone, Copy, Debug, PartialEq, Eq, Structural)]
pub struct Instant {
    pub secs: i64,
    pub nanos: u32,
}

/// The first second that a date in `chrono` can hold: -262143-01-01T00:00:00Z.
pub const MIN_TIMESTAMP: i64 = -8_334_601_228_800i64;

/// The last second that a date in `chrono` can hold: 262142-12-31T23:59:59Z.
pub const MAX_TIMESTAMP: i64 = 8_210_266_876_799i64;

/// The largest number of whole seconds that a `chrono::TimeDelta` can hold.
pub const MAX_DELTA_SECS: i64 = 9_223_372_036_854_775i64;

/// `t` is a point in time that `chrono` can represent.
pub open spec fn instant_in_range(t: Instant) -> bool {
    &&& MIN_TIMESTAMP <= t.secs <= MAX_TIMESTAMP
    &&& t.nanos < 1_000_000_000 || (t.nanos < 2_000_000_000 && t.secs % 60 == 59)
}

/// Whether `chrono` can represent the point in time `t`.
pub fn is_in_range(t: Instant) -> (r: bool)
    ensures
        r == instant_in_range(t),
{
    if !(MIN_TIMESTAMP <= t.secs && t.secs <= MAX_TIMESTAMP) {
        return false;
    }
    if t.nanos < 1_000_000_000 {
        return true;
    }
    // The second within its minute, counted from the minute's start also before 1970.
    let shifted: i64 = t.secs - MIN_TIMESTAMP;
    assert(shifted % 60 == t.secs % 60) by {
        assert(MIN_TIMESTAMP % 60 == 0);
    }
    t.nanos < 2_000_000_000 && shifted % 60 == 59
}

/// `t` is a point in time that `chrono` can represent and not within a leap second.
pub open spec fn plain_instant(t: Instant) -> bool {
    &&& MIN_TIMESTAMP <= t.secs <= MAX_TIMESTAMP
    &&& t.nanos < 1_000_000_000
}

/// `a` lies strictly before `b`.
pub open spec fn before(a: Instant, b: Instant) -> bool {
    a.secs < b.secs || (a.secs == b.secs && a.nanos < b.nanos)
}

/// Whether `a` lies strictly before `b`.
pub fn is_before(a: Instant, b: Instant) -> (r: bool)
    ensures
        r == before(a, b),
{
    a.secs < b.secs || (a.secs == b.secs && a.nanos < b.nanos)
}

/// The point in time `hours` hours before `at`, if `chrono` can subtract that
/// many hours at all.
pub open spec fn hours_before_spec(at: Instant, hours: int) -> Option<Instant> {
    if hours * 3600 > MAX_DELTA_SECS || at.secs - hours * 3600 < MIN_TIMESTAMP {
        None
    } else {
        Some(Instant { secs: (at.secs - hours * 3600) as i64, nanos: at.nanos })
    }
}

/// A reading of the system clock (`std::time::SystemTime`).
#[verifier::external_type_specification]
#[verifier::external_body]
pub struct ExSystemTime(SystemTime);

/// Calls `SystemTime::now`, which reads the system clock. What it reads is not stated.
#[verifier::external_body]
fn system_time_now() -> SystemTime {
    SystemTime::now()
}

/// Calls `SystemTime::duration_since` with `UNIX_EPOCH`, which gives how long after the
/// Unix epoch `t` lies, and an error (here `None`) when `t` lies before it. Which
/// duration it is, is not stated.
#[verifier::external_body]
fn duration_since_unix_epoch(t: &SystemTime) -> Option<Duration> {
    t.duration_since(UNIX_EPOCH).ok()
}

/// Calls `Duration::as_secs`, the number of whole seconds in `d`. Which number it is,
/// is not stated.
#[verifier::external_body]
fn duration_whole_secs(d: &Duration) -> u64 {
    d.as_secs()
}

/// Calls `Duration::subsec_nanos`, the nanoseconds of `d` past its whole seconds, which
/// the documentation says are always less than a billion.
#[verifier::external_body]
fn duration_subsec_nanos(d: &Duration) -> (r: u32)
    ensures
        r < 1_000_000_000,
{
    d.subsec_nanos()
}

/// The current time, as the system clock reads it. `None` when the clock reads a time
/// before the Unix epoch or after the last second that `chrono` can hold. Which time it
/// is, is up to the clock.
pub fn current_time() -> (r: Option<Instant>)
    ensures
        r matches Some(t) ==> plain_instant(t) && t.secs >= 0,
{
    let now = system_time_now();
    let since_epoch = match duration_since_unix_epoch(&now) {
        Some(d) => d,
        None => {
            return None;
        },
    };
    let secs = duration_whole_secs(&since_epoch);
    let nanos = duration_subsec_nanos(&since_epoch);
    if secs > MAX_TIMESTAMP as u64 {
        return None;
    }
    Some(Instant { secs: secs as i64, nanos })
}

/// Subtracts `TimeDelta::try_hours(hours)` from the `chrono` date at `at`
/// (`DateTime::checked_sub_signed`). `chrono` refuses when the delta exceeds its
/// largest `TimeDelta` or the result precedes its earliest date; otherwise the
/// seconds go down by `3600 * hours` and the nanoseconds stay.
#[verifier::external_body]
pub(crate) fn hours_before(at: Instant, hours: i64) -> (r: Option<Instant>)
    requires
        plain_instant(at),
        hours >= 0,
    ensures
        r == hours_before_spec(at, hours as int),
{
    let delta = TimeDelta::try_hours(hours)?;
    let r = DateTime::from_timestamp(at.secs, at.nanos).unwrap().checked_sub_signed(delta)?;
    Some(Instant { secs: r.timestamp(), nanos: r.timestamp_subsec_nanos() })
}

/// Midnight at the start of the local day in which `now` lies: `chrono`'s
/// `DateTime::from_timestamp` and `with_timezone(&Local)`, its `date_naive`,
/// `and_hms_opt(0, 0, 0)`, and the latest local time that maps to it
/// (`Local.from_local_datetime(..).latest()`). `None` when the local time zone has no
/// such midnight. `now` lies at least a day inside `chrono`'s range, so that its local
/// date and that date's midnight exist (`date_naive` panics on a local time past the
/// last date). Which day and offset the time zone gives is not stated.
#[verifier::external_body]
pub(crate) fn local_start_of_day(now: Instant) -> (r: Option<Instant>)
    requires
        plain_instant(now),
        MIN_TIMESTAMP + 86_400 <= now.secs <= MAX_TIMESTAMP - 86_400,
    ensures
        r matches Some(t) ==> plain_instant(t),
{
    let local = DateTime::from_timestamp(now.secs, now.nanos)?.with_timezone(&Local);
    let midnight = local.date_naive().and_hms_opt(0, 0, 0)?;
    let start = Local.from_local_datetime(&midnight).latest()?;
    Some(Instant { secs: start.timestamp(), nanos: start.timestamp_subsec_nanos() })
}

/// The local time zone's offset from UTC at the instant `at`, in seconds
/// (`Local.offset_from_utc_datetime` and `FixedOffset::local_minus_utc`). A
/// `FixedOffset` always lies strictly between -86 400 and 86 400 seconds. Which offset
/// the time zone gives is not stated.
#[verifier::external_body]
pub(crate) fn local_offset_at(at: Instant) -> (r: i32)
    requires
        instant_in_range(at),
    ensures
        -86_400 < r < 86_400,
{
    let utc = DateTime::from_timestamp(at.secs, at.nanos).unwrap().naive_utc();
    Local.offset_from_utc_datetime(&utc).local_minus_utc()
}

/// What `chrono` writes for the instant `secs`/`nanos` at the UTC offset `offset` (in
/// seconds) with the format string `format`; `None` when formatting reports an error.
pub uninterp spec fn chrono_format(secs: i64, nanos: u32, offset: i32, format: Seq<char>) -> Option<Seq<char>>;

/// `chrono` formats with `format`: whether it does depends on the format string alone
/// (it fails on a malformed conversion specification), so any instant and offset
/// decides it.
pub open spec fn chrono_format_accepted(format: Seq<char>) -> bool {
    chrono_format(0, 0, 0, format) is Some
}

/// The view of an optional string.
pub open spec fn text_of(r: Option<String>) -> Option<Seq<char>> {
    match r {
        Some(s) => Some(s@),
        None => None,
    }
}

/// Formats the instant `at`, shifted by the UTC offset `offset` (seconds), with the
/// `chrono` format string `format` (`FixedOffset::east_opt`, `with_timezone` and
/// `DateTime::format`, written out by `write!`). The result is named `chrono_format`.
/// `chrono` parses the format string into items before it looks at the time, and fails
/// only on an item that is an error, which depends on the format string alone; a format
/// string without `%` becomes literal text and spaces, which it writes out unchanged.
#[verifier::external_body]
pub(crate) fn format_at_offset(at: Instant, offset: i32, format: &str) -> (r: Option<String>)
    requires
        instant_in_range(at),
        -86_400 < offset < 86_400,
    ensures
        text_of(r) == chrono_format(at.secs, at.nanos, offset, format@),
        r is Some <==> chrono_format_accepted(format@),
        !format@.contains('%') ==> text_of(r) == Some(format@),
{
    let fixed = FixedOffset::east_opt(offset).unwrap();
    let time = DateTime::from_timestamp(at.secs, at.nanos).unwrap().with_timezone(&fixed);
    let mut text = String::new();
    match write!(text, "{}", time.format(format)) {
        Ok(()) => Some(text),
        Err(_) => None,
    }
}

/// One day after `t`.
pub open spec fn one_day_after(t: Instant) -> Instant {
    Instant { secs: (t.secs + 86_400) as i64, nanos: t.nanos }
}

/// `t` plus one day (`t + TimeDelta::days(1)`).
pub fn add_one_day(t: Instant) -> (r: Instant)
    requires
        t.secs + 86_400 <= MAX_TIMESTAMP,
    ensures
        r == one_day_after(t),
{
    Instant { secs: t.secs + 86_400, nanos: t.nanos }
}

} // verus!
