//! Calendar instants as the scheduler sees them.
//!
//! A `DateTime` is a naive (zone-less) date and time, held as whole seconds
//! since 1970-01-01 00:00:00 plus the nanoseconds inside that second. As in
//! `chrono`, a leap second is a nanosecond count of one billion or more on the
//! 59th second of a minute. Calendar work (parsing, formatting, adding a
//! month) is done by `chrono` through the trusted functions at the end of
//! this file.

use vstd::prelude::*;

verus! {

/// Seconds in one day.
pub const SECS_PER_DAY: i64 = 86400;

/// Nanoseconds in one second.
pub const NANOS_PER_SEC: u32 = 1_000_000_000;

/// First second that `chrono` can represent (year -262143, January 1st).
pub const MIN_TIMESTAMP: i64 = -8334601228800;

/// Last second that `chrono` can represent (year 262142, December 31st).
pub const MAX_TIMESTAMP: i64 = 8210266876799;

/// A naive date and time: seconds since the epoch and the nanoseconds within it.
#[derive(Clone, Copy, Debug, PartialEq, Eq, Structural)]
pub struct DateTime {
    pub secs: i64,
    pub nanos: u32,
}

/// Whether `t` is a date and time that `chrono` can represent.
pub open spec fn valid_datetime(t: DateTime) -> bool {
    &&& MIN_TIMESTAMP <= t.secs <= MAX_TIMESTAMP
    &&& t.nanos < 2 * NANOS_PER_SEC
    &&& t.nanos >= NANOS_PER_SEC ==> t.secs % 60 == 59
}

/// Chronological order: `a` comes strictly after `b`.
pub open spec fn is_after(a: DateTime, b: DateTime) -> bool {
    a.secs > b.secs || (a.secs == b.secs && a.nanos > b.nanos)
}

/// `t` moved forward by a positive number of whole days. Moving forward leaves
/// a leap second, so the nanoseconds drop below one billion.
pub open spec fn plus_days(t: DateTime, days: int) -> DateTime {
    DateTime {
        secs: (t.secs + days * SECS_PER_DAY) as i64,
        nanos: if t.nanos >= NANOS_PER_SEC {
            (t.nanos - NANOS_PER_SEC) as u32
        } else {
            t.nanos
        },
    }
}

impl DateTime {
    /// Builds a date and time from a timestamp and the nanoseconds within that
    /// second; `None` where `chrono` could not represent it.
    pub fn from_timestamp(secs: i64, nanos: u32) -> (res: Option<DateTime>)
        ensures
            res is Some <==> valid_datetime(DateTime { secs, nanos }),
            res matches Some(t) ==> t == (DateTime { secs, nanos }),
    {
        if secs < MIN_TIMESTAMP || secs > MAX_TIMESTAMP || nanos >= 2 * NANOS_PER_SEC {
            return None;
        }
        let offset = (secs - MIN_TIMESTAMP) as u64;
        let second_of_minute = offset % 60;
        proof {
            vstd::arithmetic::div_mod::lemma_mod_multiples_vanish(
                138910020480int,
                secs as int,
                60int,
            );
            assert(60 * 138910020480int + secs == secs - MIN_TIMESTAMP);
        }
        if nanos >= NANOS_PER_SEC && second_of_minute != 59 {
            return None;
        }
        Some(DateTime { secs, nanos })
    }

    /// Whether `self` comes strictly after `other`.
    pub fn later_than(&self, other: &DateTime) -> (res: bool)
        ensures
            res == is_after(*self, *other),
    {
        self.secs > other.secs || (self.secs == other.secs && self.nanos > other.nanos)
    }
}

/// The result of `chrono::NaiveDateTime::parse_from_str(text, "%Y-%m-%d %H:%M:%S")`,
/// as the timestamp and nanoseconds of the parsed value.
pub uninterp spec fn chrono_parse_datetime(text: Seq<char>) -> Option<(i64, u32)>;

/// The text that `chrono` writes for a date and time with the format
/// `"%Y-%m-%d %H:%M:%S"`.
pub uninterp spec fn chrono_format_datetime(secs: i64, nanos: u32) -> Seq<char>;

/// The result of `chrono::NaiveDateTime::checked_add_months(.., Months::new(1))`.
pub uninterp spec fn chrono_add_one_month(secs: i64, nanos: u32) -> Option<(i64, u32)>;

/// Parses `text` in the format `YYYY-MM-DD HH:MM:SS` with
/// `chrono::NaiveDateTime::parse_from_str`.
///
/// Trusted: the result is the one `chrono` gives, and a parsed value is one
/// that `chrono` can represent (its type admits no other). The format holds
/// no fraction of a second, so `chrono`'s parser leaves the nanoseconds at
/// zero, or at one billion where the second reads 60 (a leap second).
#[verifier::external_body]
pub(crate) fn parse_datetime(text: &str) -> (res: Option<DateTime>)
    ensures
        res is Some <==> chrono_parse_datetime(text@) is Some,
        res matches Some(t) ==> (t.secs, t.nanos) == chrono_parse_datetime(text@)->0,
        res matches Some(t) ==> valid_datetime(t),
        res matches Some(t) ==> t.nanos == 0 || t.nanos == NANOS_PER_SEC,
{
    match chrono::NaiveDateTime::parse_from_str(text, "%Y-%m-%d %H:%M:%S") {
        Ok(n) => Some(DateTime {
            secs: n.and_utc().timestamp(),
            nanos: n.and_utc().timestamp_subsec_nanos(),
        }),
        Err(_) => None,
    }
}

/// Writes `t` in the format `YYYY-MM-DD HH:MM:SS` with `chrono`'s
/// `NaiveDateTime::format`.
///
/// Trusted: the text is the one `chrono` writes for `t`. For a time on a whole
/// second (or a leap second), the text parses back to `t` with the same
/// format: `chrono` writes the year with at least four digits and a sign
/// outside 0 to 9999, which its parser reads back, and writes a leap second
/// as second 60, which its parser reads as one.
#[verifier::external_body]
pub(crate) fn format_datetime(t: DateTime) -> (res: String)
    requires
        valid_datetime(t),
    ensures
        res@ == chrono_format_datetime(t.secs, t.nanos),
        t.nanos == 0 || t.nanos == NANOS_PER_SEC ==> chrono_parse_datetime(res@) == Some(
            (t.secs, t.nanos),
        ),
{
    let n = chrono::DateTime::from_timestamp(t.secs, t.nanos).unwrap().naive_utc();
    n.format("%Y-%m-%d %H:%M:%S").to_string()
}

/// Adds whole days with `NaiveDateTime + chrono::Duration::days(days)`.
///
/// Trusted: `chrono` adds `days * 86400` seconds and, when `t` is a leap
/// second, leaves the leap second (its `overflowing_add_signed` drops the
/// extra billion nanoseconds before adding). The addition panics past the
/// last representable date, which `requires` rules out.
#[verifier::external_body]
pub(crate) fn add_days(t: DateTime, days: i64) -> (res: DateTime)
    requires
        valid_datetime(t),
        1 <= days <= 31,
        t.secs + days * SECS_PER_DAY <= MAX_TIMESTAMP,
    ensures
        res == plus_days(t, days as int),
        valid_datetime(res),
{
    let n = chrono::DateTime::from_timestamp(t.secs, t.nanos).unwrap().naive_utc();
    let r = (n + chrono::Duration::days(days)).and_utc();
    DateTime { secs: r.timestamp(), nanos: r.timestamp_subsec_nanos() }
}

/// Moves `t` one calendar month forward with
/// `NaiveDateTime::checked_add_months(chrono::Months::new(1))`.
///
/// Trusted: the result is the one `chrono` gives. Its source moves the date to
/// the same day of the next month (the last day of that month where the day
/// does not exist) and keeps the time of day, so a result lies 28 to 31 whole
/// days later with the same nanoseconds; it is `None` only when that date is
/// past the last representable one.
#[verifier::external_body]
pub(crate) fn add_one_month(t: DateTime) -> (res: Option<DateTime>)
    requires
        valid_datetime(t),
    ensures
        res is Some <==> chrono_add_one_month(t.secs, t.nanos) is Some,
        res matches Some(r) ==> (r.secs, r.nanos) == chrono_add_one_month(t.secs, t.nanos)->0,
        res matches Some(r) ==> {
            &&& valid_datetime(r)
            &&& r.nanos == t.nanos
            &&& 28 * SECS_PER_DAY <= r.secs - t.secs <= 31 * SECS_PER_DAY
            &&& (r.secs - t.secs) % (SECS_PER_DAY as int) == 0
        },
        t.secs + 31 * SECS_PER_DAY <= MAX_TIMESTAMP ==> res is Some,
{
    let n = chrono::DateTime::from_timestamp(t.secs, t.nanos).unwrap().naive_utc();
    match n.checked_add_months(chrono::Months::new(1)) {
        Some(m) => Some(DateTime {
            secs: m.and_utc().timestamp(),
            nanos: m.and_utc().timestamp_subsec_nanos(),
        }),
        None => None,
    }
}

} // verus!
