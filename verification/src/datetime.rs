//! Points in time, and the dates that callers write.
//!
//! A `Timestamp` counts seconds and nanoseconds since 1970-01-01T00:00:00Z.
//! Reading a text as a date or as a point in time is left to the `chrono`
//! crate, and so is asking for the current time; the order of timestamps,
//! the midnight of a date and the distance in days are decided here.

use chrono::Datelike;
use vstd::prelude::*;
use vstd::string::*;

verus! {

/// The day count, from January 1 of year 1 as day 1, of 1970-01-01.
pub const UNIX_EPOCH_DAY: i64 = 719_163;

/// Seconds in a day.
pub const SECONDS_PER_DAY: i64 = 86_400;

/// A point in time: whole seconds since the Unix epoch, and the nanoseconds
/// past that second. Values are ordered by `secs`, then by `nanos`.
#[derive(Clone, Copy, Debug, PartialEq, Eq, Structural)]
pub struct Timestamp {
    pub secs: i64,
    pub nanos: u32,
}

/// What `chrono` reads from a text as a point in time (RFC 3339, with a
/// space allowed for the `T`), or nothing where the text is none.
pub uninterp spec fn timestamp_from_text(text: Seq<char>) -> Option<Timestamp>;

/// The day count of the date that `chrono` reads from a text under a format,
/// or nothing where the text does not fit the format or names no date.
pub uninterp spec fn date_from_text(text: Seq<char>, format: Seq<char>) -> Option<i32>;

/// Trusted: `str::parse::<chrono::DateTime<chrono::Utc>>`, with the result
/// taken apart by `timestamp()` and `timestamp_subsec_nanos()`. The result is
/// a function of the text alone and is only named.
#[verifier::external_body]
pub(crate) fn parse_timestamp(text: &str) -> (r: Option<Timestamp>)
    ensures
        r == timestamp_from_text(text@),
{
    match text.parse::<chrono::DateTime<chrono::Utc>>() {
        Ok(t) => Some(Timestamp { secs: t.timestamp(), nanos: t.timestamp_subsec_nanos() }),
        Err(_) => None,
    }
}

/// Trusted: `chrono::NaiveDate::parse_from_str`, with the date given as its
/// `num_days_from_ce()`. The result is a function of text and format alone
/// and is only named.
#[verifier::external_body]
pub(crate) fn parse_date(text: &str, format: &str) -> (r: Option<i32>)
    ensures
        r == date_from_text(text@, format@),
{
    match chrono::NaiveDate::parse_from_str(text, format) {
        Ok(d) => Some(d.num_days_from_ce()),
        Err(_) => None,
    }
}

/// Trusted: `chrono::Utc::now`. Nothing is claimed of the result: two calls
/// differ. `chrono` gives up on a machine whose clock stands before 1970.
#[verifier::external_body]
pub(crate) fn current_time() -> (r: Timestamp) {
    let t = chrono::Utc::now();
    Timestamp { secs: t.timestamp(), nanos: t.timestamp_subsec_nanos() }
}

/// `a / b` rounded towards zero, for a positive `b`.
pub open spec fn div_towards_zero(a: int, b: int) -> int {
    if a >= 0 {
        a / b
    } else {
        -((-a) / b)
    }
}

/// The first instant of a day given by its day count.
pub open spec fn midnight(days: int) -> Timestamp {
    Timestamp { secs: ((days - UNIX_EPOCH_DAY) * SECONDS_PER_DAY) as i64, nanos: 0 }
}

/// The date that a text names, trying the date formats in their fixed order:
/// year-month-day with hyphens, the same followed by a time of day, with
/// slashes, then day/month/year and month/day/year.
pub open spec fn first_date(text: Seq<char>) -> Option<i32> {
    if date_from_text(text, "%Y-%m-%d"@) is Some {
        date_from_text(text, "%Y-%m-%d"@)
    } else if date_from_text(text, "%Y-%m-%d %H:%M:%S"@) is Some {
        date_from_text(text, "%Y-%m-%d %H:%M:%S"@)
    } else if date_from_text(text, "%Y/%m/%d"@) is Some {
        date_from_text(text, "%Y/%m/%d"@)
    } else if date_from_text(text, "%d/%m/%Y"@) is Some {
        date_from_text(text, "%d/%m/%Y"@)
    } else {
        date_from_text(text, "%m/%d/%Y"@)
    }
}

/// What a flexible date text means: the point in time it names in full, else
/// the midnight of the date it names, else nothing.
pub open spec fn flexible_date(text: Seq<char>) -> Option<Timestamp> {
    match timestamp_from_text(text) {
        Some(t) => Some(t),
        None => match first_date(text) {
            Some(days) => Some(midnight(days as int)),
            None => None,
        },
    }
}

impl Timestamp {
    /// `self` comes strictly before `other`.
    pub open spec fn before(self, other: Timestamp) -> bool {
        self.secs < other.secs || (self.secs == other.secs && self.nanos < other.nanos)
    }

    /// `self` comes before `other` or is the same instant.
    pub open spec fn not_after(self, other: Timestamp) -> bool {
        self.before(other) || self == other
    }

    /// Whether `self` comes strictly before `other`.
    pub fn is_before(&self, other: &Timestamp) -> (r: bool)
        ensures
            r == self.before(*other),
    {
        self.secs < other.secs || (self.secs == other.secs && self.nanos < other.nanos)
    }

    /// Whether `self` comes before `other` or is the same instant.
    pub fn is_not_after(&self, other: &Timestamp) -> (r: bool)
        ensures
            r == self.not_after(*other),
    {
        self.secs < other.secs || (self.secs == other.secs && self.nanos <= other.nanos)
    }

    /// The first instant of the day with the given day count.
    pub fn at_midnight(days: i32) -> (t: Timestamp)
        ensures
            t == midnight(days as int),
            t.secs == (days - UNIX_EPOCH_DAY) * SECONDS_PER_DAY,
    {
        let d: i64 = days as i64;
        Timestamp { secs: (d - UNIX_EPOCH_DAY) * SECONDS_PER_DAY, nanos: 0 }
    }
}

/// Whether `date` lies in the past of `now`.
pub fn is_expired_at(date: &Timestamp, now: &Timestamp) -> (r: bool)
    ensures
        r == date.before(*now),
{
    date.is_before(now)
}

/// Whole days from `now` until `date`, rounded towards zero; negative once
/// `date` has passed by a day or more. Only the seconds count.
pub fn days_between(date: &Timestamp, now: &Timestamp) -> (r: i64)
    ensures
        r == div_towards_zero(date.secs - now.secs, SECONDS_PER_DAY as int),
{
    let d: i128 = date.secs as i128 - now.secs as i128;
    let q: i128 = d / 86_400;
    q as i64
}

/// Whether `date` lies in the past of the current time. The clock decides:
/// the answer is that of [`is_expired_at`] for the instant that was read.
pub fn is_expired(date: &Timestamp) -> (r: bool)
    ensures
        exists|now: Timestamp| r == date.before(now),
{
    let now = current_time();
    is_expired_at(date, &now)
}

/// Whole days from the current time until `date`, negative once it has
/// passed. The clock decides: the answer is that of [`days_between`] for the
/// instant that was read.
pub fn days_until_expiration(date: &Timestamp) -> (r: i64)
    ensures
        exists|now: Timestamp|
            r == div_towards_zero(date.secs - now.secs, SECONDS_PER_DAY as int),
{
    let now = current_time();
    days_between(date, &now)
}

/// The outcome of reading a flexible date, given what `chrono` made of the
/// text as a point in time and as a date.
pub fn flexible_date_from(full: Option<Timestamp>, date: Option<i32>) -> (r: Result<
    Timestamp,
    String,
>)
    ensures
        match (full, date) {
            (Some(t), _) => r == Ok::<Timestamp, String>(t),
            (None, Some(days)) => r == Ok::<Timestamp, String>(midnight(days as int)),
            (None, None) => r is Err && r->Err_0@
                == "Unable to parse date. Use ISO 8601 format (YYYY-MM-DDTHH:MM:SSZ) or YYYY-MM-DD"@,
        },
{
    match full {
        Some(t) => Ok(t),
        None => match date {
            Some(days) => Ok(Timestamp::at_midnight(days)),
            None => Err(
                "Unable to parse date. Use ISO 8601 format (YYYY-MM-DDTHH:MM:SSZ) or YYYY-MM-DD".to_owned(),
            ),
        },
    }
}

/// The date named by a text under the first date format that fits.
pub fn parse_first_date(text: &str) -> (r: Option<i32>)
    ensures
        r == first_date(text@),
{
    let a = parse_date(text, "%Y-%m-%d");
    if a.is_some() {
        return a;
    }
    let b = parse_date(text, "%Y-%m-%d %H:%M:%S");
    if b.is_some() {
        return b;
    }
    let c = parse_date(text, "%Y/%m/%d");
    if c.is_some() {
        return c;
    }
    let d = parse_date(text, "%d/%m/%Y");
    if d.is_some() {
        return d;
    }
    parse_date(text, "%m/%d/%Y")
}

/// Reads a date in one of several forms: a full point in time, or a bare
/// date, which then means its midnight in UTC.
pub fn parse_flexible_date(date_str: &str) -> (r: Result<Timestamp, String>)
    ensures
        match flexible_date(date_str@) {
            Some(t) => r == Ok::<Timestamp, String>(t),
            None => r is Err && r->Err_0@
                == "Unable to parse date. Use ISO 8601 format (YYYY-MM-DDTHH:MM:SSZ) or YYYY-MM-DD"@,
        },
{
    let full = parse_timestamp(date_str);
    if full.is_some() {
        return flexible_date_from(full, None);
    }
    let date = parse_first_date(date_str);
    flexible_date_from(full, date)
}

} // verus!
