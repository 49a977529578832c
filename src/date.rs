//! Calendar dates as plain values, and the calls into chrono that read,
//! print and obtain them.

use vstd::prelude::*;
use chrono::Datelike;

verus! {

/// Smallest and largest year of a date that chrono can represent.
pub const MIN_YEAR: i32 = -262143;
pub const MAX_YEAR: i32 = 262142;

/// A proleptic Gregorian calendar date.
#[derive(Debug, Clone, Copy, PartialEq, Eq, Structural)]
pub struct CalendarDate {
    pub year: i32,
    pub month: u32,
    pub day: u32,
}

pub open spec fn is_leap_year(y: int) -> bool {
    (y % 4 == 0 && y % 100 != 0) || y % 400 == 0
}

pub open spec fn days_in_month(y: int, m: int) -> int {
    if m == 2 {
        if is_leap_year(y) { 29 } else { 28 }
    } else if m == 4 || m == 6 || m == 9 || m == 11 {
        30
    } else {
        31
    }
}

/// `(year, month, day)` of a date, as integers.
pub open spec fn ymd(d: CalendarDate) -> (int, int, int) {
    (d.year as int, d.month as int, d.day as int)
}

/// The date `a`, as `(year, month, day)`, comes strictly after `b`.
pub open spec fn ymd_after(a: (int, int, int), b: (int, int, int)) -> bool {
    ||| a.0 > b.0
    ||| a.0 == b.0 && a.1 > b.1
    ||| a.0 == b.0 && a.1 == b.1 && a.2 > b.2
}

impl CalendarDate {
    /// The date exists in the calendar and lies in chrono's range of years.
    pub open spec fn valid(self) -> bool {
        &&& MIN_YEAR <= self.year <= MAX_YEAR
        &&& 1 <= self.month <= 12
        &&& 1 <= self.day <= days_in_month(self.year as int, self.month as int)
    }

    /// This date comes strictly after `other`.
    pub open spec fn after(self, other: CalendarDate) -> bool {
        ymd_after(ymd(self), ymd(other))
    }

    /// Whether the date exists in the calendar and lies in chrono's range.
    pub fn is_valid(&self) -> (r: bool)
        ensures
            r == self.valid(),
    {
        if self.year < MIN_YEAR || self.year > MAX_YEAR || self.month < 1 || self.month > 12 {
            return false;
        }
        let y = self.year;
        let leap = (y % 4 == 0 && y % 100 != 0) || y % 400 == 0;
        let last: u32 = if self.month == 2 {
            if leap { 29 } else { 28 }
        } else if self.month == 4 || self.month == 6 || self.month == 9 || self.month == 11 {
            30
        } else {
            31
        };
        1 <= self.day && self.day <= last
    }

    /// Whether this date comes strictly after `other`.
    pub fn is_after(&self, other: &CalendarDate) -> (r: bool)
        ensures
            r == self.after(*other),
    {
        self.year > other.year || (self.year == other.year && self.month > other.month) || (
        self.year == other.year && self.month == other.month && self.day > other.day)
    }
}

/// The date that chrono reads from a text in the form `%Y-%m-%d`, as
/// `(year, month, day)`, or nothing where the text is not such a date.
pub uninterp spec fn iso_date_of(s: Seq<char>) -> Option<(int, int, int)>;

/// The text that chrono prints for a date (`2025-01-10`).
pub uninterp spec fn date_text_of(year: int, month: int, day: int) -> Seq<char>;

/// Relies on chrono's `NaiveDate::parse_from_str` with the format `%Y-%m-%d`:
/// a date that chrono returns exists in the calendar.
#[verifier::external_body]
pub(crate) fn parse_iso_date(s: &str) -> (r: Option<CalendarDate>)
    ensures
        r is Some <==> iso_date_of(s@) is Some,
        r matches Some(d) ==> d.valid() && ymd(d) == iso_date_of(s@)->0,
{
    chrono::NaiveDate::parse_from_str(s, "%Y-%m-%d").ok().map(
        |d| CalendarDate { year: d.year(), month: d.month(), day: d.day() },
    )
}

/// Relies on chrono's `NaiveDate::from_ymd_opt` and the `Display` of
/// `NaiveDate`: the text of a date.
#[verifier::external_body]
pub(crate) fn date_text(d: CalendarDate) -> (r: String)
    requires
        d.valid(),
    ensures
        r@ == date_text_of(d.year as int, d.month as int, d.day as int),
{
    chrono::NaiveDate::from_ymd_opt(d.year, d.month, d.day).unwrap().to_string()
}

/// Relies on chrono's `Utc::now` and `DateTime::date_naive`: the current
/// calendar date in UTC, which is a date of the calendar.
#[verifier::external_body]
pub(crate) fn today_utc() -> (r: CalendarDate)
    ensures
        r.valid(),
{
    let d = chrono::Utc::now().date_naive();
    CalendarDate { year: d.year(), month: d.month(), day: d.day() }
}

/// Relies on chrono's `Utc::now` and `DateTime::timestamp_micros`: the current
/// time as microseconds since the Unix epoch.
#[verifier::external_body]
pub(crate) fn now_micros() -> (r: i64) {
    chrono::Utc::now().timestamp_micros()
}

} // verus!
