//! Days and clock times. A day is its number in the proleptic Gregorian
//! calendar, 1 January of the year 1 being day 1; a clock time is a day and the
//! nanoseconds gone of it.

use chrono::{Datelike, Timelike};
use vstd::prelude::*;
use crate::fixed::{abs, nat_text, pad_text};

verus! {

/// The first day that has a date.
pub const MIN_DAY: i32 = -95_746_129;

/// The last day that has a date.
pub const MAX_DAY: i32 = 95_745_399;

/// The first year.
pub const MIN_YEAR: i32 = -262_143;

/// The last year.
pub const MAX_YEAR: i32 = 262_142;

/// Nanoseconds to a second.
pub const SECOND: u64 = 1_000_000_000;

/// Nanoseconds to a day.
pub const DAY: u64 = 86_400_000_000_000;

/// Whether `day` has a date.
pub open spec fn is_day(day: int) -> bool {
    MIN_DAY <= day <= MAX_DAY
}

pub open spec fn is_leap(year: int) -> bool {
    year % 4 == 0 && (year % 100 != 0 || year % 400 == 0)
}

/// The days of a year before the first of `month`.
pub open spec fn days_before_month(year: int, month: int) -> int {
    let long = if month > 2 && is_leap(year) {
        1int
    } else {
        0
    };
    long + if month <= 1 {
        0
    } else if month == 2 {
        31
    } else if month == 3 {
        59
    } else if month == 4 {
        90
    } else if month == 5 {
        120
    } else if month == 6 {
        151
    } else if month == 7 {
        181
    } else if month == 8 {
        212
    } else if month == 9 {
        243
    } else if month == 10 {
        273
    } else if month == 11 {
        304
    } else if month == 12 {
        334
    } else {
        365int
    }
}

/// How many days a month has.
pub open spec fn days_in_month(year: int, month: int) -> int {
    days_before_month(year, month + 1) - days_before_month(year, month)
}

/// The number of the day with the given date.
#[verifier::opaque]
pub open spec fn civil_day(year: int, month: int, day: int) -> int {
    let past = year - 1;
    365 * past + past / 4 - past / 100 + past / 400 + days_before_month(year, month) + day
}

/// Whether there is such a date.
pub open spec fn is_date(year: int, month: int, day: int) -> bool {
    MIN_YEAR <= year <= MAX_YEAR && 1 <= month <= 12 && 1 <= day <= days_in_month(year, month)
}

/// Whether `day` falls in `year`.
pub open spec fn in_year(year: int, day: int) -> bool {
    civil_day(year, 1, 1) <= day < civil_day(year + 1, 1, 1)
}

/// The year in which `day` falls.
pub open spec fn year_of(day: int) -> int {
    choose|y: int| in_year(y, day)
}

/// The day of the week, Sunday being 0.
pub open spec fn weekday(day: int) -> int {
    day % 7
}

/// The day that the text `s` denotes in the notation `YYYYMMDD`.
pub uninterp spec fn day_of_code(s: Seq<char>) -> Option<int>;

/// The second of the day that the text `s` denotes in the notation `HH:MM`.
pub uninterp spec fn second_of_clock(s: Seq<char>) -> Option<int>;

/// The day, second and nanosecond of the instant, in UTC, that the text `s`
/// denotes in the notation of RFC 3339.
pub uninterp spec fn instant_of_text(s: Seq<char>) -> Option<(int, int, int)>;

/// `chrono::NaiveDate::parse_from_str` with the format `%Y%m%d`: the number of
/// the day it reads, or `None` where it reads no date.
#[verifier::external_body]
fn read_code(text: &str) -> (r: Option<i32>)
    ensures
        r is Some <==> day_of_code(text@) is Some,
        r is Some ==> r->0 == day_of_code(text@)->0,
{
    chrono::NaiveDate::parse_from_str(text, "%Y%m%d").ok().map(|d| d.num_days_from_ce())
}

/// The year, month and day of the month of `day`.
pub open spec fn date_of(day: int) -> (int, int, int) {
    choose|d: (int, int, int)| is_date(d.0, d.1, d.2) && civil_day(d.0, d.1, d.2) == day
}

/// A year in four digits, and a sign in front where it needs more or is negative.
pub open spec fn year_text(year: int) -> Seq<char> {
    let size = abs(year) as nat;
    let digits = if size < 10_000 {
        pad_text(size, 4)
    } else {
        nat_text(size)
    };
    if year < 0 {
        "-"@ + digits
    } else if year >= 10_000 {
        "+"@ + digits
    } else {
        digits
    }
}

/// `day` in the notation `YYYYMMDD`.
pub open spec fn code_text(day: int) -> Seq<char> {
    let (y, m, d) = date_of(day);
    year_text(y) + pad_text(m as nat, 2) + pad_text(d as nat, 2)
}

/// The month of `day` in the notation `YYYYMM`.
pub open spec fn month_text(day: int) -> Seq<char> {
    let (y, m, _) = date_of(day);
    year_text(y) + pad_text(m as nat, 2)
}

/// What stands for a day in the notation `YYYY-MM-DD`: nothing where it has no
/// date.
pub open spec fn dashed_text(day: int) -> Seq<char> {
    if is_day(day) {
        let (y, m, d) = date_of(day);
        year_text(y) + "-"@ + pad_text(m as nat, 2) + "-"@ + pad_text(d as nat, 2)
    } else {
        ""@
    }
}

/// `chrono::NaiveDate::format`, on the date that
/// `chrono::NaiveDate::from_num_days_from_ce_opt` gives for the day, in one of
/// the three formats that the library uses: four digits of the year (with a sign
/// outside the years 0 to 9999), two of the month, two of the day, and what stands
/// between them. `None` exactly where the day has no date.
#[verifier::external_body]
fn write_date(day: i32, format: &str) -> (r: Option<String>)
    requires
        format@ == "%Y%m%d"@ || format@ == "%Y-%m-%d"@ || format@ == "%Y%m"@,
    ensures
        r is Some <==> is_day(day as int),
        r is Some && format@ == "%Y%m%d"@ ==> (r->0)@ == code_text(day as int),
        r is Some && format@ == "%Y-%m-%d"@ ==> (r->0)@ == dashed_text(day as int),
        r is Some && format@ == "%Y%m"@ ==> (r->0)@ == month_text(day as int),
{
    chrono::NaiveDate::from_num_days_from_ce_opt(day).map(|d| d.format(format).to_string())
}

/// `chrono::NaiveTime::parse_from_str` with the format `%H:%M`: the second of the
/// day at which the minute begins, or `None` where it reads no time.
#[verifier::external_body]
fn read_clock(text: &str) -> (r: Option<u32>)
    ensures
        r is Some <==> second_of_clock(text@) is Some,
        r is Some ==> r->0 == second_of_clock(text@)->0,
{
    chrono::NaiveTime::parse_from_str(text, "%H:%M").ok().map(|t| t.num_seconds_from_midnight())
}

/// `chrono::DateTime::parse_from_rfc3339`, taken to UTC: the number of the day,
/// the second of the day, and the nanosecond of the second. Within a leap second
/// the nanosecond is a billion or more, but below two billion.
#[verifier::external_body]
fn read_instant(text: &str) -> (r: Option<(i32, u32, u32)>)
    ensures
        r is Some <==> instant_of_text(text@) is Some,
        r is Some ==> (r->0).0 == (instant_of_text(text@)->0).0,
        r is Some ==> (r->0).1 == (instant_of_text(text@)->0).1,
        r is Some ==> (r->0).2 == (instant_of_text(text@)->0).2,
        r is Some ==> is_day((r->0).0 as int),
        r is Some ==> (r->0).1 < 86_400 && (r->0).2 < 2_000_000_000,
{
    let utc = chrono::DateTime::parse_from_rfc3339(text).ok()?.naive_utc();
    Some((utc.num_days_from_ce(), utc.num_seconds_from_midnight(), utc.nanosecond()))
}

/// `chrono::NaiveDate::from_ymd_opt`: the number of the day with the given date,
/// or `None` where there is no such date.
#[verifier::external_body]
fn from_civil(year: i32, month: u32, day: u32) -> (r: Option<i32>)
    ensures
        r is Some <==> is_date(year as int, month as int, day as int),
        r is Some ==> r->0 == civil_day(year as int, month as int, day as int),
{
    chrono::NaiveDate::from_ymd_opt(year, month, day).map(|d| d.num_days_from_ce())
}

/// `year` of a `chrono::NaiveDate`: the year in which the day falls, or `None`
/// where the day has no date.
#[verifier::external_body]
fn read_year(day: i32) -> (r: Option<i32>)
    ensures
        r is Some <==> is_day(day as int),
        r is Some ==> in_year(r->0 as int, day as int),
        r is Some ==> MIN_YEAR <= r->0 <= MAX_YEAR,
{
    chrono::NaiveDate::from_num_days_from_ce_opt(day).map(|d| d.year())
}

/// `weekday` of a `chrono::NaiveDate`, counted from Sunday, or `None` where the
/// day has no date.
#[verifier::external_body]
fn read_weekday(day: i32) -> (r: Option<u32>)
    ensures
        r is Some <==> is_day(day as int),
        r is Some ==> r->0 == weekday(day as int),
{
    chrono::NaiveDate::from_num_days_from_ce_opt(day).map(|d| d.weekday().num_days_from_sunday())
}

/// An optional day, as a number.
pub open spec fn opt_day(d: Option<i32>) -> Option<int> {
    match d {
        Some(x) => Some(x as int),
        None => None,
    }
}

/// Reads an expiry in the notation `YYYYMMDD`.
pub fn parse_expiry(s: &str) -> (r: Option<i32>)
    ensures
        opt_day(r) == day_of_code(s@),
{
    read_code(s)
}

/// Writes a day in the notation `YYYYMMDD`.
pub fn expiry_code(day: i32) -> (r: Option<String>)
    ensures
        r is Some <==> is_day(day as int),
        r is Some ==> (r->0)@ == code_text(day as int),
{
    write_date(day, "%Y%m%d")
}

/// Writes the month of a day in the notation `YYYYMM`.
pub fn month_code(day: i32) -> (r: Option<String>)
    ensures
        r is Some <==> is_day(day as int),
        r is Some ==> (r->0)@ == month_text(day as int),
{
    write_date(day, "%Y%m")
}

/// Writes a day in the notation `YYYY-MM-DD`.
pub fn dashed_date(day: i32) -> (r: String)
    ensures
        r@ == dashed_text(day as int),
{
    match write_date(day, "%Y-%m-%d") {
        Some(t) => t,
        None => "".to_owned(),
    }
}

/// Reads a time of day in the notation `HH:MM` as a second of the day.
pub fn parse_clock(s: &str) -> (r: Option<u32>)
    ensures
        r is Some <==> second_of_clock(s@) is Some,
        r is Some ==> r->0 == second_of_clock(s@)->0,
{
    read_clock(s)
}

/// The number of the day with a given date, where there is such a date.
pub fn day_of(year: i32, month: u32, day: u32) -> (r: Option<i32>)
    ensures
        r is Some <==> is_date(year as int, month as int, day as int),
        r is Some ==> r->0 == civil_day(year as int, month as int, day as int),
{
    from_civil(year, month, day)
}

proof fn lemma_year_steps(a: int, b: int)
    requires
        a < b,
    ensures
        civil_day(a + 1, 1, 1) <= civil_day(b, 1, 1),
{
    reveal(civil_day);
}

pub proof fn lemma_year_unique(y: int, day: int)
    requires
        in_year(y, day),
    ensures
        year_of(day) == y,
{
    let z = year_of(day);
    assert(in_year(z, day));
    if y < z {
        lemma_year_steps(y, z);
    } else if z < y {
        lemma_year_steps(z, y);
    }
}

proof fn lemma_date_in_year(y: int, m: int, d: int)
    requires
        is_date(y, m, d),
    ensures
        in_year(y, civil_day(y, m, d)),
{
    reveal(civil_day);
    assert(days_before_month(y, m) + d <= 365 + (if is_leap(y) {
        1int
    } else {
        0
    }));
}

/// A date is the date of its day: no two dates have one day.
pub proof fn law_date_of_day(y: int, m: int, d: int)
    requires
        is_date(y, m, d),
    ensures
        date_of(civil_day(y, m, d)) == (y, m, d),
{
    let day = civil_day(y, m, d);
    let t = (y, m, d);
    assert(is_date(t.0, t.1, t.2) && civil_day(t.0, t.1, t.2) == day);
    let (a, b, c) = date_of(day);
    assert(is_date(a, b, c) && civil_day(a, b, c) == day);
    lemma_date_in_year(y, m, d);
    lemma_date_in_year(a, b, c);
    lemma_year_unique(y, day);
    lemma_year_unique(a, day);
    reveal(civil_day);
    assert(a == y);
    assert(b == m);
}

/// The year in which a day falls.
pub fn day_year(day: i32) -> (r: i32)
    requires
        is_day(day as int),
    ensures
        r == year_of(day as int),
        in_year(r as int, day as int),
        MIN_YEAR <= r <= MAX_YEAR,
{
    match read_year(day) {
        Some(y) => {
            proof {
                lemma_year_unique(y as int, day as int);
            }
            y
        },
        None => 0,
    }
}

/// The day of the week, Sunday being 0.
pub fn day_of_week(day: i32) -> (r: u32)
    requires
        is_day(day as int),
    ensures
        r == weekday(day as int),
{
    match read_weekday(day) {
        Some(w) => w,
        None => 0,
    }
}

/// The `n`-th day of a month that falls on the given day of the week.
pub open spec fn is_nth_weekday(year: int, month: int, wday: int, n: int, day: int) -> bool {
    let first = civil_day(year, month, 1);
    weekday(day) == wday && first + 7 * (n - 1) <= day < first + 7 * n
}

/// Calendar days from `today` to `expiry`.
pub fn dte(today: i32, expiry: i32) -> (r: i64)
    ensures
        r == expiry - today,
{
    expiry as i64 - today as i64
}

/// A clock time: a day and the nanoseconds gone of it.
#[derive(Debug, Clone, Copy, PartialEq, Eq, Structural)]
pub struct ClockTime {
    pub day: i32,
    pub nanos: u64,
}

impl ClockTime {
    /// Whether the nanoseconds are those of one day.
    pub open spec fn wf(self) -> bool {
        self.nanos < DAY
    }

    /// Nanoseconds since the beginning of day 0.
    pub open spec fn instant(self) -> int {
        self.day * DAY + self.nanos
    }

    /// Nanoseconds from `earlier` to this time.
    pub fn since(&self, earlier: ClockTime) -> (r: i128)
        ensures
            r == self.instant() - earlier.instant(),
    {
        (self.day as i128 - earlier.day as i128) * 86_400_000_000_000 + (self.nanos as i128
            - earlier.nanos as i128)
    }
}

/// The clock time that an instant in the notation of RFC 3339 has in UTC.
pub open spec fn clock_of_text(s: Seq<char>) -> Option<ClockTime> {
    match instant_of_text(s) {
        Some((day, second, nano)) => Some(
            ClockTime { day: day as i32, nanos: (second * SECOND + nano) as u64 },
        ),
        None => None,
    }
}

/// Reads an instant in the notation of RFC 3339 as a clock time in UTC.
pub fn parse_instant(s: &str) -> (r: Option<ClockTime>)
    ensures
        r == clock_of_text(s@),
        r is Some ==> is_day((r->0).day as int),
        r is Some ==> (r->0).nanos < DAY + SECOND,
{
    match read_instant(s) {
        Some((day, second, nano)) => {
            Some(ClockTime { day, nanos: second as u64 * 1_000_000_000 + nano as u64 })
        },
        None => None,
    }
}

} // verus!
