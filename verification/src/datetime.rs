//! Calendar dates and times, and their conversion to seconds since the epoch.
//!
//! Parsing and the conversion to a timestamp are done by `chrono`; this module
//! states what those calls give back in terms of the proleptic Gregorian calendar.
use vstd::prelude::*;
#[allow(unused_imports)]
use chrono::{Datelike, Timelike};
use chrono::format::ParseError;

verus! {

/// The earliest year a date can carry.
pub const MIN_YEAR: i32 = -262143i32;

/// The latest year a date can carry.
pub const MAX_YEAR: i32 = 262142i32;

/// Seconds in a day.
pub const SECONDS_PER_DAY: i64 = 86400i64;

/// Whether `year` is a leap year of the proleptic Gregorian calendar.
pub open spec fn is_leap_year(year: int) -> bool {
    year % 4 == 0 && (year % 100 != 0 || year % 400 == 0)
}

/// Number of days in a year.
pub open spec fn days_in_year(year: int) -> int {
    if is_leap_year(year) { 366 } else { 365 }
}

/// Number of days in a month (1 to 12) of a year.
pub open spec fn days_in_month(year: int, month: int) -> int {
    if month == 2 {
        if is_leap_year(year) { 29 } else { 28 }
    } else if month == 4 || month == 6 || month == 9 || month == 11 {
        30
    } else {
        31
    }
}

/// Distance of `year` from 1970, the measure of the recursion below.
pub open spec fn years_from_epoch(year: int) -> nat {
    if year >= 1970 { (year - 1970) as nat } else { (1970 - year) as nat }
}

/// Days from 1970-01-01 to January 1st of `year` (negative before 1970).
pub open spec fn days_before_year(year: int) -> int
    decreases years_from_epoch(year),
{
    if year == 1970 {
        0
    } else if year > 1970 {
        days_before_year(year - 1) + days_in_year(year - 1)
    } else {
        days_before_year(year + 1) - days_in_year(year)
    }
}

/// Days from January 1st of `year` to the first day of `month` in that year.
pub open spec fn days_before_month(year: int, month: int) -> int
    decreases month,
{
    if month <= 1 {
        0
    } else {
        days_before_month(year, month - 1) + days_in_month(year, month - 1)
    }
}

/// Days from 1970-01-01 to the given calendar date.
pub open spec fn days_from_epoch(year: int, month: int, day: int) -> int {
    days_before_year(year) + days_before_month(year, month) + day - 1
}

/// A date and a time of day without a time zone, as `chrono::NaiveDateTime` holds it.
///
/// A leap second is written as second 59 with a nanosecond count of one second or more.
#[derive(Clone, Copy, Debug, PartialEq, Eq)]
pub struct DateTime {
    pub year: i32,
    pub month: u32,
    pub day: u32,
    pub hour: u32,
    pub minute: u32,
    pub second: u32,
    pub nanosecond: u32,
}

impl DateTime {
    /// The fields name an existing instant of the calendar.
    pub open spec fn is_valid(self) -> bool {
        &&& MIN_YEAR <= self.year <= MAX_YEAR
        &&& 1 <= self.month <= 12
        &&& 1 <= self.day <= days_in_month(self.year as int, self.month as int)
        &&& self.hour < 24
        &&& self.minute < 60
        &&& self.second < 60
        &&& self.nanosecond < 2_000_000_000
        &&& self.nanosecond >= 1_000_000_000 ==> self.second == 59
    }

    /// Seconds since midnight, leaving out a leap second.
    pub open spec fn seconds_of_day(self) -> int {
        self.hour * 3600 + self.minute * 60 + self.second
    }

    /// Days from 1970-01-01 to this date.
    pub open spec fn days_from_epoch(self) -> int {
        days_from_epoch(self.year as int, self.month as int, self.day as int)
    }

    /// The number of non-leap seconds from 1970-01-01 00:00:00 to this date and time.
    pub open spec fn epoch_seconds(self) -> int {
        self.days_from_epoch() * 86400 + self.seconds_of_day()
    }

    /// Whether this date and time comes strictly before `other`, field by field.
    pub open spec fn is_before(self, other: DateTime) -> bool {
        ||| self.year < other.year
        ||| self.year == other.year && self.month < other.month
        ||| self.year == other.year && self.month == other.month && self.day < other.day
        ||| self.year == other.year && self.month == other.month && self.day == other.day
            && self.seconds_of_day() < other.seconds_of_day()
    }
}

/// Trusted: `chrono::format::ParseError`, the error of chrono's parsers, carried
/// through as an opaque value.
#[verifier::external_type_specification]
#[verifier::external_body]
pub struct ExParseError(chrono::format::ParseError);

/// What `chrono::NaiveDateTime::parse_from_str` gives back for the text `s` read
/// with the format `fmt`: `None` where it returns an error.
pub uninterp spec fn naive_datetime_parse_from_str(s: Seq<char>, fmt: Seq<char>) -> Option<DateTime>;

/// The format of the dates that `date_to_unixts` reads: `YYYY-MM-DDTHH:MM`.
pub open spec fn date_format() -> Seq<char> {
    "%Y-%m-%dT%H:%M"@
}

/// Trusted: calls `chrono::NaiveDateTime::parse_from_str(s, fmt)` and hands back the
/// fields of the date and time it gives. The contract claims that the result is a
/// function of `s` and `fmt` alone, and that a parsed value is a valid date and time
/// (chrono's `NaiveDateTime` cannot hold any other). Which `ParseError` comes back on
/// failure is not stated.
#[verifier::external_body]
fn naive_parse_from_str(s: &str, fmt: &str) -> (res: Result<DateTime, ParseError>)
    ensures
        match res {
            Ok(dt) => naive_datetime_parse_from_str(s@, fmt@) == Some(dt) && dt.is_valid(),
            Err(_) => naive_datetime_parse_from_str(s@, fmt@) is None,
        },
{
    match chrono::NaiveDateTime::parse_from_str(s, fmt) {
        Ok(dt) => Ok(DateTime {
            year: dt.year(),
            month: dt.month(),
            day: dt.day(),
            hour: dt.hour(),
            minute: dt.minute(),
            second: dt.second(),
            nanosecond: dt.nanosecond(),
        }),
        Err(e) => Err(e),
    }
}

/// Trusted: builds the `chrono::NaiveDateTime` with these fields and calls its
/// `timestamp`, documented as the number of non-leap seconds since midnight on
/// January 1, 1970. The contract states that number over the Gregorian calendar.
#[verifier::external_body]
#[allow(deprecated)]
fn naive_timestamp(dt: &DateTime) -> (t: i64)
    requires
        dt.is_valid(),
    ensures
        t == dt.epoch_seconds(),
{
    let date = chrono::NaiveDate::from_ymd_opt(dt.year, dt.month, dt.day).expect("a valid date");
    let naive = date.and_hms_nano_opt(dt.hour, dt.minute, dt.second, dt.nanosecond).expect(
        "a valid time",
    );
    naive.timestamp()
}

/// Number of days in a month (1 to 12) of a year.
pub fn month_length(year: i32, month: u32) -> (n: u32)
    requires
        1 <= month <= 12,
    ensures
        n == days_in_month(year as int, month as int),
{
    if month == 2 {
        if year % 4 == 0 && (year % 100 != 0 || year % 400 == 0) {
            29
        } else {
            28
        }
    } else if month == 4 || month == 6 || month == 9 || month == 11 {
        30
    } else {
        31
    }
}

impl DateTime {
    /// The date and time with these fields and no fraction of a second, where
    /// they name an existing instant of the calendar.
    pub fn from_parts(year: i32, month: u32, day: u32, hour: u32, minute: u32, second: u32) -> (res:
        Option<DateTime>)
        ensures
            res is Some <==> (DateTime {
                year,
                month,
                day,
                hour,
                minute,
                second,
                nanosecond: 0,
            }).is_valid(),
            res matches Some(dt) ==> dt == (DateTime {
                year,
                month,
                day,
                hour,
                minute,
                second,
                nanosecond: 0,
            }),
    {
        if year < MIN_YEAR || year > MAX_YEAR || month < 1 || month > 12 {
            return None;
        }
        if day < 1 || day > month_length(year, month) || hour >= 24 || minute >= 60 || second >= 60 {
            return None;
        }
        Some(DateTime { year, month, day, hour, minute, second, nanosecond: 0 })
    }

    /// Seconds since 1970-01-01 00:00:00, leap seconds left out.
    pub fn timestamp(&self) -> (t: i64)
        requires
            self.is_valid(),
        ensures
            t == self.epoch_seconds(),
    {
        naive_timestamp(self)
    }
}

/// Reads `date` written as `YYYY-MM-DDTHH:MM` and gives the number of seconds from
/// 1970-01-01 00:00 to it; the error of the parser where the text does not read.
pub fn date_to_unixts(date: String) -> (res: Result<i64, ParseError>)
    ensures
        res is Ok <==> naive_datetime_parse_from_str(date@, date_format()) is Some,
        res matches Ok(t) ==> t == naive_datetime_parse_from_str(
            date@,
            date_format(),
        ).unwrap().epoch_seconds(),
        res matches Ok(t) ==> {
            let dt = naive_datetime_parse_from_str(date@, date_format()).unwrap();
            &&& dt.is_valid()
            &&& t / 86400 == dt.days_from_epoch()
            &&& t % 86400 == dt.seconds_of_day()
        },
{
    let parsed = naive_parse_from_str(date.as_str(), "%Y-%m-%dT%H:%M");
    match parsed {
        Ok(dt) => {
            proof {
                lemma_epoch_seconds_keeps_time_of_day(dt);
            }
            Ok(dt.timestamp())
        },
        Err(e) => Err(e),
    }
}

/// Each year adds its own length to the count of days before it.
pub proof fn lemma_days_before_next_year(year: int)
    ensures
        days_before_year(year + 1) == days_before_year(year) + days_in_year(year),
{
}

/// The days before a later year cover the whole of an earlier year.
pub proof fn lemma_days_before_year_grows(earlier: int, later: int)
    requires
        earlier < later,
    ensures
        days_before_year(earlier) + days_in_year(earlier) <= days_before_year(later),
    decreases later - earlier,
{
    lemma_days_before_next_year(earlier);
    if later > earlier + 1 {
        lemma_days_before_year_grows(earlier + 1, later);
    }
}

/// The days before a month grow with the month.
pub proof fn lemma_days_before_month_grows(year: int, earlier: int, later: int)
    requires
        1 <= earlier <= later,
    ensures
        days_before_month(year, earlier) + (later - earlier) <= days_before_month(year, later),
    decreases later - earlier,
{
    if later > earlier {
        lemma_days_before_month_grows(year, earlier, later - 1);
    }
}

/// A valid day of a year lies within that year.
pub proof fn lemma_day_of_year_bounds(year: int, month: int, day: int)
    requires
        1 <= month <= 12,
        1 <= day <= days_in_month(year, month),
    ensures
        0 <= days_before_month(year, month) + day - 1 < days_in_year(year),
{
    reveal_with_fuel(days_before_month, 13);
    lemma_days_before_month_grows(year, 1, month);
    lemma_days_before_month_grows(year, month + 1, 13);
    assert(days_before_month(year, 13) == days_in_year(year));
}

/// Valid dates in calendar order are counted in the same order from the epoch.
pub proof fn lemma_days_from_epoch_preserves_order(a: DateTime, b: DateTime)
    requires
        a.is_valid(),
        b.is_valid(),
        a.year < b.year || (a.year == b.year && a.month < b.month) || (a.year == b.year
            && a.month == b.month && a.day < b.day),
    ensures
        a.days_from_epoch() < b.days_from_epoch(),
{
    lemma_day_of_year_bounds(a.year as int, a.month as int, a.day as int);
    lemma_day_of_year_bounds(b.year as int, b.month as int, b.day as int);
    if a.year < b.year {
        lemma_days_before_year_grows(a.year as int, b.year as int);
    } else if a.month < b.month {
        lemma_days_before_month_grows(a.year as int, a.month as int + 1, b.month as int);
    }
}

/// Timestamps keep the order of the dates and times they count: a valid date and
/// time that comes before another has the smaller number of seconds since the epoch.
pub proof fn lemma_epoch_seconds_preserves_order(a: DateTime, b: DateTime)
    requires
        a.is_valid(),
        b.is_valid(),
        a.is_before(b),
    ensures
        a.epoch_seconds() < b.epoch_seconds(),
{
    if a.year == b.year && a.month == b.month && a.day == b.day {
    } else {
        lemma_days_from_epoch_preserves_order(a, b);
    }
}

/// The lengths of the months, as the Gregorian calendar lists them: thirty days
/// have April, June, September and November; February has 28, or 29 in a leap
/// year; all the others have 31.
pub proof fn lemma_month_lengths(year: int, month: int)
    requires
        1 <= month <= 12,
    ensures
        days_in_month(year, month) == seq![
            31int,
            if is_leap_year(year) { 29int } else { 28int },
            31,
            30,
            31,
            30,
            31,
            31,
            30,
            31,
            30,
            31,
        ][month - 1],
        (days_in_month(year, month) == 30) <==> (month == 4 || month == 6 || month == 9 || month
            == 11),
        (days_in_month(year, month) == 31) <==> (month == 1 || month == 3 || month == 5 || month
            == 7 || month == 8 || month == 10 || month == 12),
{
}

/// Days from January 1st to the first day of each month: 0, 31, 59, 90, 120, 151,
/// 181, 212, 243, 273, 304 and 334, one more from March on in a leap year.
pub proof fn lemma_days_before_month_table(year: int, month: int)
    requires
        1 <= month <= 12,
    ensures
        days_before_month(year, month) == seq![
            0int,
            31,
            59,
            90,
            120,
            151,
            181,
            212,
            243,
            273,
            304,
            334,
        ][month - 1] + if month > 2 && is_leap_year(year) { 1int } else { 0int },
{
    reveal_with_fuel(days_before_month, 12);
}

/// Leap days from year 1 up to and including `year`, counted by the rules of the
/// Gregorian calendar: every fourth year, but not every hundredth, yet every
/// four-hundredth.
pub open spec fn leap_days_through(year: int) -> int {
    year / 4 - year / 100 + year / 400
}

/// One more leap day is counted through a year exactly when that year is a leap year.
proof fn lemma_leap_days_step(year: int)
    ensures
        leap_days_through(year) - leap_days_through(year - 1) == if is_leap_year(year) {
            1int
        } else {
            0int
        },
{
    assert(year / 4 - (year - 1) / 4 == if year % 4 == 0 { 1int } else { 0int });
    assert(year / 100 - (year - 1) / 100 == if year % 100 == 0 { 1int } else { 0int });
    assert(year / 400 - (year - 1) / 400 == if year % 400 == 0 { 1int } else { 0int });
}

/// The days before a year: 365 for every year since 1970, plus one for every leap
/// day in between (477 leap days fall through 1969); negative before 1970.
pub proof fn lemma_days_before_year_closed_form(year: int)
    ensures
        days_before_year(year) == 365 * (year - 1970) + leap_days_through(year - 1) - 477,
    decreases years_from_epoch(year),
{
    if year > 1970 {
        lemma_days_before_year_closed_form(year - 1);
        lemma_leap_days_step(year - 1);
    } else if year < 1970 {
        lemma_days_before_year_closed_form(year + 1);
        lemma_leap_days_step(year);
    }
}

/// The timestamp of a valid date and time counts whole days since 1970-01-01 and
/// keeps the time of day: divided by 86400 it gives the day, and what remains is
/// the seconds since midnight.
pub proof fn lemma_epoch_seconds_keeps_time_of_day(dt: DateTime)
    requires
        dt.is_valid(),
    ensures
        dt.epoch_seconds() / 86400 == dt.days_from_epoch(),
        dt.epoch_seconds() % 86400 == dt.seconds_of_day(),
        dt.epoch_seconds() == 86400 * (365 * (dt.year - 1970) + leap_days_through(dt.year - 1)
            - 477 + seq![0int, 31, 59, 90, 120, 151, 181, 212, 243, 273, 304, 334][dt.month - 1]
            + (if dt.month > 2 && is_leap_year(dt.year as int) { 1int } else { 0int }) + dt.day - 1)
            + 3600 * dt.hour + 60 * dt.minute + dt.second,
{
    lemma_days_before_year_closed_form(dt.year as int);
    lemma_days_before_month_table(dt.year as int, dt.month as int);
    vstd::arithmetic::div_mod::lemma_fundamental_div_mod_converse(
        dt.epoch_seconds(),
        86400,
        dt.days_from_epoch(),
        dt.seconds_of_day(),
    );
}

} // verus!
