use vstd::prelude::*;

use chrono::Datelike;

use crate::error::WeatherError;

verus! {

/// The earliest year that the date library represents.
pub const MIN_YEAR: i32 = -262143;

/// The latest year that the date library represents.
pub const MAX_YEAR: i32 = 262142;

/// A day of the proleptic Gregorian calendar.
#[derive(Debug, Clone, Copy, PartialEq, Eq, Structural)]
pub struct CalendarDate {
    pub year: i32,
    pub month: u32,
    pub day: u32,
}

pub open spec fn is_leap_year(y: int) -> bool {
    y % 4 == 0 && (y % 100 != 0 || y % 400 == 0)
}

pub open spec fn days_in_month(y: int, m: int) -> int {
    if m == 2 {
        if is_leap_year(y) { 29 } else { 28 }
    } else if m == 4 || m == 6 || m == 9 || m == 11 {
        30
    } else {
        31
    }
}

/// Days of the years before `y`, counting from the first of January of year 1.
pub open spec fn days_before_year(y: int) -> int {
    365 * (y - 1) + (y - 1) / 4 - (y - 1) / 100 + (y - 1) / 400
}

/// Days of the months before `m` in year `y`.
pub open spec fn days_before_month(y: int, m: int) -> int {
    let common: int = if m <= 1 { 0 }
        else if m == 2 { 31 }
        else if m == 3 { 59 }
        else if m == 4 { 90 }
        else if m == 5 { 120 }
        else if m == 6 { 151 }
        else if m == 7 { 181 }
        else if m == 8 { 212 }
        else if m == 9 { 243 }
        else if m == 10 { 273 }
        else if m == 11 { 304 }
        else { 334 };
    if m > 2 && is_leap_year(y) { common + 1 } else { common }
}

/// The position of a date in the calendar: the first of January of year 1 is day 1,
/// and consecutive dates have consecutive numbers.
pub open spec fn day_number(d: CalendarDate) -> int {
    days_before_year(d.year as int) + days_before_month(d.year as int, d.month as int) + d.day
}

impl CalendarDate {
    /// The date names a real day within the years that the date library represents.
    pub open spec fn wf(&self) -> bool {
        &&& MIN_YEAR <= self.year <= MAX_YEAR
        &&& 1 <= self.month <= 12
        &&& 1 <= self.day <= days_in_month(self.year as int, self.month as int)
    }

    /// The date with the given year, month and day, if there is such a day.
    pub fn new(year: i32, month: u32, day: u32) -> (r: Option<CalendarDate>)
        ensures
            r matches Some(d) ==> d == (CalendarDate { year, month, day }),
            r is Some <==> (CalendarDate { year, month, day }).wf(),
    {
        if year < MIN_YEAR || year > MAX_YEAR || month < 1 || month > 12 || day < 1 {
            return None;
        }
        let leap = year % 4 == 0 && (year % 100 != 0 || year % 400 == 0);
        let last: u32 = if month == 2 {
            if leap { 29 } else { 28 }
        } else if month == 4 || month == 6 || month == 9 || month == 11 {
            30
        } else {
            31
        };
        if day > last {
            None
        } else {
            Some(CalendarDate { year, month, day })
        }
    }
}

/// Day numbers of representable dates stay far inside the range of `u32` differences.
proof fn lemma_day_number_bounds(d: CalendarDate)
    requires
        d.wf(),
    ensures
        -100_000_000 <= day_number(d) <= 100_000_000,
{
    let p = d.year as int - 1;
    assert(-65536 <= p / 4 <= 65536) by (nonlinear_arith)
        requires -262144 <= p <= 262141;
    assert(-2622 <= p / 100 <= 2622) by (nonlinear_arith)
        requires -262144 <= p <= 262141;
    assert(-656 <= p / 400 <= 656) by (nonlinear_arith)
        requires -262144 <= p <= 262141;
}

/// What the date library reads from text in the form `%Y-%m-%d`.
pub uninterp spec fn ymd_parse(s: Seq<char>) -> Option<CalendarDate>;

/// Relies on chrono's `NaiveDate::parse_from_str` with the format `%Y-%m-%d`: its outcome
/// depends on the text alone, and a date it returns is a real day in chrono's range.
#[verifier::external_body]
fn parse_ymd(s: &str) -> (r: Option<CalendarDate>)
    ensures
        r == ymd_parse(s@),
        r matches Some(d) ==> d.wf(),
{
    match chrono::NaiveDate::parse_from_str(s, "%Y-%m-%d") {
        Ok(d) => Some(CalendarDate { year: d.year(), month: d.month(), day: d.day() }),
        Err(_) => None,
    }
}

/// Relies on chrono's `Local::now` and `DateTime::date_naive`: today's date in the local
/// time zone, a real day in chrono's range.
#[verifier::external_body]
fn local_today() -> (r: CalendarDate)
    ensures
        r.wf(),
{
    let d = chrono::Local::now().date_naive();
    CalendarDate { year: d.year(), month: d.month(), day: d.day() }
}

/// Relies on chrono's `NaiveDate::signed_duration_since` and `TimeDelta::num_days`: the
/// signed number of days from `from` to `to`.
#[verifier::external_body]
fn days_between(from: CalendarDate, to: CalendarDate) -> (r: i64)
    requires
        from.wf(),
        to.wf(),
    ensures
        r == day_number(to) - day_number(from),
{
    let f = chrono::NaiveDate::from_ymd_opt(from.year, from.month, from.day).unwrap();
    let t = chrono::NaiveDate::from_ymd_opt(to.year, to.month, to.day).unwrap();
    t.signed_duration_since(f).num_days()
}

/// The day offset of a parsed date as seen from `today`.
pub open spec fn offset_from(parsed: Option<CalendarDate>, today: CalendarDate) -> Result<u32, WeatherError> {
    match parsed {
        None => Err(WeatherError::InvalidDateFormat),
        Some(d) => if day_number(d) < day_number(today) {
            Err(WeatherError::DateInPast)
        } else {
            Ok((day_number(d) - day_number(today)) as u32)
        },
    }
}

/// The number of days from `today` to the date written in `date_str` as `YYYY-MM-DD`.
pub fn days_until(date_str: &str, today: CalendarDate) -> (r: Result<u32, WeatherError>)
    requires
        today.wf(),
    ensures
        r == offset_from(ymd_parse(date_str@), today),
{
    match parse_ymd(date_str) {
        None => Err(WeatherError::InvalidDateFormat),
        Some(target) => {
            proof {
                lemma_day_number_bounds(target);
                lemma_day_number_bounds(today);
            }
            let diff = days_between(today, target);
            if diff < 0 {
                Err(WeatherError::DateInPast)
            } else {
                Ok(diff as u32)
            }
        },
    }
}

/// The number of days from the local calendar date to the date written in `date_str`.
pub fn days_from_today(date_str: &str) -> (r: Result<u32, WeatherError>)
    ensures
        exists|today: CalendarDate| today.wf() && r == #[trigger] offset_from(ymd_parse(date_str@), today),
{
    let today = local_today();
    days_until(date_str, today)
}

/// A date that is today or later lies as many days ahead as its day numbers differ, and
/// today itself lies zero days ahead.
pub proof fn lemma_offset_counts_days(s: Seq<char>, d: CalendarDate, today: CalendarDate)
    requires
        ymd_parse(s) == Some(d),
        d.wf(),
        today.wf(),
        day_number(d) >= day_number(today),
    ensures
        offset_from(ymd_parse(s), today) == Ok::<u32, WeatherError>((day_number(d) - day_number(today)) as u32),
        (day_number(d) - day_number(today)) as u32 == day_number(d) - day_number(today),
        d == today ==> offset_from(ymd_parse(s), today) == Ok::<u32, WeatherError>(0),
{
    lemma_day_number_bounds(d);
    lemma_day_number_bounds(today);
}

/// A date before today is refused as lying in the past.
pub proof fn lemma_past_dates_refused(s: Seq<char>, d: CalendarDate, today: CalendarDate)
    requires
        ymd_parse(s) == Some(d),
        day_number(d) < day_number(today),
    ensures
        offset_from(ymd_parse(s), today) == Err::<u32, WeatherError>(WeatherError::DateInPast),
{
}

/// Text that does not read as a date is refused as malformed, whatever today is.
pub proof fn lemma_malformed_dates_refused(s: Seq<char>, today: CalendarDate)
    requires
        ymd_parse(s) is None,
    ensures
        offset_from(ymd_parse(s), today) == Err::<u32, WeatherError>(WeatherError::InvalidDateFormat),
{
}

} // verus!
