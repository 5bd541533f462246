//! The proleptic Gregorian calendar: day numbers, ordinals, weekdays and ISO weeks.
use chrono::Datelike;
use vstd::prelude::*;

verus! {

/// The first year that an instant may fall in.
pub const MIN_YEAR: i32 = 1;

/// The last year that an instant may fall in.
pub const MAX_YEAR: i32 = 9999;

/// Whether `y` is a leap year of the Gregorian calendar.
pub open spec fn is_leap(y: int) -> bool {
    (y % 4 == 0 && y % 100 != 0) || y % 400 == 0
}

/// The number of days of year `y`.
pub open spec fn days_in_year(y: int) -> int {
    if is_leap(y) {
        366
    } else {
        365
    }
}

/// The number of days of month `m` (1 to 12) of year `y`.
pub open spec fn days_in_month(y: int, m: int) -> int {
    if m == 2 {
        if is_leap(y) {
            29
        } else {
            28
        }
    } else if m == 4 || m == 6 || m == 9 || m == 11 {
        30
    } else {
        31
    }
}

/// The number of days of year `y` that come before the first of month `m`.
pub open spec fn days_before_month(y: int, m: int) -> int
    decreases m,
{
    if m <= 1 {
        0
    } else {
        days_before_month(y, m - 1) + days_in_month(y, m - 1)
    }
}

/// Whether year, month and day name a day of the calendar, within the supported years.
pub open spec fn is_valid_date(y: int, m: int, d: int) -> bool {
    MIN_YEAR <= y <= MAX_YEAR && 1 <= m <= 12 && 1 <= d <= days_in_month(y, m)
}

/// The day of the year, January 1 being 1.
pub open spec fn ordinal(y: int, m: int, d: int) -> int {
    days_before_month(y, m) + d
}

/// The number of days from 1970-01-01 to the given day (negative before it).
pub open spec fn days_from_epoch(y: int, m: int, d: int) -> int {
    365 * (y - 1) + (y - 1) / 4 - (y - 1) / 100 + (y - 1) / 400 + ordinal(y, m, d) - 1 - 719162
}

/// The weekday of a day number, Monday being 0: 1970-01-01 was a Thursday.
pub open spec fn weekday_of_day(days: int) -> int {
    (days + 3) % 7
}

/// The weekday of a date, Monday being 0.
pub open spec fn weekday(y: int, m: int, d: int) -> int {
    weekday_of_day(days_from_epoch(y, m, d))
}

/// The ordinal, in year `y`, of the Thursday of the Monday-to-Sunday week of the date.
/// It falls outside `1..=days_in_year(y)` where that Thursday lies in another year.
pub open spec fn thursday_ordinal(y: int, m: int, d: int) -> int {
    ordinal(y, m, d) + 3 - weekday(y, m, d)
}

/// The ISO 8601 week-numbering year: the year of the Thursday of the date's week.
pub open spec fn iso_year(y: int, m: int, d: int) -> int {
    let t = thursday_ordinal(y, m, d);
    if t < 1 {
        y - 1
    } else if t > days_in_year(y) {
        y + 1
    } else {
        y
    }
}

/// The ISO 8601 week number: weeks counted from the one that holds the first
/// Thursday of the ISO year.
pub open spec fn iso_week(y: int, m: int, d: int) -> int {
    let t = thursday_ordinal(y, m, d);
    if t < 1 {
        (t + days_in_year(y - 1) - 1) / 7 + 1
    } else if t > days_in_year(y) {
        (t - days_in_year(y) - 1) / 7 + 1
    } else {
        (t - 1) / 7 + 1
    }
}

/// The week of the year with weeks starting on `first` (Monday being 0); the days
/// before the first such weekday of the year are in week 0.
pub open spec fn week_from(y: int, m: int, d: int, first: int) -> int {
    (ordinal(y, m, d) - (weekday(y, m, d) - first) % 7 + 6) / 7
}

/// Whether year `y` is a leap year.
pub fn leap_year(y: i32) -> (r: bool)
    ensures
        r == is_leap(y as int),
{
    (y % 4 == 0 && y % 100 != 0) || y % 400 == 0
}

/// The number of days of a month.
pub fn month_length(y: i32, m: u32) -> (r: u32)
    requires
        1 <= m <= 12,
    ensures
        r == days_in_month(y as int, m as int),
{
    if m == 2 {
        if leap_year(y) {
            29
        } else {
            28
        }
    } else if m == 4 || m == 6 || m == 9 || m == 11 {
        30
    } else {
        31
    }
}

/// The day of the year of a valid date, January 1 being 1.
///
/// Relies on chrono's `NaiveDate::from_ymd_opt`, which gives the date for a valid
/// year, month and day, and on `Datelike::ordinal` for its day of the year.
#[verifier::external_body]
fn chrono_ordinal(y: i32, m: u32, d: u32) -> (r: u32)
    requires
        is_valid_date(y as int, m as int, d as int),
    ensures
        r == ordinal(y as int, m as int, d as int),
{
    match chrono::NaiveDate::from_ymd_opt(y, m, d) {
        Some(date) => date.ordinal(),
        None => 0,
    }
}

/// The weekday of a valid date, Monday being 0.
///
/// Relies on chrono's `NaiveDate::from_ymd_opt`, which gives the date for a valid
/// year, month and day, and on `Datelike::weekday` with
/// `Weekday::num_days_from_monday` for its weekday.
#[verifier::external_body]
fn chrono_weekday(y: i32, m: u32, d: u32) -> (r: u32)
    requires
        is_valid_date(y as int, m as int, d as int),
    ensures
        r == weekday(y as int, m as int, d as int),
{
    match chrono::NaiveDate::from_ymd_opt(y, m, d) {
        Some(date) => date.weekday().num_days_from_monday(),
        None => 0,
    }
}

/// The ISO 8601 week-numbering year and week of a valid date.
///
/// Relies on chrono's `NaiveDate::from_ymd_opt`, which gives the date for a valid
/// year, month and day, and on `Datelike::iso_week` with `IsoWeek::{year, week}`
/// for its ISO week date.
#[verifier::external_body]
fn chrono_iso_week(y: i32, m: u32, d: u32) -> (r: (i32, u32))
    requires
        is_valid_date(y as int, m as int, d as int),
    ensures
        r.0 == iso_year(y as int, m as int, d as int),
        r.1 == iso_week(y as int, m as int, d as int),
{
    match chrono::NaiveDate::from_ymd_opt(y, m, d) {
        Some(date) => (date.iso_week().year(), date.iso_week().week()),
        None => (0, 0),
    }
}

/// The day of the year of a valid date.
pub fn day_of_year(y: i32, m: u32, d: u32) -> (r: u32)
    requires
        is_valid_date(y as int, m as int, d as int),
    ensures
        r == ordinal(y as int, m as int, d as int),
        1 <= r <= days_in_year(y as int),
{
    proof {
        lemma_epoch_day_bounds(y as int, m as int, d as int);
    }
    chrono_ordinal(y, m, d)
}

/// The number of days from 1970-01-01 to a valid date.
pub fn epoch_day(y: i32, m: u32, d: u32) -> (r: i64)
    requires
        is_valid_date(y as int, m as int, d as int),
    ensures
        r == days_from_epoch(y as int, m as int, d as int),
{
    let p = (y - 1) as i64;
    let ord = day_of_year(y, m, d) as i64;
    365 * p + p / 4 - p / 100 + p / 400 + ord - 1 - 719162
}

/// Bounds of the day number of a valid date.
pub proof fn lemma_epoch_day_bounds(y: int, m: int, d: int)
    requires
        is_valid_date(y, m, d),
    ensures
        -719162 <= days_from_epoch(y, m, d) <= 2932896,
        1 <= ordinal(y, m, d) <= days_in_year(y),
{
    reveal_with_fuel(days_before_month, 12);
    assert(0 <= (y - 1) / 4 <= 2500);
    assert(0 <= (y - 1) / 100 <= 100);
    assert(0 <= (y - 1) / 400 <= 25);
    assert((y - 1) / 4 - (y - 1) / 100 >= 0) by {
        vstd::arithmetic::div_mod::lemma_div_is_ordered_by_denominator(y - 1, 4, 100);
    }
    if y == 9999 {
        assert(days_from_epoch(y, m, d) <= 2932896);
    } else {
        assert((y - 1) / 4 <= 2499) by {
            vstd::arithmetic::div_mod::lemma_div_is_ordered(y - 1, 9998, 4);
        }
        assert((y - 1) / 400 <= 24) by {
            vstd::arithmetic::div_mod::lemma_div_is_ordered(y - 1, 9998, 400);
        }
    }
}

/// The weekday of a valid date, Monday being 0.
pub fn day_of_week(y: i32, m: u32, d: u32) -> (r: u32)
    requires
        is_valid_date(y as int, m as int, d as int),
    ensures
        r == weekday(y as int, m as int, d as int),
        r < 7,
{
    chrono_weekday(y, m, d)
}

/// The ISO year of a supported date is itself a supported year, and its week is in `1..=53`.
pub proof fn lemma_iso_week_bounds(y: int, m: int, d: int)
    requires
        is_valid_date(y, m, d),
    ensures
        MIN_YEAR <= iso_year(y, m, d) <= MAX_YEAR,
        1 <= iso_week(y, m, d) <= 53,
{
    lemma_epoch_day_bounds(y, m, d);
    let o = ordinal(y, m, d);
    let w = weekday(y, m, d);
    let t = thursday_ordinal(y, m, d);
    assert(0 <= w < 7);
    if y == 1 && o <= 3 {
        reveal_with_fuel(days_before_month, 12);
        assert(m == 1);
        assert(days_from_epoch(y, m, d) == d - 1 - 719162);
        assert(w == d - 1);
    }
    if y == 9999 && o >= 363 {
        reveal_with_fuel(days_before_month, 12);
        assert(m == 12);
        assert(days_from_epoch(y, m, d) == 2932896 - 31 + d);
        assert(w == d - 27);
    }
}

/// The ISO week-numbering year and week of a valid date.
pub fn iso_year_week(y: i32, m: u32, d: u32) -> (r: (i32, u32))
    requires
        is_valid_date(y as int, m as int, d as int),
    ensures
        r.0 == iso_year(y as int, m as int, d as int),
        r.1 == iso_week(y as int, m as int, d as int),
        MIN_YEAR <= r.0 <= MAX_YEAR,
        1 <= r.1 <= 53,
{
    proof {
        lemma_iso_week_bounds(y as int, m as int, d as int);
    }
    chrono_iso_week(y, m, d)
}

/// The week of the year of a valid date, with weeks starting on weekday `first`
/// (Monday being 0); the days before the first such weekday are in week 0.
pub fn week_of_year_from(y: i32, m: u32, d: u32, first: u32) -> (r: u32)
    requires
        is_valid_date(y as int, m as int, d as int),
        first < 7,
    ensures
        r == week_from(y as int, m as int, d as int, first as int),
        r <= 53,
{
    let o = day_of_year(y, m, d);
    let w = day_of_week(y, m, d);
    let since = (w + 7 - first) % 7;
    proof {
        let x = w as int - first as int;
        vstd::arithmetic::div_mod::lemma_mod_add_multiples_vanish(x, 7);
    }
    (o + 6 - since) / 7
}

} // verus!
