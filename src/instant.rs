//! An instant of UTC time, held as its calendar date, its time of day and its
//! fraction of a second.
use chrono::Datelike;
use vstd::prelude::*;

use crate::calendar::{
    days_from_epoch, epoch_day, is_valid_date, lemma_epoch_day_bounds, month_length, MAX_YEAR,
    MIN_YEAR,
};

verus! {

/// The number of seconds of a day.
pub const SECONDS_PER_DAY: i64 = 86400;

/// The number of nanoseconds of a second.
pub const NANOS_PER_SECOND: u32 = 1_000_000_000;

/// The day number of 0001-01-01, counted from 1970-01-01.
pub const FIRST_EPOCH_DAY: i64 = -719162;

/// The day number of 9999-12-31, counted from 1970-01-01.
pub const LAST_EPOCH_DAY: i64 = 2932896;

/// The first second of 0001-01-01, counted from 1970-01-01T00:00:00Z.
pub const FIRST_EPOCH_SECOND: i64 = -62135596800;

/// The last second of 9999-12-31, counted from 1970-01-01T00:00:00Z.
pub const LAST_EPOCH_SECOND: i64 = 253402300799;

/// An absolute point in time, in UTC, within the years 1 to 9999: the range in
/// which every encoding of a timestamp has its four-digit year.
#[derive(Clone, Copy, Debug, PartialEq, Eq)]
pub struct Instant {
    pub year: i32,
    pub month: u32,
    pub day: u32,
    pub hour: u32,
    pub minute: u32,
    pub second: u32,
    pub nanosecond: u32,
}

/// The date whose day number, counted from 1970-01-01, is `days`.
///
/// Relies on chrono's `NaiveDate::from_epoch_days`, which maps a day number of the
/// proleptic Gregorian calendar to its date (`None` only out of chrono's range),
/// and on `Datelike::{year, month, day}` to read that date.
#[verifier::external_body]
fn date_of_epoch_day(days: i32) -> (r: Option<(i32, u32, u32)>)
    ensures
        FIRST_EPOCH_DAY <= days <= LAST_EPOCH_DAY ==> r is Some,
        r matches Some((y, m, d)) ==> is_date_of_day(y, m, d, days as int),
{
    match chrono::NaiveDate::from_epoch_days(days) {
        Some(date) => Some((date.year(), date.month(), date.day())),
        None => None,
    }
}

/// Whether `(y, m, d)` is the date of day number `days`; within the supported days
/// its year is a supported year.
pub open spec fn is_date_of_day(y: i32, m: u32, d: u32, days: int) -> bool {
    &&& 1 <= m <= 12
    &&& 1 <= d <= crate::calendar::days_in_month(y as int, m as int)
    &&& days_from_epoch(y as int, m as int, d as int) == days
    &&& FIRST_EPOCH_DAY <= days <= LAST_EPOCH_DAY ==> MIN_YEAR <= y <= MAX_YEAR
}

impl Instant {
    /// Whether the fields name an existing instant within the supported years.
    pub open spec fn wf(&self) -> bool {
        &&& is_valid_date(self.year as int, self.month as int, self.day as int)
        &&& self.hour < 24
        &&& self.minute < 60
        &&& self.second < 60
        &&& self.nanosecond < NANOS_PER_SECOND
    }

    /// Whole seconds from 1970-01-01T00:00:00Z to this instant (negative before it).
    pub open spec fn epoch_seconds(&self) -> int {
        days_from_epoch(self.year as int, self.month as int, self.day as int) * 86400 + self.hour
            * 3600 + self.minute * 60 + self.second
    }

    /// The instant at the given date and time of day, with no fraction of a second;
    /// `None` where they name no such instant.
    pub fn from_ymd_hms(year: i32, month: u32, day: u32, hour: u32, minute: u32, second: u32) -> (r:
        Option<Instant>)
        ensures
            r is Some <==> is_valid_date(year as int, month as int, day as int) && hour < 24
                && minute < 60 && second < 60,
            r matches Some(i) ==> i.wf() && i == (Instant {
                year,
                month,
                day,
                hour,
                minute,
                second,
                nanosecond: 0,
            }),
    {
        if year < MIN_YEAR || year > MAX_YEAR || month < 1 || month > 12 || day < 1 || day
            > month_length(year, month) || hour >= 24 || minute >= 60 || second >= 60 {
            None
        } else {
            Some(Instant { year, month, day, hour, minute, second, nanosecond: 0 })
        }
    }

    /// The instant `secs` seconds and `nanos` nanoseconds after 1970-01-01T00:00:00Z;
    /// `None` where `nanos` is not below one second or the instant falls outside the
    /// years 1 to 9999.
    pub fn from_timestamp(secs: i64, nanos: u32) -> (r: Option<Instant>)
        ensures
            r is Some <==> nanos < NANOS_PER_SECOND && FIRST_EPOCH_SECOND <= secs
                <= LAST_EPOCH_SECOND,
            r matches Some(i) ==> i.wf() && i.epoch_seconds() == secs && i.nanosecond == nanos,
    {
        if nanos >= NANOS_PER_SECOND || secs < FIRST_EPOCH_SECOND || secs > LAST_EPOCH_SECOND {
            return None;
        }
        let shifted = (secs - FIRST_EPOCH_SECOND) as u64;
        let days = (shifted / 86400) as i64 + FIRST_EPOCH_DAY;
        let in_day = (shifted % 86400) as u32;
        assert(FIRST_EPOCH_DAY <= days <= LAST_EPOCH_DAY);
        match date_of_epoch_day(days as i32) {
            Some((year, month, day)) => {
                let i = Instant {
                    year,
                    month,
                    day,
                    hour: in_day / 3600,
                    minute: in_day % 3600 / 60,
                    second: in_day % 60,
                    nanosecond: nanos,
                };
                assert(i.epoch_seconds() == secs) by (nonlinear_arith)
                    requires
                        days_from_epoch(year as int, month as int, day as int) == days,
                        days == shifted / 86400 + FIRST_EPOCH_DAY,
                        shifted == secs - FIRST_EPOCH_SECOND,
                        in_day == shifted % 86400,
                        i.hour == in_day / 3600,
                        i.minute == in_day % 3600 / 60,
                        i.second == in_day % 60,
                        i.year == year,
                        i.month == month,
                        i.day == day,
                        0 <= shifted,
                ;
                Some(i)
            },
            None => None,
        }
    }

    /// Whole seconds from 1970-01-01T00:00:00Z to this instant.
    pub fn timestamp(&self) -> (r: i64)
        requires
            self.wf(),
        ensures
            r == self.epoch_seconds(),
    {
        proof {
            lemma_epoch_day_bounds(self.year as int, self.month as int, self.day as int);
        }
        let days = epoch_day(self.year, self.month, self.day);
        days * SECONDS_PER_DAY + (self.hour as i64) * 3600 + (self.minute as i64) * 60
            + self.second as i64
    }
}

} // verus!
