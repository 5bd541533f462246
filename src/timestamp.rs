//! The timestamp-formatting engine: one instant in every encoding of the catalogue.
use vstd::prelude::*;

use crate::calendar::{
    day_of_week, day_of_year, is_leap, iso_week, iso_year, iso_year_week, lemma_epoch_day_bounds,
    lemma_iso_week_bounds, ordinal, week_from, week_of_year_from, weekday,
};
use crate::instant::Instant;
use crate::text::{
    all_digits, decimal, digit_value, digits_value, lemma_decimal_value, lemma_digit_value,
    lemma_padded_value, lemma_pow10_values, lemma_weekday_name_starts_with_abbreviation,
    long_month, long_month_name, long_weekday, long_weekday_name, padded, push_decimal,
    push_padded, push_space_padded, short_month, short_month_name, short_weekday,
    short_weekday_name, space_padded,
};

verus! {

/// The record of every encoding of one instant. Each field name is part of the
/// service's stable interface.
pub struct Timestamp {
    pub yyyy_mm_dd: String,
    pub mm_dd_yyyy: String,
    pub dd_mm_yyyy: String,
    pub yyyymmdd: String,
    pub mmddyyyy: String,
    pub ddmmyyyy: String,
    pub yyyymmdd_hyphenated: String,
    pub mmddyyyy_hyphenated: String,
    pub ddmmyyyy_hyphenated: String,
    pub week_number_of_the_year: u32,
    pub day_of_the_year: u32,
    pub unix_timestamp: i64,
    pub military_time: String,
    pub hh_mm_ss: String,
    pub am_pm_notation: String,
    pub quarter_of_the_year: u32,
    pub rfc2822_date_format: String,
    pub rfc3339_date_format: String,
    pub rfc3339_date_format_millis: String,
    pub rfc3339_date_format_millis_z: String,
    pub rfc3339_date_format_secs: String,
    pub rfc3339_date_format_secs_z: String,
    pub rfc3339_date_format_micros: String,
    pub rfc3339_date_format_micros_z: String,
    pub rfc3339_date_format_nanos: String,
    pub rfc3339_date_format_nanos_z: String,
    pub rfc3339_date_format_autosi: String,
    pub rfc3339_date_format_autosi_z: String,
    pub iso_week_date_format: String,
    pub month_of_the_year: u32,
    pub hour_of_the_day: u32,
    pub minute_of_the_hour: u32,
    pub second_of_the_minute: u32,
    pub iso_year_week_format: String,
    pub iso_year: i32,
    pub iso_week: u32,
    pub weekday: String,
    pub weekday_short: String,
    pub week: String,
    pub timezone_name: String,
    pub year_quad: String,
    pub century_duo: String,
    pub year_duo: String,
    pub month_number: String,
    pub short_month: String,
    pub long_month: String,
    pub day_duo: String,
    pub easy_day: String,
    pub abbrev_weekday: String,
    pub weekday_index: String,
    pub iso_weekday: String,
    pub us_week_num: String,
    pub work_week_num: String,
    pub iso_year_full: String,
    pub iso_year_duo: String,
    pub iso_week_num: String,
    pub julian_day: String,
    pub mdy_format: String,
    pub locale_date: String,
    pub full_iso: String,
    pub verbose_date: String,
}

/// `a`, `b` and `c` joined by `sep`.
pub open spec fn join3(a: Seq<char>, b: Seq<char>, c: Seq<char>, sep: Seq<char>) -> Seq<char> {
    a + sep + b + sep + c
}

/// The four-digit year.
pub open spec fn year4(i: Instant) -> Seq<char> {
    padded(i.year as nat, 4)
}

/// The last two digits of the year.
pub open spec fn year2(i: Instant) -> Seq<char> {
    padded(i.year as nat % 100, 2)
}

/// The two-digit month.
pub open spec fn month2(i: Instant) -> Seq<char> {
    padded(i.month as nat, 2)
}

/// The two-digit day of the month.
pub open spec fn day2(i: Instant) -> Seq<char> {
    padded(i.day as nat, 2)
}

/// The two-digit hour of the day.
pub open spec fn hour2(i: Instant) -> Seq<char> {
    padded(i.hour as nat, 2)
}

/// The two-digit minute of the hour.
pub open spec fn minute2(i: Instant) -> Seq<char> {
    padded(i.minute as nat, 2)
}

/// The two-digit second of the minute.
pub open spec fn second2(i: Instant) -> Seq<char> {
    padded(i.second as nat, 2)
}

/// The day of the year, January 1 being 1.
pub open spec fn ordinal_of(i: Instant) -> nat {
    ordinal(i.year as int, i.month as int, i.day as int) as nat
}

/// The weekday, Monday being 0.
pub open spec fn weekday_of(i: Instant) -> nat {
    weekday(i.year as int, i.month as int, i.day as int) as nat
}

/// The ISO weekday number, Monday being 1 and Sunday 7.
pub open spec fn iso_weekday_number(i: Instant) -> nat {
    weekday_of(i) + 1
}

/// The weekday counted from Sunday as 0.
pub open spec fn sunday_index(i: Instant) -> nat {
    (weekday_of(i) + 1) % 7
}

/// The ISO 8601 week-numbering year.
pub open spec fn iso_year_of(i: Instant) -> nat {
    iso_year(i.year as int, i.month as int, i.day as int) as nat
}

/// The ISO 8601 week number.
pub open spec fn iso_week_of(i: Instant) -> nat {
    iso_week(i.year as int, i.month as int, i.day as int) as nat
}

/// The four-digit ISO year.
pub open spec fn iso_year4(i: Instant) -> Seq<char> {
    padded(iso_year_of(i), 4)
}

/// The two-digit ISO week.
pub open spec fn iso_week2(i: Instant) -> Seq<char> {
    padded(iso_week_of(i), 2)
}

/// The week of the year with weeks starting on Sunday.
pub open spec fn week_from_sunday(i: Instant) -> nat {
    week_from(i.year as int, i.month as int, i.day as int, 6) as nat
}

/// The week of the year with weeks starting on Monday.
pub open spec fn week_from_monday(i: Instant) -> nat {
    week_from(i.year as int, i.month as int, i.day as int, 0) as nat
}

/// The quarter of the year of month `m`.
pub open spec fn quarter(m: int) -> int {
    (m - 1) / 3 + 1
}

/// `am` before noon, `pm` from noon on.
pub open spec fn am_pm(i: Instant) -> Seq<char> {
    if i.hour < 12 {
        "am"@
    } else {
        "pm"@
    }
}

/// The US date `MM/DD/YY`.
pub open spec fn mdy(i: Instant) -> Seq<char> {
    join3(month2(i), day2(i), year2(i), "/"@)
}

/// The RFC 2822 rendering, such as `Fri, 15 Mar 2024 12:30:45 +0000`.
pub open spec fn rfc2822(i: Instant) -> Seq<char> {
    short_weekday_name(weekday_of(i)) + ", "@ + decimal(i.day as nat) + " "@ + short_month_name(
        i.month as nat,
    ) + " "@ + year4(i) + " "@ + join3(hour2(i), minute2(i), second2(i), ":"@) + " +0000"@
}

/// The fraction of a second, `n` nanoseconds, written with `digits` digits
/// (3, 6 or 9) after a point, cut off rather than rounded; nothing for any other
/// number of digits.
pub open spec fn fraction(n: nat, digits: nat) -> Seq<char> {
    if digits == 3 {
        "."@ + padded(n / 1_000_000, 3)
    } else if digits == 6 {
        "."@ + padded(n / 1_000, 6)
    } else if digits == 9 {
        "."@ + padded(n, 9)
    } else {
        seq![]
    }
}

/// The fewest of 0, 3, 6 or 9 fractional digits that write `n` nanoseconds exactly.
pub open spec fn auto_digits(n: nat) -> nat {
    if n == 0 {
        0
    } else if n % 1_000_000 == 0 {
        3
    } else if n % 1_000 == 0 {
        6
    } else {
        9
    }
}

/// The designator of UTC: `Z`, or the numeric offset `+00:00`.
pub open spec fn zone(use_z: bool) -> Seq<char> {
    if use_z {
        "Z"@
    } else {
        "+00:00"@
    }
}

/// The date and time of day, `YYYY-MM-DDTHH:MM:SS`, that every RFC 3339 rendering begins with.
pub open spec fn rfc3339_base(i: Instant) -> Seq<char> {
    join3(year4(i), month2(i), day2(i), "-"@) + "T"@ + join3(hour2(i), minute2(i), second2(i), ":"@)
}

/// The RFC 3339 rendering with `digits` fractional digits and the given designator of UTC.
pub open spec fn rfc3339(i: Instant, digits: nat, use_z: bool) -> Seq<char> {
    rfc3339_base(i) + fraction(i.nanosecond as nat, digits) + zone(use_z)
}

impl Timestamp {
    /// Whether two records hold the same value in every field.
    pub open spec fn same_fields(&self, other: &Timestamp) -> bool {
        &&& self.yyyy_mm_dd@ == other.yyyy_mm_dd@
        &&& self.mm_dd_yyyy@ == other.mm_dd_yyyy@
        &&& self.dd_mm_yyyy@ == other.dd_mm_yyyy@
        &&& self.yyyymmdd@ == other.yyyymmdd@
        &&& self.mmddyyyy@ == other.mmddyyyy@
        &&& self.ddmmyyyy@ == other.ddmmyyyy@
        &&& self.yyyymmdd_hyphenated@ == other.yyyymmdd_hyphenated@
        &&& self.mmddyyyy_hyphenated@ == other.mmddyyyy_hyphenated@
        &&& self.ddmmyyyy_hyphenated@ == other.ddmmyyyy_hyphenated@
        &&& self.week_number_of_the_year == other.week_number_of_the_year
        &&& self.day_of_the_year == other.day_of_the_year
        &&& self.unix_timestamp == other.unix_timestamp
        &&& self.military_time@ == other.military_time@
        &&& self.hh_mm_ss@ == other.hh_mm_ss@
        &&& self.am_pm_notation@ == other.am_pm_notation@
        &&& self.quarter_of_the_year == other.quarter_of_the_year
        &&& self.rfc2822_date_format@ == other.rfc2822_date_format@
        &&& self.rfc3339_date_format@ == other.rfc3339_date_format@
        &&& self.rfc3339_date_format_millis@ == other.rfc3339_date_format_millis@
        &&& self.rfc3339_date_format_millis_z@ == other.rfc3339_date_format_millis_z@
        &&& self.rfc3339_date_format_secs@ == other.rfc3339_date_format_secs@
        &&& self.rfc3339_date_format_secs_z@ == other.rfc3339_date_format_secs_z@
        &&& self.rfc3339_date_format_micros@ == other.rfc3339_date_format_micros@
        &&& self.rfc3339_date_format_micros_z@ == other.rfc3339_date_format_micros_z@
        &&& self.rfc3339_date_format_nanos@ == other.rfc3339_date_format_nanos@
        &&& self.rfc3339_date_format_nanos_z@ == other.rfc3339_date_format_nanos_z@
        &&& self.rfc3339_date_format_autosi@ == other.rfc3339_date_format_autosi@
        &&& self.rfc3339_date_format_autosi_z@ == other.rfc3339_date_format_autosi_z@
        &&& self.iso_week_date_format@ == other.iso_week_date_format@
        &&& self.month_of_the_year == other.month_of_the_year
        &&& self.hour_of_the_day == other.hour_of_the_day
        &&& self.minute_of_the_hour == other.minute_of_the_hour
        &&& self.second_of_the_minute == other.second_of_the_minute
        &&& self.iso_year_week_format@ == other.iso_year_week_format@
        &&& self.iso_year == other.iso_year
        &&& self.iso_week == other.iso_week
        &&& self.weekday@ == other.weekday@
        &&& self.weekday_short@ == other.weekday_short@
        &&& self.week@ == other.week@
        &&& self.timezone_name@ == other.timezone_name@
        &&& self.year_quad@ == other.year_quad@
        &&& self.century_duo@ == other.century_duo@
        &&& self.year_duo@ == other.year_duo@
        &&& self.month_number@ == other.month_number@
        &&& self.short_month@ == other.short_month@
        &&& self.long_month@ == other.long_month@
        &&& self.day_duo@ == other.day_duo@
        &&& self.easy_day@ == other.easy_day@
        &&& self.abbrev_weekday@ == other.abbrev_weekday@
        &&& self.weekday_index@ == other.weekday_index@
        &&& self.iso_weekday@ == other.iso_weekday@
        &&& self.us_week_num@ == other.us_week_num@
        &&& self.work_week_num@ == other.work_week_num@
        &&& self.iso_year_full@ == other.iso_year_full@
        &&& self.iso_year_duo@ == other.iso_year_duo@
        &&& self.iso_week_num@ == other.iso_week_num@
        &&& self.julian_day@ == other.julian_day@
        &&& self.mdy_format@ == other.mdy_format@
        &&& self.locale_date@ == other.locale_date@
        &&& self.full_iso@ == other.full_iso@
        &&& self.verbose_date@ == other.verbose_date@
    }

    /// Whether every field of the record is the encoding of instant `i` that its name gives.
    pub open spec fn renders(&self, i: Instant) -> bool {
        &&& self.yyyy_mm_dd@ == join3(year4(i), month2(i), day2(i), "_"@)
        &&& self.mm_dd_yyyy@ == join3(month2(i), day2(i), year4(i), "_"@)
        &&& self.dd_mm_yyyy@ == join3(day2(i), month2(i), year4(i), "_"@)
        &&& self.yyyymmdd@ == year4(i) + month2(i) + day2(i)
        &&& self.mmddyyyy@ == month2(i) + day2(i) + year4(i)
        &&& self.ddmmyyyy@ == day2(i) + month2(i) + year4(i)
        &&& self.yyyymmdd_hyphenated@ == join3(year4(i), month2(i), day2(i), "-"@)
        &&& self.mmddyyyy_hyphenated@ == join3(month2(i), day2(i), year4(i), "-"@)
        &&& self.ddmmyyyy_hyphenated@ == join3(day2(i), month2(i), year4(i), "-"@)
        &&& self.week_number_of_the_year == iso_week_of(i)
        &&& self.day_of_the_year == ordinal_of(i)
        &&& self.unix_timestamp == i.epoch_seconds()
        &&& self.military_time@ == hour2(i) + ":"@ + minute2(i)
        &&& self.hh_mm_ss@ == join3(hour2(i), minute2(i), second2(i), "_"@)
        &&& self.am_pm_notation@ == am_pm(i)
        &&& self.quarter_of_the_year == quarter(i.month as int)
        &&& self.rfc2822_date_format@ == rfc2822(i)
        &&& self.rfc3339_date_format@ == rfc3339(i, auto_digits(i.nanosecond as nat), false)
        &&& self.rfc3339_date_format_millis@ == rfc3339(i, 3, false)
        &&& self.rfc3339_date_format_millis_z@ == rfc3339(i, 3, true)
        &&& self.rfc3339_date_format_secs@ == rfc3339(i, 0, false)
        &&& self.rfc3339_date_format_secs_z@ == rfc3339(i, 0, true)
        &&& self.rfc3339_date_format_micros@ == rfc3339(i, 6, false)
        &&& self.rfc3339_date_format_micros_z@ == rfc3339(i, 6, true)
        &&& self.rfc3339_date_format_nanos@ == rfc3339(i, 9, false)
        &&& self.rfc3339_date_format_nanos_z@ == rfc3339(i, 9, true)
        &&& self.rfc3339_date_format_autosi@ == rfc3339(i, auto_digits(i.nanosecond as nat), false)
        &&& self.rfc3339_date_format_autosi_z@ == rfc3339(i, auto_digits(i.nanosecond as nat), true)
        &&& self.iso_week_date_format@ == iso_year4(i) + "-W"@ + iso_week2(i) + "-"@
            + decimal(iso_weekday_number(i))
        &&& self.month_of_the_year == i.month
        &&& self.hour_of_the_day == i.hour
        &&& self.minute_of_the_hour == i.minute
        &&& self.second_of_the_minute == i.second
        &&& self.iso_year_week_format@ == iso_year4(i) + "-W"@ + iso_week2(i)
        &&& self.iso_year == iso_year_of(i)
        &&& self.iso_week == iso_week_of(i)
        &&& self.weekday@ == long_weekday_name(weekday_of(i))
        &&& self.weekday_short@ == short_weekday_name(weekday_of(i))
        &&& self.week@ == decimal(iso_week_of(i))
        &&& self.timezone_name@ == "UTC"@
        &&& self.year_quad@ == year4(i)
        &&& self.century_duo@ == padded(i.year as nat / 100, 2)
        &&& self.year_duo@ == year2(i)
        &&& self.month_number@ == month2(i)
        &&& self.short_month@ == short_month_name(i.month as nat)
        &&& self.long_month@ == long_month_name(i.month as nat)
        &&& self.day_duo@ == day2(i)
        &&& self.easy_day@ == space_padded(i.day as nat)
        &&& self.abbrev_weekday@ == short_weekday_name(weekday_of(i))
        &&& self.weekday_index@ == decimal(sunday_index(i))
        &&& self.iso_weekday@ == decimal(iso_weekday_number(i))
        &&& self.us_week_num@ == padded(week_from_sunday(i), 2)
        &&& self.work_week_num@ == padded(week_from_monday(i), 2)
        &&& self.iso_year_full@ == iso_year4(i)
        &&& self.iso_year_duo@ == padded(iso_year_of(i) % 100, 2)
        &&& self.iso_week_num@ == iso_week2(i)
        &&& self.julian_day@ == padded(ordinal_of(i), 3)
        &&& self.mdy_format@ == mdy(i)
        &&& self.locale_date@ == mdy(i)
        &&& self.full_iso@ == join3(year4(i), month2(i), day2(i), "-"@)
        &&& self.verbose_date@ == space_padded(i.day as nat) + "-"@ + short_month_name(i.month as nat)
            + "-"@ + year4(i)
    }
}

/// `a`, `b` and `c`, zero-padded to widths `wa`, `wb` and `wc`, joined by `sep`.
fn padded_triple(a: u32, wa: u32, b: u32, wb: u32, c: u32, wc: u32, sep: &str) -> (r: String)
    ensures
        r@ == join3(
            padded(a as nat, wa as nat),
            padded(b as nat, wb as nat),
            padded(c as nat, wc as nat),
            sep@,
        ),
{
    let mut s = String::new();
    push_padded(&mut s, a, wa);
    s.append(sep);
    push_padded(&mut s, b, wb);
    s.append(sep);
    push_padded(&mut s, c, wc);
    assert(s@ =~= join3(
        padded(a as nat, wa as nat),
        padded(b as nat, wb as nat),
        padded(c as nat, wc as nat),
        sep@,
    ));
    s
}

/// The last `w` decimal digits of `n`, with leading zeros.
fn padded_text(n: u32, w: u32) -> (r: String)
    ensures
        r@ == padded(n as nat, w as nat),
{
    let mut s = String::new();
    push_padded(&mut s, n, w);
    assert(s@ =~= padded(n as nat, w as nat));
    s
}

/// The decimal form of `n`.
fn decimal_text(n: u32) -> (r: String)
    ensures
        r@ == decimal(n as nat),
{
    let mut s = String::new();
    push_decimal(&mut s, n);
    assert(s@ =~= decimal(n as nat));
    s
}

/// The day of the month in two columns, space-padded.
fn space_padded_text(n: u32) -> (r: String)
    requires
        n < 100,
    ensures
        r@ == space_padded(n as nat),
{
    let mut s = String::new();
    push_space_padded(&mut s, n);
    assert(s@ =~= space_padded(n as nat));
    s
}

/// The ISO year and week, `YYYY-Www`, followed by `-D` for the ISO weekday where one is given.
fn iso_week_text(year: u32, week: u32, weekday_number: Option<u32>) -> (r: String)
    ensures
        r@ == padded(year as nat, 4) + "-W"@ + padded(week as nat, 2) + match weekday_number {
            Some(d) => "-"@ + decimal(d as nat),
            None => seq![],
        },
{
    let mut s = String::new();
    push_padded(&mut s, year, 4);
    s.append("-W");
    push_padded(&mut s, week, 2);
    if let Some(d) = weekday_number {
        s.append("-");
        push_decimal(&mut s, d);
    }
    assert(s@ =~= padded(year as nat, 4) + "-W"@ + padded(week as nat, 2) + match weekday_number {
        Some(d) => "-"@ + decimal(d as nat),
        None => seq![],
    });
    s
}

/// How many fractional digits an RFC 3339 rendering writes.
pub enum Precision {
    /// None.
    Secs,
    /// Three.
    Millis,
    /// Six.
    Micros,
    /// Nine.
    Nanos,
    /// The fewest of 0, 3, 6 or 9 that write the fraction exactly.
    AutoSi,
}

/// The number of fractional digits that `p` writes for `n` nanoseconds.
pub open spec fn precision_digits(p: Precision, n: nat) -> nat {
    match p {
        Precision::Secs => 0,
        Precision::Millis => 3,
        Precision::Micros => 6,
        Precision::Nanos => 9,
        Precision::AutoSi => auto_digits(n),
    }
}

/// The RFC 3339 rendering of `i`, which lies `secs` whole seconds after the epoch.
///
/// Relies on chrono's `DateTime::from_timestamp`, which gives the UTC date and time
/// `secs` seconds and `nanosecond` nanoseconds after 1970-01-01T00:00:00Z, and on
/// `DateTime::to_rfc3339_opts`, which writes it with the digits that the
/// `SecondsFormat` asks for, cut off, and `Z` or `+00:00` as `use_z` says.
#[verifier::external_body]
fn rfc3339_text(i: &Instant, secs: i64, precision: Precision, use_z: bool) -> (r: String)
    requires
        i.wf(),
        secs == i.epoch_seconds(),
    ensures
        r@ == rfc3339(*i, precision_digits(precision, i.nanosecond as nat), use_z),
{
    let form = match precision {
        Precision::Secs => chrono::SecondsFormat::Secs,
        Precision::Millis => chrono::SecondsFormat::Millis,
        Precision::Micros => chrono::SecondsFormat::Micros,
        Precision::Nanos => chrono::SecondsFormat::Nanos,
        Precision::AutoSi => chrono::SecondsFormat::AutoSi,
    };
    match chrono::DateTime::from_timestamp(secs, i.nanosecond) {
        Some(dt) => dt.to_rfc3339_opts(form, use_z),
        None => String::new(),
    }
}

/// The RFC 2822 rendering of `i`, which lies `secs` whole seconds after the epoch.
///
/// Relies on chrono's `DateTime::from_timestamp`, which gives the UTC date and time
/// `secs` seconds after 1970-01-01T00:00:00Z, and on `DateTime::to_rfc2822`, which
/// writes it as `%a, %d %b %Y %H:%M:%S +0000` with the day unpadded; it is defined
/// for the years 0 to 9999.
#[verifier::external_body]
fn rfc2822_text(i: &Instant, secs: i64) -> (r: String)
    requires
        i.wf(),
        secs == i.epoch_seconds(),
    ensures
        r@ == rfc2822(*i),
{
    match chrono::DateTime::from_timestamp(secs, i.nanosecond) {
        Some(dt) => dt.to_rfc2822(),
        None => String::new(),
    }
}

/// Every encoding of the instant `dt`, computed as in UTC.
pub fn from_chrono(dt: Instant) -> (r: Timestamp)
    requires
        dt.wf(),
    ensures
        r.renders(dt),
{
    let i = &dt;
    let y = dt.year as u32;
    let ord = day_of_year(dt.year, dt.month, dt.day);
    let wd = day_of_week(dt.year, dt.month, dt.day);
    let (iso_year, iso_w) = iso_year_week(dt.year, dt.month, dt.day);
    let iso_y = iso_year as u32;
    let from_sunday = week_of_year_from(dt.year, dt.month, dt.day, 6);
    let from_monday = week_of_year_from(dt.year, dt.month, dt.day, 0);
    let secs = dt.timestamp();
    proof {
        reveal_strlit("");
    }
    let mut verbose = space_padded_text(dt.day);
    verbose.append("-");
    verbose.append(short_month(dt.month));
    verbose.append("-");
    push_padded(&mut verbose, y, 4);
    let mut military = padded_text(dt.hour, 2);
    military.append(":");
    push_padded(&mut military, dt.minute, 2);
    let r = Timestamp {
        yyyy_mm_dd: padded_triple(y, 4, dt.month, 2, dt.day, 2, "_"),
        mm_dd_yyyy: padded_triple(dt.month, 2, dt.day, 2, y, 4, "_"),
        dd_mm_yyyy: padded_triple(dt.day, 2, dt.month, 2, y, 4, "_"),
        yyyymmdd: padded_triple(y, 4, dt.month, 2, dt.day, 2, ""),
        mmddyyyy: padded_triple(dt.month, 2, dt.day, 2, y, 4, ""),
        ddmmyyyy: padded_triple(dt.day, 2, dt.month, 2, y, 4, ""),
        yyyymmdd_hyphenated: padded_triple(y, 4, dt.month, 2, dt.day, 2, "-"),
        mmddyyyy_hyphenated: padded_triple(dt.month, 2, dt.day, 2, y, 4, "-"),
        ddmmyyyy_hyphenated: padded_triple(dt.day, 2, dt.month, 2, y, 4, "-"),
        week_number_of_the_year: iso_w,
        day_of_the_year: ord,
        unix_timestamp: secs,
        military_time: military,
        hh_mm_ss: padded_triple(dt.hour, 2, dt.minute, 2, dt.second, 2, "_"),
        am_pm_notation: String::from_str(
            if dt.hour < 12 {
                "am"
            } else {
                "pm"
            },
        ),
        quarter_of_the_year: (dt.month - 1) / 3 + 1,
        rfc2822_date_format: rfc2822_text(i, secs),
        rfc3339_date_format: rfc3339_text(i, secs, Precision::AutoSi, false),
        rfc3339_date_format_millis: rfc3339_text(i, secs, Precision::Millis, false),
        rfc3339_date_format_millis_z: rfc3339_text(i, secs, Precision::Millis, true),
        rfc3339_date_format_secs: rfc3339_text(i, secs, Precision::Secs, false),
        rfc3339_date_format_secs_z: rfc3339_text(i, secs, Precision::Secs, true),
        rfc3339_date_format_micros: rfc3339_text(i, secs, Precision::Micros, false),
        rfc3339_date_format_micros_z: rfc3339_text(i, secs, Precision::Micros, true),
        rfc3339_date_format_nanos: rfc3339_text(i, secs, Precision::Nanos, false),
        rfc3339_date_format_nanos_z: rfc3339_text(i, secs, Precision::Nanos, true),
        rfc3339_date_format_autosi: rfc3339_text(i, secs, Precision::AutoSi, false),
        rfc3339_date_format_autosi_z: rfc3339_text(i, secs, Precision::AutoSi, true),
        iso_week_date_format: iso_week_text(iso_y, iso_w, Some(wd + 1)),
        month_of_the_year: dt.month,
        hour_of_the_day: dt.hour,
        minute_of_the_hour: dt.minute,
        second_of_the_minute: dt.second,
        iso_year_week_format: iso_week_text(iso_y, iso_w, None),
        iso_year,
        iso_week: iso_w,
        weekday: String::from_str(long_weekday(wd)),
        weekday_short: String::from_str(short_weekday(wd)),
        week: decimal_text(iso_w),
        timezone_name: String::from_str("UTC"),
        year_quad: padded_text(y, 4),
        century_duo: padded_text(y / 100, 2),
        year_duo: padded_text(y % 100, 2),
        month_number: padded_text(dt.month, 2),
        short_month: String::from_str(short_month(dt.month)),
        long_month: String::from_str(long_month(dt.month)),
        day_duo: padded_text(dt.day, 2),
        easy_day: space_padded_text(dt.day),
        abbrev_weekday: String::from_str(short_weekday(wd)),
        weekday_index: decimal_text((wd + 1) % 7),
        iso_weekday: decimal_text(wd + 1),
        us_week_num: padded_text(from_sunday, 2),
        work_week_num: padded_text(from_monday, 2),
        iso_year_full: padded_text(iso_y, 4),
        iso_year_duo: padded_text(iso_y % 100, 2),
        iso_week_num: padded_text(iso_w, 2),
        julian_day: padded_text(ord, 3),
        mdy_format: padded_triple(dt.month, 2, dt.day, 2, y % 100, 2, "/"),
        locale_date: padded_triple(dt.month, 2, dt.day, 2, y % 100, 2, "/"),
        full_iso: padded_triple(y, 4, dt.month, 2, dt.day, 2, "-"),
        verbose_date: verbose,
    };
    assert(r.yyyymmdd@ =~= year4(dt) + month2(dt) + day2(dt));
    assert(r.mmddyyyy@ =~= month2(dt) + day2(dt) + year4(dt));
    assert(r.ddmmyyyy@ =~= day2(dt) + month2(dt) + year4(dt));
    assert(r.military_time@ =~= hour2(dt) + ":"@ + minute2(dt));
    assert(r.verbose_date@ =~= space_padded(dt.day as nat) + "-"@ + short_month_name(
        dt.month as nat,
    ) + "-"@ + year4(dt));
    assert(r.iso_week_date_format@ =~= iso_year4(dt) + "-W"@ + iso_week2(dt) + "-"@ + decimal(
        iso_weekday_number(dt),
    ));
    assert(r.iso_year_week_format@ =~= iso_year4(dt) + "-W"@ + iso_week2(dt));
    r
}

/// `s` with each underscore replaced by a hyphen.
pub open spec fn hyphens_for_underscores(s: Seq<char>) -> Seq<char> {
    s.map_values(|c: char| if c == '_' { '-' } else { c })
}

/// The numeric fields of every rendered instant lie in their calendar ranges, and
/// the quarter is `(month - 1) / 3 + 1`.
pub proof fn lemma_field_ranges(t: Timestamp, i: Instant)
    requires
        i.wf(),
        t.renders(i),
    ensures
        1 <= t.month_of_the_year <= 12,
        t.quarter_of_the_year == (t.month_of_the_year - 1) / 3 + 1,
        1 <= t.quarter_of_the_year <= 4,
        t.hour_of_the_day <= 23,
        t.minute_of_the_hour <= 59,
        t.second_of_the_minute <= 59,
        1 <= t.day_of_the_year <= 366,
        t.day_of_the_year == 366 ==> is_leap(i.year as int) && i.month == 12 && i.day == 31,
        1 <= t.week_number_of_the_year <= 53,
        1 <= t.iso_week <= 53,
{
    lemma_epoch_day_bounds(i.year as int, i.month as int, i.day as int);
    lemma_iso_week_bounds(i.year as int, i.month as int, i.day as int);
    if t.day_of_the_year == 366 {
        reveal_with_fuel(crate::calendar::days_before_month, 12);
    }
}

/// The full weekday name begins with the abbreviated one, for every instant.
pub proof fn lemma_weekday_starts_with_abbreviation(t: Timestamp, i: Instant)
    requires
        i.wf(),
        t.renders(i),
    ensures
        t.abbrev_weekday@.len() == 3,
        t.weekday@.len() >= 3,
        t.weekday@.subrange(0, 3) == t.abbrev_weekday@,
{
    lemma_weekday_name_starts_with_abbreviation(weekday_of(i));
}

/// The fields that repeat one another agree, textually or numerically, for every instant.
pub proof fn lemma_redundant_fields_agree(t: Timestamp, i: Instant)
    requires
        i.wf(),
        t.renders(i),
    ensures
        t.week_number_of_the_year == t.iso_week,
        t.week@ == decimal(t.week_number_of_the_year as nat),
        digits_value(t.iso_week_num@) == t.iso_week,
        t.iso_week_num@ == padded(t.iso_week as nat, 2),
        digits_value(t.month_number@) == t.month_of_the_year,
        digits_value(t.julian_day@) == t.day_of_the_year,
        digits_value(t.iso_weekday@) == digits_value(t.iso_week_date_format@.subrange(9, 10)),
        t.iso_year_week_format@ == t.iso_week_date_format@.subrange(0, 8),
        t.iso_year_full@ == t.iso_week_date_format@.subrange(0, 4),
        1 <= t.iso_year <= 9999,
        t.iso_year_full@ == padded(t.iso_year as nat, 4),
        digits_value(t.iso_year_full@) == t.iso_year,
        t.full_iso@ == t.yyyymmdd_hyphenated@,
        t.yyyymmdd_hyphenated@ == hyphens_for_underscores(t.yyyy_mm_dd@),
        t.mmddyyyy_hyphenated@ == hyphens_for_underscores(t.mm_dd_yyyy@),
        t.ddmmyyyy_hyphenated@ == hyphens_for_underscores(t.dd_mm_yyyy@),
        t.year_quad@ == t.yyyymmdd@.subrange(0, 4),
        t.locale_date@ == t.mdy_format@,
        t.weekday_short@ == t.abbrev_weekday@,
        t.rfc3339_date_format@ == t.rfc3339_date_format_autosi@,
{
    lemma_pow10_values();
    lemma_epoch_day_bounds(i.year as int, i.month as int, i.day as int);
    lemma_iso_week_bounds(i.year as int, i.month as int, i.day as int);
    lemma_padded_value(iso_week_of(i), 2);
    lemma_padded_value(i.month as nat, 2);
    lemma_padded_value(i.day as nat, 2);
    lemma_padded_value(i.year as nat, 4);
    lemma_padded_value(ordinal_of(i), 3);
    lemma_padded_value(iso_year_of(i), 4);
    lemma_digit_value(iso_weekday_number(i));
    assert(t.iso_weekday@ =~= seq![crate::text::digit_char(iso_weekday_number(i))]);
    assert(t.iso_week_date_format@.subrange(9, 10) =~= t.iso_weekday@) by {
        reveal_strlit("-W");
        reveal_strlit("-");
    }
    assert(t.iso_year_week_format@ =~= t.iso_week_date_format@.subrange(0, 8)) by {
        reveal_strlit("-W");
        reveal_strlit("-");
    }
    assert(t.iso_year_full@ =~= t.iso_week_date_format@.subrange(0, 4));
    assert(t.year_quad@ =~= t.yyyymmdd@.subrange(0, 4));
    lemma_hyphens_for_underscores(year4(i), month2(i), day2(i));
    lemma_hyphens_for_underscores(month2(i), day2(i), year4(i));
    lemma_hyphens_for_underscores(day2(i), month2(i), year4(i));
}

/// Joining digit strings by underscores and then swapping in hyphens is joining them by hyphens.
proof fn lemma_hyphens_for_underscores(a: Seq<char>, b: Seq<char>, c: Seq<char>)
    requires
        all_digits(a),
        all_digits(b),
        all_digits(c),
    ensures
        hyphens_for_underscores(join3(a, b, c, "_"@)) == join3(a, b, c, "-"@),
{
    reveal_strlit("_");
    reveal_strlit("-");
    let u = join3(a, b, c, "_"@);
    let h = join3(a, b, c, "-"@);
    assert forall|k: int| 0 <= k < u.len() implies hyphens_for_underscores(u)[k] == h[k] by {
        if k < a.len() {
            assert(digit_value(a[k]) is Some);
        } else if k == a.len() {
        } else if k < a.len() + 1 + b.len() {
            assert(digit_value(b[k - a.len() - 1]) is Some);
        } else if k == a.len() + 1 + b.len() {
        } else {
            assert(digit_value(c[k - a.len() - 2 - b.len()]) is Some);
        }
    }
    assert(hyphens_for_underscores(u) =~= h);
}

/// The weight, in nanoseconds, of the last of `digits` fractional digits.
pub open spec fn digit_weight(digits: nat) -> nat {
    if digits == 3 {
        1_000_000
    } else if digits == 6 {
        1_000
    } else if digits == 9 {
        1
    } else {
        1_000_000_000
    }
}

/// Whether an RFC 3339 reader takes from `s` the instant `i`: its date and time
/// fields at their places, then `digits` fractional digits (none where `digits`
/// is 0) that give the nanoseconds of `i` cut to that precision, then a UTC
/// designator, `Z` or `+00:00`.
pub open spec fn reads_back(s: Seq<char>, i: Instant, digits: nat) -> bool {
    let frac_len: int = if digits == 0 {
        0
    } else {
        digits + 1
    } as int;
    let zone = s.subrange(19 + frac_len, s.len() as int);
    &&& s.len() >= 19 + frac_len
    &&& all_digits(s.subrange(0, 4)) && digits_value(s.subrange(0, 4)) == i.year
    &&& s[4] == '-'
    &&& all_digits(s.subrange(5, 7)) && digits_value(s.subrange(5, 7)) == i.month
    &&& s[7] == '-'
    &&& all_digits(s.subrange(8, 10)) && digits_value(s.subrange(8, 10)) == i.day
    &&& s[10] == 'T'
    &&& all_digits(s.subrange(11, 13)) && digits_value(s.subrange(11, 13)) == i.hour
    &&& s[13] == ':'
    &&& all_digits(s.subrange(14, 16)) && digits_value(s.subrange(14, 16)) == i.minute
    &&& s[16] == ':'
    &&& all_digits(s.subrange(17, 19)) && digits_value(s.subrange(17, 19)) == i.second
    &&& digits > 0 ==> s[19] == '.' && all_digits(s.subrange(20, 20 + digits as int))
        && digits_value(s.subrange(20, 20 + digits as int))
        * digit_weight(digits) == i.nanosecond as int - (i.nanosecond as nat % digit_weight(
        digits,
    )) as int
    &&& (zone == "Z"@ || zone == "+00:00"@)
}

/// Each RFC 3339 rendering reads back as its instant, to the precision it keeps.
proof fn lemma_rfc3339_reads_back(i: Instant, digits: nat, use_z: bool)
    requires
        i.wf(),
        digits == 0 || digits == 3 || digits == 6 || digits == 9,
    ensures
        reads_back(rfc3339(i, digits, use_z), i, digits),
{
    reveal_strlit("-");
    reveal_strlit(":");
    reveal_strlit("T");
    reveal_strlit(".");
    lemma_pow10_values();
    lemma_padded_value(i.year as nat, 4);
    lemma_padded_value(i.month as nat, 2);
    lemma_padded_value(i.day as nat, 2);
    lemma_padded_value(i.hour as nat, 2);
    lemma_padded_value(i.minute as nat, 2);
    lemma_padded_value(i.second as nat, 2);
    let s = rfc3339(i, digits, use_z);
    let base = rfc3339_base(i);
    assert(base.len() == 19);
    assert(s.subrange(0, 4) =~= year4(i));
    assert(s.subrange(5, 7) =~= month2(i));
    assert(s.subrange(8, 10) =~= day2(i));
    assert(s.subrange(11, 13) =~= hour2(i));
    assert(s.subrange(14, 16) =~= minute2(i));
    assert(s.subrange(17, 19) =~= second2(i));
    let n = i.nanosecond as nat;
    let frac = fraction(n, digits);
    let w = digit_weight(digits);
    if digits > 0 {
        let q = n / w;
        vstd::arithmetic::div_mod::lemma_fundamental_div_mod(n as int, w as int);
        assert(q * w == n - n % w);
        assert(q < vstd::arithmetic::power::pow(10, digits)) by {
            vstd::arithmetic::div_mod::lemma_div_is_ordered(n as int, 999_999_999, w as int);
        }
        lemma_padded_value(q, digits);
        assert(s.subrange(20, 20 + digits as int) =~= padded(q, digits));
    }
    assert(s.subrange(19 + frac.len() as int, s.len() as int) =~= zone(use_z));
}

/// Every RFC 3339 field of a rendered instant reads back as that instant: the
/// same date and time of day and zone offset zero; the fraction is the instant's
/// own cut to the field's precision, and exact where the field picks its digits.
pub proof fn lemma_rfc3339_variants_agree(t: Timestamp, i: Instant)
    requires
        i.wf(),
        t.renders(i),
    ensures
        reads_back(t.rfc3339_date_format@, i, auto_digits(i.nanosecond as nat)),
        reads_back(t.rfc3339_date_format_autosi@, i, auto_digits(i.nanosecond as nat)),
        reads_back(t.rfc3339_date_format_autosi_z@, i, auto_digits(i.nanosecond as nat)),
        i.nanosecond as nat % digit_weight(auto_digits(i.nanosecond as nat)) == 0,
        reads_back(t.rfc3339_date_format_secs@, i, 0),
        reads_back(t.rfc3339_date_format_secs_z@, i, 0),
        reads_back(t.rfc3339_date_format_millis@, i, 3),
        reads_back(t.rfc3339_date_format_millis_z@, i, 3),
        reads_back(t.rfc3339_date_format_micros@, i, 6),
        reads_back(t.rfc3339_date_format_micros_z@, i, 6),
        reads_back(t.rfc3339_date_format_nanos@, i, 9),
        reads_back(t.rfc3339_date_format_nanos_z@, i, 9),
{
    let a = auto_digits(i.nanosecond as nat);
    lemma_rfc3339_reads_back(i, a, false);
    lemma_rfc3339_reads_back(i, a, true);
    lemma_rfc3339_reads_back(i, 0, false);
    lemma_rfc3339_reads_back(i, 0, true);
    lemma_rfc3339_reads_back(i, 3, false);
    lemma_rfc3339_reads_back(i, 3, true);
    lemma_rfc3339_reads_back(i, 6, false);
    lemma_rfc3339_reads_back(i, 6, true);
    lemma_rfc3339_reads_back(i, 9, false);
    lemma_rfc3339_reads_back(i, 9, true);
}

/// Whether an RFC 2822 reader takes from `s` the instant `i`, to the second: the
/// abbreviated weekday of `i`, the day of the month in one or two digits, the
/// abbreviated month, the four-digit year, the time of day, and offset `+0000`.
pub open spec fn rfc2822_reads_back(s: Seq<char>, i: Instant) -> bool {
    let k: int = if i.day < 10 {
        1
    } else {
        2
    };
    &&& s.len() == 29 + k
    &&& s.subrange(0, 3) == short_weekday_name(weekday_of(i))
    &&& s.subrange(3, 5) == ", "@
    &&& all_digits(s.subrange(5, 5 + k)) && digits_value(s.subrange(5, 5 + k)) == i.day
    &&& s[5 + k] == ' '
    &&& s.subrange(6 + k, 9 + k) == short_month_name(i.month as nat)
    &&& s[9 + k] == ' '
    &&& all_digits(s.subrange(10 + k, 14 + k)) && digits_value(s.subrange(10 + k, 14 + k)) == i.year
    &&& s[14 + k] == ' '
    &&& all_digits(s.subrange(15 + k, 17 + k)) && digits_value(s.subrange(15 + k, 17 + k)) == i.hour
    &&& s[17 + k] == ':'
    &&& all_digits(s.subrange(18 + k, 20 + k)) && digits_value(s.subrange(18 + k, 20 + k)) == i.minute
    &&& s[20 + k] == ':'
    &&& all_digits(s.subrange(21 + k, 23 + k)) && digits_value(s.subrange(21 + k, 23 + k)) == i.second
    &&& s.subrange(23 + k, 29 + k) == " +0000"@
}

/// The RFC 2822 field of a rendered instant reads back as that instant, to the second.
pub proof fn lemma_rfc2822_reads_back(t: Timestamp, i: Instant)
    requires
        i.wf(),
        t.renders(i),
    ensures
        rfc2822_reads_back(t.rfc2822_date_format@, i),
{
    reveal_strlit(", ");
    reveal_strlit(" ");
    reveal_strlit(":");
    reveal_strlit(" +0000");
    lemma_pow10_values();
    lemma_decimal_value(i.day as nat);
    lemma_padded_value(i.year as nat, 4);
    lemma_padded_value(i.hour as nat, 2);
    lemma_padded_value(i.minute as nat, 2);
    lemma_padded_value(i.second as nat, 2);
    crate::text::lemma_weekday_name_starts_with_abbreviation(weekday_of(i));
    lemma_short_month_name_len(i.month as nat);
    let s = t.rfc2822_date_format@;
    let k: int = if i.day < 10 {
        1
    } else {
        2
    };
    assert(s.subrange(0, 3) =~= short_weekday_name(weekday_of(i)));
    assert(s.subrange(3, 5) =~= ", "@);
    assert(s.subrange(5, 5 + k) =~= decimal(i.day as nat));
    assert(s.subrange(6 + k, 9 + k) =~= short_month_name(i.month as nat));
    assert(s.subrange(10 + k, 14 + k) =~= year4(i));
    assert(s.subrange(15 + k, 17 + k) =~= hour2(i));
    assert(s.subrange(18 + k, 20 + k) =~= minute2(i));
    assert(s.subrange(21 + k, 23 + k) =~= second2(i));
    assert(s.subrange(23 + k, 29 + k) =~= " +0000"@);
}

/// Each month abbreviation has three letters.
proof fn lemma_short_month_name_len(m: nat)
    ensures
        short_month_name(m).len() == 3,
{
    reveal_strlit("Jan");
    reveal_strlit("Feb");
    reveal_strlit("Mar");
    reveal_strlit("Apr");
    reveal_strlit("May");
    reveal_strlit("Jun");
    reveal_strlit("Jul");
    reveal_strlit("Aug");
    reveal_strlit("Sep");
    reveal_strlit("Oct");
    reveal_strlit("Nov");
    reveal_strlit("Dec");
}

/// The rendering depends on the instant alone: two records of one instant are
/// equal field by field, so that rendering an instant twice gives the same text.
pub proof fn lemma_rendering_is_deterministic(t1: Timestamp, t2: Timestamp, i: Instant)
    requires
        i.wf(),
        t1.renders(i),
        t2.renders(i),
    ensures
        t1.same_fields(&t2),
{
}

} // verus!
