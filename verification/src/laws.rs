//! What holds of the conversions on every input.
//!
//! Each function here is a theorem about the values that the conversions
//! yield, proved from the definitions in [`crate::iso`] and
//! [`crate::calendar`].

use vstd::prelude::*;
use crate::calendar::{
    day_number, is_leap_year, iso_week_day_number, lemma_day_of_second,
    lemma_days_before_year_monotonic, lemma_iso_weeks_in_year, lemma_ordinal_bounds,
    lemma_representable_ordinal, lemma_representable_range, lemma_representable_years,
    lemma_year_length, max_day_number, min_day_number, representable_day, valid_iso_week_date,
    valid_ordinal_date, valid_ymd, MAX_YEAR, MIN_YEAR, SECONDS_PER_DAY,
};
use crate::iso::{Date, DateTime};
use crate::naive::NaiveDate;

verus! {

/// A converted date is well formed and is the very day that the date names.
pub proof fn law_converted_date_is_the_named_day(iso: Date)
    ensures
        iso.to_naive().is_some() <==> (iso.day_number() matches Some(n) && representable_day(n)),
        iso.to_naive() matches Some(date) ==> date.wf() && Some(date.day_number())
            == iso.day_number(),
{
    if let Some(n) = iso.day_number() {
        if representable_day(n) {
            NaiveDate::lemma_day_exists(n);
        }
    }
}

/// In a representable year, a calendar date converts exactly when its month
/// and day exist, and then to the date with the same year, month and day.
pub proof fn law_calendar_date(year: i32, month: u32, day: u32)
    requires
        MIN_YEAR <= year <= MAX_YEAR,
    ensures
        valid_ymd(year as int, month as int, day as int) ==> (Date::YMD { year, month, day })
            .to_naive() == Some(NaiveDate { year, month, day }),
        !valid_ymd(year as int, month as int, day as int) ==> (Date::YMD { year, month, day })
            .to_naive().is_none(),
{
    if valid_ymd(year as int, month as int, day as int) {
        lemma_representable_years(year as int, month as int, day as int);
        (NaiveDate { year, month, day }).lemma_of_day_number();
    }
}

/// Outside the representable years no calendar date converts.
pub proof fn law_calendar_date_out_of_range(year: i32, month: u32, day: u32)
    requires
        year < MIN_YEAR || year > MAX_YEAR,
    ensures
        (Date::YMD { year, month, day }).to_naive().is_none(),
{
    if valid_ymd(year as int, month as int, day as int) {
        lemma_representable_years(year as int, month as int, day as int);
    }
}

/// A week date whose week and weekday exist and whose day is representable
/// converts to the same date as the calendar date of that day.
pub proof fn law_week_date(year: i32, week: u32, weekday: u32)
    requires
        valid_iso_week_date(year as int, week as int, weekday as int),
        representable_day(iso_week_day_number(year as int, week as int, weekday as int)),
    ensures
        (Date::Week { year, ww: week, d: weekday }).to_naive() matches Some(date) && date.wf()
            && date.day_number() == iso_week_day_number(year as int, week as int, weekday as int)
            && (Date::YMD { year: date.year, month: date.month, day: date.day }).to_naive()
            == Some(date),
{
    let iso = Date::Week { year, ww: week, d: weekday };
    law_converted_date_is_the_named_day(iso);
    let date = iso.to_naive().unwrap();
    law_calendar_date(date.year, date.month, date.day);
}

/// A week date and a calendar date that name the same representable day
/// convert to the same date.
pub proof fn law_week_date_agrees_with_calendar_date(
    year: i32,
    week: u32,
    weekday: u32,
    y: i32,
    m: u32,
    d: u32,
)
    requires
        valid_iso_week_date(year as int, week as int, weekday as int),
        valid_ymd(y as int, m as int, d as int),
        MIN_YEAR <= y <= MAX_YEAR,
        iso_week_day_number(year as int, week as int, weekday as int) == day_number(
            y as int,
            m as int,
            d as int,
        ),
    ensures
        (Date::Week { year, ww: week, d: weekday }).to_naive() == Some(
            NaiveDate { year: y, month: m, day: d },
        ),
        (Date::Week { year, ww: week, d: weekday }).to_naive() == (Date::YMD {
            year: y,
            month: m,
            day: d,
        }).to_naive(),
{
    lemma_representable_years(y as int, m as int, d as int);
    (NaiveDate { year: y, month: m, day: d }).lemma_of_day_number();
}

/// A week date with a weekday outside 1 to 7, or a week outside 1 to 53, does
/// not convert.
pub proof fn law_week_date_rejected(year: i32, week: u32, weekday: u32)
    requires
        weekday < 1 || weekday > 7 || week < 1 || week > 53,
    ensures
        (Date::Week { year, ww: week, d: weekday }).to_naive().is_none(),
{
    lemma_iso_weeks_in_year(year as int);
}

/// In a representable year, an ordinal date whose day exists in the year
/// converts to the same date as the calendar date at that position of the
/// year.
pub proof fn law_ordinal_date(year: i32, day_of_year: u32)
    requires
        MIN_YEAR <= year <= MAX_YEAR,
        valid_ordinal_date(year as int, day_of_year as int),
    ensures
        (Date::Ordinal { year, ddd: day_of_year }).to_naive() matches Some(date) && date.wf()
            && date.year == year && date.day_of_year() == day_of_year && (Date::YMD {
            year,
            month: date.month,
            day: date.day,
        }).to_naive() == Some(date),
{
    let iso = Date::Ordinal { year, ddd: day_of_year };
    lemma_representable_ordinal(year as int, day_of_year as int);
    law_converted_date_is_the_named_day(iso);
    let date = iso.to_naive().unwrap();
    lemma_ordinal_bounds(date.year as int, date.month as int, date.day as int);
    if date.year < year {
        lemma_year_length(date.year as int);
        lemma_days_before_year_monotonic(date.year + 1, year as int);
    } else if date.year > year {
        lemma_year_length(year as int);
        lemma_days_before_year_monotonic(year + 1, date.year as int);
    }
    law_calendar_date(date.year, date.month, date.day);
}

/// An ordinal date with day 0, with a day above 366, or with day 366 in a
/// year that is no leap year, does not convert.
pub proof fn law_ordinal_date_rejected(year: i32, day_of_year: u32)
    requires
        day_of_year < 1 || day_of_year > 366 || (day_of_year == 366 && !is_leap_year(year as int)),
    ensures
        (Date::Ordinal { year, ddd: day_of_year }).to_naive().is_none(),
{
}

/// The year, month and day of a well-formed date, written as a calendar
/// date, convert back to that date.
pub proof fn law_round_trip(date: NaiveDate)
    requires
        date.wf(),
    ensures
        (Date::YMD { year: date.year, month: date.month, day: date.day }).to_naive() == Some(date),
{
    law_calendar_date(date.year, date.month, date.day);
}

/// An offset of a whole day or more, east or west, does not convert, whatever
/// the date and the time are.
pub proof fn law_offset_of_a_day_rejected(iso: DateTime)
    requires
        iso.time.offset_seconds() <= -SECONDS_PER_DAY || iso.time.offset_seconds()
            >= SECONDS_PER_DAY,
    ensures
        iso.to_fixed_offset().is_none(),
        iso.to_naive().is_none(),
{
}

/// With an offset shorter than a day, a date-time whose time converts and
/// whose date names a day strictly between the first and the last
/// representable day converts, and keeps that date, that time and that
/// offset.
pub proof fn law_offset_within_a_day_accepted(iso: DateTime)
    requires
        -SECONDS_PER_DAY < iso.time.offset_seconds() < SECONDS_PER_DAY,
        iso.time.to_naive().is_some(),
        iso.date.day_number() matches Some(n) && min_day_number() < n < max_day_number(),
    ensures
        iso.to_fixed_offset() matches Some(fixed) && fixed.wf() && fixed.offset.local_minus_utc
            == iso.time.offset_seconds() && Some(fixed.local.time) == iso.time.to_naive() && Some(
            fixed.local.date,
        ) == iso.date.to_naive(),
{
    law_converted_date_is_the_named_day(iso.date);
    let n = iso.date.day_number().unwrap();
    let time = iso.time.to_naive().unwrap();
    lemma_day_of_second(n, time.seconds_from_midnight() - iso.time.offset_seconds());
}

/// On the first and on the last representable day, a date-time whose parts
/// convert is itself converted exactly when its time on the UTC clock does
/// not leave the representable days.
pub proof fn law_offset_at_the_ends(iso: DateTime)
    requires
        iso.time.to_offset().is_some(),
        iso.time.to_naive() matches Some(time),
        iso.date.day_number() matches Some(n) && (n == min_day_number() || n == max_day_number()),
    ensures
        iso.date.day_number() == Some(min_day_number()) ==> (iso.to_fixed_offset().is_some()
            <==> iso.time.offset_seconds() <= iso.time.to_naive().unwrap().seconds_from_midnight()),
        iso.date.day_number() == Some(max_day_number()) ==> (iso.to_fixed_offset().is_some()
            <==> iso.time.to_naive().unwrap().seconds_from_midnight() - iso.time.offset_seconds()
            < SECONDS_PER_DAY),
{
    law_converted_date_is_the_named_day(iso.date);
    let n = iso.date.day_number().unwrap();
    let time = iso.time.to_naive().unwrap();
    lemma_day_of_second(n, time.seconds_from_midnight() - iso.time.offset_seconds());
    lemma_representable_range();
}

} // verus!
