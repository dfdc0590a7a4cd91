//! The calls into `chrono`.
//!
//! Each function here makes one call into `chrono` and hands the outcome back
//! as plain numbers. Verus does not look into these bodies: what their
//! contracts say is taken from the documentation and source of `chrono` and is
//! the part of this crate that is assumed, not proved.

use vstd::prelude::*;
use chrono::{Datelike, TimeZone, Timelike};
use num_traits::FromPrimitive;
use crate::calendar::{
    iso_week_day_number, iso_weeks_in_year, representable_day, valid_ordinal_date, valid_ymd,
    MAX_YEAR, MIN_YEAR, SECONDS_PER_DAY,
};
use crate::naive::{
    representable_second, FixedOffset, FixedOffsetDateTime, NaiveDate, NaiveDateTime, NaiveTime,
    TimeDelta, Weekday, MAX_MILLISECONDS,
};

verus! {

/// `num_traits::FromPrimitive::from_u32` for `chrono::Weekday`.
///
/// `chrono` numbers the days from Monday as 0 up to Sunday as 6 and has no day
/// for any other number.
#[verifier::external_body]
pub(crate) fn weekday_from_u32(n: u32) -> (r: Option<Weekday>)
    ensures
        r == Weekday::from_days_since_monday(n as int),
{
    match chrono::Weekday::from_u32(n) {
        Some(chrono::Weekday::Mon) => Some(Weekday::Mon),
        Some(chrono::Weekday::Tue) => Some(Weekday::Tue),
        Some(chrono::Weekday::Wed) => Some(Weekday::Wed),
        Some(chrono::Weekday::Thu) => Some(Weekday::Thu),
        Some(chrono::Weekday::Fri) => Some(Weekday::Fri),
        Some(chrono::Weekday::Sat) => Some(Weekday::Sat),
        Some(chrono::Weekday::Sun) => Some(Weekday::Sun),
        None => None,
    }
}

/// `chrono::NaiveDate::from_ymd_opt`.
///
/// `chrono` has a date exactly for a day of the calendar whose year lies
/// between [`MIN_YEAR`] and [`MAX_YEAR`], and that date shows the year, month
/// and day it was made from.
#[verifier::external_body]
pub(crate) fn date_from_ymd(year: i32, month: u32, day: u32) -> (r: Option<NaiveDate>)
    ensures
        r.is_some() <==> (valid_ymd(year as int, month as int, day as int) && MIN_YEAR <= year
            <= MAX_YEAR),
        r.is_some() ==> r == Some(NaiveDate { year, month, day }),
{
    chrono::NaiveDate::from_ymd_opt(year, month, day).map(
        |d| NaiveDate { year: d.year(), month: d.month(), day: d.day() },
    )
}

/// `chrono::NaiveDate::from_isoywd_opt`.
///
/// `chrono` has a date exactly when the week exists in the ISO year and the
/// day that the week date names is representable; the date is that day, which
/// may lie in the calendar year before or after `year`. The two extreme values
/// of `year` are left out because `chrono` computes `year - 1` and `year + 1`.
#[verifier::external_body]
pub(crate) fn date_from_isoywd(year: i32, week: u32, weekday: Weekday) -> (r: Option<NaiveDate>)
    requires
        i32::MIN < year < i32::MAX,
    ensures
        r.is_some() <==> (1 <= week <= iso_weeks_in_year(year as int) && representable_day(
            iso_week_day_number(year as int, week as int, weekday.iso_number()),
        )),
        r matches Some(d) ==> (d.wf() && d.day_number() == iso_week_day_number(
            year as int,
            week as int,
            weekday.iso_number(),
        )),
{
    let weekday = match weekday {
        Weekday::Mon => chrono::Weekday::Mon,
        Weekday::Tue => chrono::Weekday::Tue,
        Weekday::Wed => chrono::Weekday::Wed,
        Weekday::Thu => chrono::Weekday::Thu,
        Weekday::Fri => chrono::Weekday::Fri,
        Weekday::Sat => chrono::Weekday::Sat,
        Weekday::Sun => chrono::Weekday::Sun,
    };
    chrono::NaiveDate::from_isoywd_opt(year, week, weekday).map(
        |d| NaiveDate { year: d.year(), month: d.month(), day: d.day() },
    )
}

/// `chrono::NaiveDate::from_yo_opt`.
///
/// `chrono` has a date exactly when the day of the year exists in `year` and
/// `year` lies between [`MIN_YEAR`] and [`MAX_YEAR`]; the date lies in `year`
/// at that position.
#[verifier::external_body]
pub(crate) fn date_from_yo(year: i32, day_of_year: u32) -> (r: Option<NaiveDate>)
    ensures
        r.is_some() <==> (valid_ordinal_date(year as int, day_of_year as int) && MIN_YEAR <= year
            <= MAX_YEAR),
        r matches Some(d) ==> (d.wf() && d.year == year && d.day_of_year() == day_of_year),
{
    chrono::NaiveDate::from_yo_opt(year, day_of_year).map(
        |d| NaiveDate { year: d.year(), month: d.month(), day: d.day() },
    )
}

/// `chrono::NaiveTime::from_hms_opt`.
///
/// `chrono` has a time exactly when the hour is below 24 and minute and second
/// are below 60, and that time shows the three numbers it was made from.
#[verifier::external_body]
pub(crate) fn time_from_hms(hour: u32, minute: u32, second: u32) -> (r: Option<NaiveTime>)
    ensures
        r.is_some() <==> (hour < 24 && minute < 60 && second < 60),
        r.is_some() ==> r == Some(NaiveTime { hour, minute, second }),
{
    chrono::NaiveTime::from_hms_opt(hour, minute, second).map(
        |t| NaiveTime { hour: t.hour(), minute: t.minute(), second: t.second() },
    )
}

/// `chrono::FixedOffset::east_opt`.
///
/// `chrono` has an offset exactly for a number of seconds strictly between
/// minus and plus one day, and that offset shows the number it was made from.
#[verifier::external_body]
pub(crate) fn offset_east(seconds: i32) -> (r: Option<FixedOffset>)
    ensures
        r.is_some() <==> (-SECONDS_PER_DAY < seconds < SECONDS_PER_DAY),
        r.is_some() ==> r == Some(FixedOffset { local_minus_utc: seconds }),
{
    chrono::FixedOffset::east_opt(seconds).map(
        |o| FixedOffset { local_minus_utc: o.local_minus_utc() },
    )
}

/// `chrono::TimeZone::from_local_datetime` of a `chrono::FixedOffset`, followed
/// by `single`.
///
/// A fixed offset maps a local time to exactly one point in time, which
/// `chrono` has exactly when the UTC time, the local time less the offset,
/// still falls on a representable day. That point shows the local day and
/// time and the offset it was made from.
#[verifier::external_body]
pub(crate) fn resolve_local(offset: FixedOffset, local: NaiveDateTime) -> (r: Option<
    FixedOffsetDateTime,
>)
    requires
        offset.wf(),
        local.wf(),
    ensures
        r.is_some() <==> representable_second(local.seconds() - offset.local_minus_utc),
        r.is_some() ==> r == Some(FixedOffsetDateTime { local, offset }),
{
    let (d, t) = (local.date, local.time);
    let zone = chrono::FixedOffset::east_opt(offset.local_minus_utc)?;
    let naive = chrono::NaiveDate::from_ymd_opt(d.year, d.month, d.day)?
        .and_hms_opt(t.hour, t.minute, t.second)?;
    let x = zone.from_local_datetime(&naive).single()?;
    let date = NaiveDate { year: x.year(), month: x.month(), day: x.day() };
    let time = NaiveTime { hour: x.hour(), minute: x.minute(), second: x.second() };
    let offset = FixedOffset { local_minus_utc: x.offset().local_minus_utc() };
    Some(FixedOffsetDateTime { local: NaiveDateTime { date, time }, offset })
}

/// `chrono::TimeDelta::new`, for a span that is not negative.
///
/// `chrono` has a span exactly when the nanoseconds stay below a second and
/// the whole span stays within [`MAX_MILLISECONDS`]; the span shows the
/// seconds and nanoseconds it was made from.
#[verifier::external_body]
pub(crate) fn time_delta_new(secs: i64, nanos: u32) -> (r: Option<TimeDelta>)
    requires
        secs >= 0,
    ensures
        r.is_some() <==> (nanos < 1_000_000_000 && secs * 1_000_000_000 + nanos
            <= MAX_MILLISECONDS * 1_000_000),
        r.is_some() ==> r == Some(TimeDelta { secs, nanos: nanos as i32 }),
{
    chrono::TimeDelta::new(secs, nanos).map(
        |d| TimeDelta { secs: d.num_seconds(), nanos: d.subsec_nanos() },
    )
}

} // verus!
