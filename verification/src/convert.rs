//! The conversions: from each parsed value to the value it denotes, or to
//! [`ConversionError`] where it denotes none.

use vstd::prelude::*;
use vstd::std_specs::convert::TryFromSpecImpl;
use crate::bridge::{
    date_from_isoywd, date_from_ymd, date_from_yo, offset_east, resolve_local, time_delta_new,
    time_from_hms, weekday_from_u32,
};
use crate::calendar::{
    iso_week_day_number, lemma_iso_week_date_year, lemma_representable_ordinal,
    lemma_representable_years, representable_day, valid_iso_week_date, valid_ordinal_date,
    valid_ymd,
};
use crate::iso::{ConversionError, Date, DateTime, Duration, Time};
use crate::naive::{
    FixedOffset, FixedOffsetDateTime, NaiveDate, NaiveDateTime, NaiveTime, TimeDelta, Weekday,
    MAX_MILLISECONDS,
};

verus! {

impl Weekday {
    /// The day of the week with ISO number `n`: Monday for 1 up to Sunday for
    /// 7, and no day for any other number.
    pub fn from_iso_number(n: u32) -> (r: Option<Weekday>)
        ensures
            r.is_some() <==> 1 <= n <= 7,
            r matches Some(weekday) ==> weekday.iso_number() == n,
    {
        if n == 0 {
            None
        } else {
            weekday_from_u32(n - 1)
        }
    }
}

/// The date of an ISO week date, where the week exists in the ISO year and
/// the day is representable.
fn date_from_iso_week(year: i32, week: u32, weekday: Weekday) -> (r: Option<NaiveDate>)
    ensures
        r == (Date::Week { year, ww: week, d: weekday.iso_number() as u32 }).to_naive(),
        r matches Some(date) ==> date.wf() && date.day_number() == iso_week_day_number(
            year as int,
            week as int,
            weekday.iso_number(),
        ),
{
    if year == i32::MIN || year == i32::MAX {
        proof {
            let n = iso_week_day_number(year as int, week as int, weekday.iso_number());
            if valid_iso_week_date(year as int, week as int, weekday.iso_number())
                && representable_day(n) {
                lemma_iso_week_date_year(year as int, week as int, weekday.iso_number());
            }
        }
        None
    } else {
        let r = date_from_isoywd(year, week, weekday);
        proof {
            if let Some(date) = r {
                date.lemma_of_day_number();
            }
        }
        r
    }
}

impl TryFrom<Date> for NaiveDate {
    type Error = ConversionError;

    /// Converts a date in any of the three notations.
    ///
    /// The outcome is `Ok` exactly when the date names a day of the calendar
    /// and that day is representable, and then it is the well-formed date of
    /// that very day. A calendar date comes back with the year, month and day
    /// it was written with.
    fn try_from(iso: Date) -> (r: Result<NaiveDate, ConversionError>)
        ensures
            r.is_ok() <==> (iso.day_number() matches Some(n) && representable_day(n)),
            r matches Ok(date) ==> date.wf() && Some(date.day_number()) == iso.day_number(),
            r matches Ok(date) ==> (iso matches Date::YMD { year, month, day } ==> date
                == NaiveDate { year, month, day }),
    {
        let maybe = match iso {
            Date::YMD { year, month, day } => {
                let r = date_from_ymd(year, month, day);
                proof {
                    if valid_ymd(year as int, month as int, day as int) {
                        lemma_representable_years(year as int, month as int, day as int);
                    }
                }
                r
            },
            Date::Week { year, ww, d } => match Weekday::from_iso_number(d) {
                Some(weekday) => date_from_iso_week(year, ww, weekday),
                None => None,
            },
            Date::Ordinal { year, ddd } => {
                let r = date_from_yo(year, ddd);
                proof {
                    if valid_ordinal_date(year as int, ddd as int) {
                        lemma_representable_ordinal(year as int, ddd as int);
                    }
                }
                r
            },
        };
        match maybe {
            Some(date) => {
                proof {
                    date.lemma_of_day_number();
                }
                Ok(date)
            },
            None => Err(ConversionError),
        }
    }
}

impl TryFromSpecImpl<Date> for NaiveDate {
    open spec fn obeys_try_from_spec() -> bool {
        true
    }

    open spec fn try_from_spec(iso: Date) -> Result<NaiveDate, ConversionError> {
        match iso.to_naive() {
            Some(date) => Ok(date),
            None => Err(ConversionError),
        }
    }
}

impl Date {
    /// The date converted, or `None` where it names no representable day.
    pub fn into_naive(&self) -> (r: Option<NaiveDate>)
        ensures
            r == self.to_naive(),
            r.is_some() <==> (self.day_number() matches Some(n) && representable_day(n)),
            r matches Some(date) ==> date.wf() && Some(date.day_number()) == self.day_number(),
            r matches Some(date) ==> (*self matches Date::YMD { year, month, day } ==> date
                == NaiveDate { year, month, day }),
    {
        match NaiveDate::try_from(*self) {
            Ok(date) => Some(date),
            Err(_) => None,
        }
    }
}

impl TryFrom<Time> for NaiveTime {
    type Error = ConversionError;

    /// Converts the time of day; the offset is left aside.
    ///
    /// The outcome is `Ok` exactly when the hour is below 24 and minute and
    /// second are below 60, and then it holds these three numbers.
    fn try_from(iso: Time) -> (r: Result<NaiveTime, ConversionError>)
        ensures
            r.is_ok() <==> (iso.hour < 24 && iso.minute < 60 && iso.second < 60),
            r matches Ok(time) ==> time.wf() && Some(time) == iso.to_naive(),
    {
        match time_from_hms(iso.hour, iso.minute, iso.second) {
            Some(time) => Ok(time),
            None => Err(ConversionError),
        }
    }
}

impl TryFromSpecImpl<Time> for NaiveTime {
    open spec fn obeys_try_from_spec() -> bool {
        true
    }

    open spec fn try_from_spec(iso: Time) -> Result<NaiveTime, ConversionError> {
        match iso.to_naive() {
            Some(time) => Ok(time),
            None => Err(ConversionError),
        }
    }
}

impl Time {
    /// The time of day converted, or `None` where hour, minute or second is
    /// off the clock face.
    pub fn into_naive(self) -> (r: Option<NaiveTime>)
        ensures
            r == self.to_naive(),
            r matches Some(time) ==> time.wf(),
    {
        match NaiveTime::try_from(self) {
            Ok(time) => Some(time),
            Err(_) => None,
        }
    }

    /// The offset from UTC: the hours and the minutes of the offset in
    /// seconds, or `None` where that reaches a whole day in either direction.
    pub fn fixed_offset(&self) -> (r: Option<FixedOffset>)
        ensures
            r == self.to_offset(),
            r matches Some(offset) ==> offset.wf(),
    {
        let seconds: i64 = (self.tz_offset_hours as i64) * 3600 + (self.tz_offset_minutes as i64)
            * 60;
        if seconds < i32::MIN as i64 || seconds > i32::MAX as i64 {
            None
        } else {
            offset_east(seconds as i32)
        }
    }
}

impl TryFrom<DateTime> for FixedOffsetDateTime {
    type Error = ConversionError;

    /// Converts a day, a time of day and an offset into a point in time.
    ///
    /// The outcome is `Ok` exactly when the offset is shorter than a day, the
    /// time lies on the clock face, the date names a representable day and
    /// the time on the UTC clock still falls on a representable day. It then
    /// holds that day, that time and that offset.
    fn try_from(iso: DateTime) -> (r: Result<FixedOffsetDateTime, ConversionError>)
        ensures
            r.is_ok() <==> iso.to_fixed_offset().is_some(),
            r matches Ok(fixed) ==> fixed.wf() && Some(fixed.offset) == iso.time.to_offset()
                && Some(fixed.local.time) == iso.time.to_naive() && Some(fixed.local.date)
                == iso.date.to_naive(),
    {
        let offset = match iso.time.fixed_offset() {
            Some(offset) => offset,
            None => {
                return Err(ConversionError);
            },
        };
        let naive_time = match NaiveTime::try_from(iso.time) {
            Ok(time) => time,
            Err(e) => {
                return Err(e);
            },
        };
        let naive_date = match NaiveDate::try_from(iso.date) {
            Ok(date) => date,
            Err(e) => {
                return Err(e);
            },
        };
        let naive_date_time = naive_date.and_time(naive_time);
        match resolve_local(offset, naive_date_time) {
            Some(fixed) => Ok(fixed),
            None => Err(ConversionError),
        }
    }
}

impl TryFromSpecImpl<DateTime> for FixedOffsetDateTime {
    open spec fn obeys_try_from_spec() -> bool {
        true
    }

    open spec fn try_from_spec(iso: DateTime) -> Result<FixedOffsetDateTime, ConversionError> {
        match iso.to_fixed_offset() {
            Some(fixed) => Ok(fixed),
            None => Err(ConversionError),
        }
    }
}

impl DateTime {
    /// The point in time converted, or `None` where a part cannot be
    /// converted or the time on the UTC clock leaves the representable days.
    pub fn into_fixed_offset(self) -> (r: Option<FixedOffsetDateTime>)
        ensures
            r == self.to_fixed_offset(),
            r matches Some(fixed) ==> fixed.wf(),
    {
        match FixedOffsetDateTime::try_from(self) {
            Ok(fixed) => Some(fixed),
            Err(_) => None,
        }
    }

    /// The local day and time of the point in time converted. The offset is
    /// dropped only after the whole conversion has succeeded.
    pub fn into_naive(self) -> (r: Option<NaiveDateTime>)
        ensures
            r == self.to_naive(),
            r.is_some() <==> self.to_fixed_offset().is_some(),
            r matches Some(local) ==> local.wf(),
    {
        match self.into_fixed_offset() {
            Some(fixed) => Some(fixed.naive_local()),
            None => None,
        }
    }
}

impl TryFrom<Duration> for TimeDelta {
    type Error = ConversionError;

    /// Converts an elapsed amount into a span of time.
    ///
    /// The outcome is `Ok` exactly when the nanoseconds stay below a second
    /// and the whole amount stays within [`MAX_MILLISECONDS`], which keeps
    /// the seconds within `i64`. It then holds the same seconds and
    /// nanoseconds.
    fn try_from(iso: Duration) -> (r: Result<TimeDelta, ConversionError>)
        ensures
            r.is_ok() <==> iso.nanoseconds < 1_000_000_000 && iso.total_nanoseconds()
                <= MAX_MILLISECONDS * 1_000_000,
            r matches Ok(delta) ==> delta.wf() && delta.secs == iso.seconds && delta.nanos
                == iso.nanoseconds,
    {
        if iso.seconds > i64::MAX as u64 {
            Err(ConversionError)
        } else {
            match time_delta_new(iso.seconds as i64, iso.nanoseconds) {
                Some(delta) => Ok(delta),
                None => Err(ConversionError),
            }
        }
    }
}

impl TryFromSpecImpl<Duration> for TimeDelta {
    open spec fn obeys_try_from_spec() -> bool {
        true
    }

    open spec fn try_from_spec(iso: Duration) -> Result<TimeDelta, ConversionError> {
        match iso.to_time_delta() {
            Some(delta) => Ok(delta),
            None => Err(ConversionError),
        }
    }
}

} // verus!
