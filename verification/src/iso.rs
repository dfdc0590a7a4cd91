//! The parsed ISO 8601 values that are converted, and what each of them
//! denotes.

use vstd::prelude::*;
use crate::calendar::{
    day_number, days_before_year, iso_week_day_number, representable_day, valid_iso_week_date,
    valid_ordinal_date, valid_ymd, SECONDS_PER_DAY,
};
use crate::naive::{
    representable_second, FixedOffset, FixedOffsetDateTime, NaiveDate, NaiveDateTime, NaiveTime,
    TimeDelta, MAX_MILLISECONDS,
};

verus! {

/// The one way in which a conversion fails: the value has no counterpart.
#[derive(Clone, Copy, Debug, PartialEq, Eq)]
pub struct ConversionError;

/// A calendar day in one of the three ISO 8601 notations.
#[derive(Clone, Copy, Debug, PartialEq, Eq)]
pub enum Date {
    /// A calendar date: year, month from 1 and day of the month from 1.
    YMD { year: i32, month: u32, day: u32 },
    /// A week date: ISO year, week `ww` from 1 and weekday `d` from 1 for
    /// Monday to 7 for Sunday.
    Week { year: i32, ww: u32, d: u32 },
    /// An ordinal date: year and day of the year `ddd` from 1.
    Ordinal { year: i32, ddd: u32 },
}

impl Date {
    /// The number of the day that the date names, or `None` where it names
    /// no day of the calendar.
    pub open spec fn day_number(self) -> Option<int> {
        match self {
            Date::YMD { year, month, day } => if valid_ymd(year as int, month as int, day as int) {
                Some(day_number(year as int, month as int, day as int))
            } else {
                None
            },
            Date::Week { year, ww, d } => if valid_iso_week_date(year as int, ww as int, d as int) {
                Some(iso_week_day_number(year as int, ww as int, d as int))
            } else {
                None
            },
            Date::Ordinal { year, ddd } => if valid_ordinal_date(year as int, ddd as int) {
                Some(days_before_year(year as int) + ddd)
            } else {
                None
            },
        }
    }

    /// The date converted: the well-formed [`NaiveDate`] of the same day,
    /// where the date names a day and that day is representable.
    pub open spec fn to_naive(self) -> Option<NaiveDate> {
        match self.day_number() {
            Some(n) => if representable_day(n) {
                Some(NaiveDate::of_day_number(n))
            } else {
                None
            },
            None => None,
        }
    }
}

/// A time of day with the offset of its time zone from UTC.
///
/// The offset is split into hours and minutes, which both carry its sign. An
/// absent offset is written as zero hours and zero minutes.
#[derive(Clone, Copy, Debug, PartialEq, Eq)]
pub struct Time {
    pub hour: u32,
    pub minute: u32,
    pub second: u32,
    pub tz_offset_hours: i32,
    pub tz_offset_minutes: i32,
}

impl Time {
    /// The offset from UTC in seconds.
    pub open spec fn offset_seconds(self) -> int {
        self.tz_offset_hours * 3600 + self.tz_offset_minutes * 60
    }

    /// The time converted: hour, minute and second, where they lie on the
    /// clock face. The offset plays no part.
    pub open spec fn to_naive(self) -> Option<NaiveTime> {
        if self.hour < 24 && self.minute < 60 && self.second < 60 {
            Some(NaiveTime { hour: self.hour, minute: self.minute, second: self.second })
        } else {
            None
        }
    }

    /// The offset converted, where it is shorter than a day.
    pub open spec fn to_offset(self) -> Option<FixedOffset> {
        if -SECONDS_PER_DAY < self.offset_seconds() < SECONDS_PER_DAY {
            Some(FixedOffset { local_minus_utc: self.offset_seconds() as i32 })
        } else {
            None
        }
    }
}

/// A day together with a time of day and its offset from UTC.
#[derive(Clone, Copy, Debug, PartialEq, Eq)]
pub struct DateTime {
    pub date: Date,
    pub time: Time,
}

impl DateTime {
    /// The point in time converted: the day, the time and the offset each
    /// converted, where all three can be and the time on the UTC clock still
    /// falls on a representable day.
    pub open spec fn to_fixed_offset(self) -> Option<FixedOffsetDateTime> {
        match (self.time.to_offset(), self.time.to_naive(), self.date.to_naive()) {
            (Some(offset), Some(time), Some(date)) => {
                let local = NaiveDateTime { date, time };
                if representable_second(local.seconds() - offset.local_minus_utc) {
                    Some(FixedOffsetDateTime { local, offset })
                } else {
                    None
                }
            },
            _ => None,
        }
    }

    /// The local day and time of the point in time converted.
    pub open spec fn to_naive(self) -> Option<NaiveDateTime> {
        match self.to_fixed_offset() {
            Some(fixed) => Some(fixed.local),
            None => None,
        }
    }
}

/// A duration as an elapsed amount: whole seconds and the nanoseconds on top
/// of them.
#[derive(Clone, Copy, Debug, PartialEq, Eq)]
pub struct Duration {
    pub seconds: u64,
    pub nanoseconds: u32,
}

impl Duration {
    /// The length of the duration in nanoseconds.
    pub open spec fn total_nanoseconds(self) -> int {
        self.seconds * 1_000_000_000 + self.nanoseconds
    }

    /// The duration converted, where the nanoseconds stay below a second and
    /// the whole stays within [`MAX_MILLISECONDS`].
    pub open spec fn to_time_delta(self) -> Option<TimeDelta> {
        if self.nanoseconds < 1_000_000_000 && self.total_nanoseconds() <= MAX_MILLISECONDS
            * 1_000_000 {
            Some(TimeDelta { secs: self.seconds as i64, nanos: self.nanoseconds as i32 })
        } else {
            None
        }
    }
}

} // verus!
