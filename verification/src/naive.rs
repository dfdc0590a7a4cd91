//! The values that a conversion yields.
//!
//! Each type holds, as plain numbers, what the `chrono` type of the same name
//! shows through its accessors. A value is well formed (`wf`) when `chrono`
//! has a value with these numbers.

use vstd::prelude::*;
use crate::calendar::{
    day_number, days_before, days_before_month_of, days_in_year, iso_weekday,
    lemma_day_number_injective, lemma_next_day, lemma_ordinal_bounds, lemma_representable_range,
    lemma_representable_years, min_day_number, ordinal, representable_day, valid_ymd, MAX_YEAR,
    MIN_YEAR, SECONDS_PER_DAY,
};

verus! {

/// A day of the week.
#[derive(Clone, Copy, Debug, PartialEq, Eq)]
pub enum Weekday {
    Mon,
    Tue,
    Wed,
    Thu,
    Fri,
    Sat,
    Sun,
}

impl Weekday {
    /// The ISO number of the day: 1 for Monday up to 7 for Sunday.
    pub open spec fn iso_number(self) -> int {
        match self {
            Weekday::Mon => 1,
            Weekday::Tue => 2,
            Weekday::Wed => 3,
            Weekday::Thu => 4,
            Weekday::Fri => 5,
            Weekday::Sat => 6,
            Weekday::Sun => 7,
        }
    }

    /// The day that lies `n` days after a Monday, for `n` from 0 to 6.
    pub open spec fn from_days_since_monday(n: int) -> Option<Weekday> {
        if n == 0 {
            Some(Weekday::Mon)
        } else if n == 1 {
            Some(Weekday::Tue)
        } else if n == 2 {
            Some(Weekday::Wed)
        } else if n == 3 {
            Some(Weekday::Thu)
        } else if n == 4 {
            Some(Weekday::Fri)
        } else if n == 5 {
            Some(Weekday::Sat)
        } else if n == 6 {
            Some(Weekday::Sun)
        } else {
            None
        }
    }
}

/// A day of the proleptic Gregorian calendar, without a time zone.
#[derive(Clone, Copy, Debug, PartialEq, Eq)]
pub struct NaiveDate {
    pub year: i32,
    pub month: u32,
    pub day: u32,
}

impl NaiveDate {
    /// The date is a day of the calendar in a representable year.
    pub open spec fn wf(&self) -> bool {
        &&& valid_ymd(self.year as int, self.month as int, self.day as int)
        &&& MIN_YEAR <= self.year <= MAX_YEAR
    }

    /// The number of the day, counted from 0001-01-01 as day 1.
    pub open spec fn day_number(&self) -> int {
        day_number(self.year as int, self.month as int, self.day as int)
    }

    /// The position of the day within its year, counted from 1.
    pub open spec fn day_of_year(&self) -> int {
        ordinal(self.year as int, self.month as int, self.day as int)
    }

    /// The well-formed date with day number `n`, where there is one.
    pub open spec fn of_day_number(n: int) -> NaiveDate {
        choose|d: NaiveDate| d.wf() && d.day_number() == n
    }

    /// Every representable day has a well-formed date.
    pub proof fn lemma_day_exists(n: int)
        requires
            representable_day(n),
        ensures
            NaiveDate::of_day_number(n).wf(),
            NaiveDate::of_day_number(n).day_number() == n,
        decreases n - min_day_number(),
    {
        if n == min_day_number() {
            let first = NaiveDate { year: MIN_YEAR, month: 1, day: 1 };
            assert(first.wf() && first.day_number() == n);
        } else {
            NaiveDate::lemma_day_exists(n - 1);
            let prev = NaiveDate::of_day_number(n - 1);
            let next = lemma_next_day(prev.year as int, prev.month as int, prev.day as int);
            lemma_representable_years(next.0, next.1, next.2);
            let date = NaiveDate { year: next.0 as i32, month: next.1 as u32, day: next.2 as u32 };
            assert(date.wf() && date.day_number() == n);
        }
    }

    /// A well-formed date is the only one with its day number.
    pub proof fn lemma_of_day_number(self)
        requires
            self.wf(),
        ensures
            NaiveDate::of_day_number(self.day_number()) == self,
    {
        let other = NaiveDate::of_day_number(self.day_number());
        assert(other.wf() && other.day_number() == self.day_number());
        lemma_day_number_injective(
            self.year as int,
            self.month as int,
            self.day as int,
            other.year as int,
            other.month as int,
            other.day as int,
        );
    }
}

impl NaiveDate {
    /// The year.
    pub fn year(&self) -> (r: i32)
        ensures
            r == self.year,
    {
        self.year
    }

    /// The month, from 1 for January.
    pub fn month(&self) -> (r: u32)
        ensures
            r == self.month,
    {
        self.month
    }

    /// The day of the month, from 1.
    pub fn day(&self) -> (r: u32)
        ensures
            r == self.day,
    {
        self.day
    }

    /// The position of the day within its year, counted from 1.
    pub fn ordinal(&self) -> (r: u32)
        requires
            self.wf(),
        ensures
            r == self.day_of_year(),
            1 <= r <= days_in_year(self.year as int),
    {
        proof {
            lemma_ordinal_bounds(self.year as int, self.month as int, self.day as int);
        }
        days_before_month_of(self.year, self.month) + self.day
    }

    /// The number of the day, counted from 0001-01-01 as day 1.
    pub fn num_days_from_ce(&self) -> (r: i32)
        requires
            self.wf(),
        ensures
            r == self.day_number(),
    {
        proof {
            lemma_representable_years(self.year as int, self.month as int, self.day as int);
            lemma_representable_range();
        }
        let ordinal: u32 = self.ordinal();
        days_before(self.year) + ordinal as i32
    }

    /// The day of the week.
    pub fn weekday(&self) -> (r: Weekday)
        requires
            self.wf(),
        ensures
            r.iso_number() == iso_weekday(self.day_number()),
    {
        proof {
            lemma_representable_years(self.year as int, self.month as int, self.day as int);
            lemma_representable_range();
        }
        let since_monday: i32 = ((self.num_days_from_ce() - 1) % 7 + 7) % 7;
        match since_monday {
            0 => Weekday::Mon,
            1 => Weekday::Tue,
            2 => Weekday::Wed,
            3 => Weekday::Thu,
            4 => Weekday::Fri,
            5 => Weekday::Sat,
            _ => Weekday::Sun,
        }
    }

    /// The date together with a time of day.
    pub fn and_time(&self, time: NaiveTime) -> (r: NaiveDateTime)
        ensures
            r == (NaiveDateTime { date: *self, time }),
    {
        NaiveDateTime { date: *self, time }
    }
}

/// A time of day, without a time zone.
#[derive(Clone, Copy, Debug, PartialEq, Eq)]
pub struct NaiveTime {
    pub hour: u32,
    pub minute: u32,
    pub second: u32,
}

impl NaiveTime {
    /// Hour, minute and second lie on the clock face.
    pub open spec fn wf(&self) -> bool {
        self.hour < 24 && self.minute < 60 && self.second < 60
    }

    /// The seconds that have passed since midnight.
    pub open spec fn seconds_from_midnight(&self) -> int {
        self.hour * 3600 + self.minute * 60 + self.second
    }
}

impl NaiveTime {
    /// The hour, from 0 to 23.
    pub fn hour(&self) -> (r: u32)
        ensures
            r == self.hour,
    {
        self.hour
    }

    /// The minute, from 0 to 59.
    pub fn minute(&self) -> (r: u32)
        ensures
            r == self.minute,
    {
        self.minute
    }

    /// The second, from 0 to 59.
    pub fn second(&self) -> (r: u32)
        ensures
            r == self.second,
    {
        self.second
    }
}

/// A day and a time of day, without a time zone.
#[derive(Clone, Copy, Debug, PartialEq, Eq)]
pub struct NaiveDateTime {
    pub date: NaiveDate,
    pub time: NaiveTime,
}

impl NaiveDateTime {
    /// Both parts are well formed.
    pub open spec fn wf(&self) -> bool {
        self.date.wf() && self.time.wf()
    }

    /// The seconds from the midnight that opens 0001-01-01, shifted so that
    /// the midnight that opens day `n` counts `n * 86400`.
    pub open spec fn seconds(&self) -> int {
        self.date.day_number() * SECONDS_PER_DAY + self.time.seconds_from_midnight()
    }
}

impl NaiveDateTime {
    /// The day.
    pub fn date(&self) -> (r: NaiveDate)
        ensures
            r == self.date,
    {
        self.date
    }

    /// The time of day.
    pub fn time(&self) -> (r: NaiveTime)
        ensures
            r == self.time,
    {
        self.time
    }
}

/// A fixed distance of local time from UTC.
#[derive(Clone, Copy, Debug, PartialEq, Eq)]
pub struct FixedOffset {
    /// Seconds to add to UTC to get the local time; positive east of Greenwich.
    pub local_minus_utc: i32,
}

impl FixedOffset {
    /// The offset is shorter than a day, in either direction.
    pub open spec fn wf(&self) -> bool {
        -SECONDS_PER_DAY < self.local_minus_utc < SECONDS_PER_DAY
    }
}

impl FixedOffset {
    /// The seconds to add to UTC to get the local time.
    pub fn local_minus_utc(&self) -> (r: i32)
        ensures
            r == self.local_minus_utc,
    {
        self.local_minus_utc
    }
}

/// A point in time, held as the local day and time together with the offset
/// of that local time from UTC.
#[derive(Clone, Copy, Debug, PartialEq, Eq)]
pub struct FixedOffsetDateTime {
    pub local: NaiveDateTime,
    pub offset: FixedOffset,
}

impl FixedOffsetDateTime {
    /// The same point in time on the UTC clock, in the unit of
    /// [`NaiveDateTime::seconds`].
    pub open spec fn utc_seconds(&self) -> int {
        self.local.seconds() - self.offset.local_minus_utc
    }

    /// The parts are well formed and the UTC day is representable.
    pub open spec fn wf(&self) -> bool {
        &&& self.local.wf()
        &&& self.offset.wf()
        &&& representable_second(self.utc_seconds())
    }
}

impl FixedOffsetDateTime {
    /// The local day and time, without the offset.
    pub fn naive_local(&self) -> (r: NaiveDateTime)
        ensures
            r == self.local,
    {
        self.local
    }

    /// The offset of the local time from UTC.
    pub fn offset(&self) -> (r: FixedOffset)
        ensures
            r == self.offset,
    {
        self.offset
    }

    /// The year of the local day.
    pub fn year(&self) -> (r: i32)
        ensures
            r == self.local.date.year,
    {
        self.local.date.year
    }

    /// The month of the local day, from 1 for January.
    pub fn month(&self) -> (r: u32)
        ensures
            r == self.local.date.month,
    {
        self.local.date.month
    }

    /// The day of the month of the local day, from 1.
    pub fn day(&self) -> (r: u32)
        ensures
            r == self.local.date.day,
    {
        self.local.date.day
    }

    /// The hour of the local time, from 0 to 23.
    pub fn hour(&self) -> (r: u32)
        ensures
            r == self.local.time.hour,
    {
        self.local.time.hour
    }

    /// The minute of the local time, from 0 to 59.
    pub fn minute(&self) -> (r: u32)
        ensures
            r == self.local.time.minute,
    {
        self.local.time.minute
    }

    /// The second of the local time, from 0 to 59.
    pub fn second(&self) -> (r: u32)
        ensures
            r == self.local.time.second,
    {
        self.local.time.second
    }
}

/// Whether a second, in the unit of [`NaiveDateTime::seconds`], falls on a
/// representable day.
pub open spec fn representable_second(s: int) -> bool {
    representable_day(s / (SECONDS_PER_DAY as int))
}

/// The largest number of milliseconds that a [`TimeDelta`] can span.
pub const MAX_MILLISECONDS: i64 = 9_223_372_036_854_775_807;

/// A span of time of nanosecond precision: `secs` whole seconds and `nanos`
/// nanoseconds on top of them.
#[derive(Clone, Copy, Debug, PartialEq, Eq)]
pub struct TimeDelta {
    pub secs: i64,
    pub nanos: i32,
}

impl TimeDelta {
    /// The length of the span in nanoseconds.
    pub open spec fn total_nanoseconds(&self) -> int {
        self.secs * 1_000_000_000 + self.nanos
    }

    /// The nanoseconds stay below a second and the span stays within
    /// [`MAX_MILLISECONDS`] in either direction.
    pub open spec fn wf(&self) -> bool {
        &&& 0 <= self.nanos < 1_000_000_000
        &&& -MAX_MILLISECONDS * 1_000_000 <= self.total_nanoseconds() <= MAX_MILLISECONDS
            * 1_000_000
    }
}

impl TimeDelta {
    /// The whole seconds of the span, rounded towards zero.
    pub open spec fn whole_seconds(&self) -> int {
        if self.secs < 0 && self.nanos > 0 {
            self.secs + 1
        } else {
            self.secs as int
        }
    }

    /// The whole seconds of the span, rounded towards zero.
    pub fn num_seconds(&self) -> (r: i64)
        ensures
            r == self.whole_seconds(),
    {
        if self.secs < 0 && self.nanos > 0 {
            self.secs + 1
        } else {
            self.secs
        }
    }

    /// The whole minutes of the span, rounded towards zero.
    pub fn num_minutes(&self) -> (r: i64)
        ensures
            r == truncated_quotient(self.whole_seconds(), 60),
    {
        self.num_seconds() / 60
    }

    /// The whole hours of the span, rounded towards zero.
    pub fn num_hours(&self) -> (r: i64)
        ensures
            r == truncated_quotient(self.whole_seconds(), 3600),
    {
        self.num_seconds() / 3600
    }

    /// The whole days of the span, rounded towards zero.
    pub fn num_days(&self) -> (r: i64)
        ensures
            r == truncated_quotient(self.whole_seconds(), 86400),
    {
        self.num_seconds() / 86400
    }

    /// The whole weeks of the span, rounded towards zero.
    pub fn num_weeks(&self) -> (r: i64)
        ensures
            r == truncated_quotient(self.whole_seconds(), 604800),
    {
        self.num_days() / 7
    }
}

/// The quotient of `a` by a positive `b`, rounded towards zero.
pub open spec fn truncated_quotient(a: int, b: int) -> int {
    if a >= 0 {
        a / b
    } else {
        -((-a) / b)
    }
}

} // verus!
