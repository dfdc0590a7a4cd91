use chrono::{Datelike, TimeZone, Timelike};
use iso8601_chrono::calendar::{MAX_YEAR, MIN_YEAR};
use iso8601_chrono::{
    ConversionError, Date, DateTime, FixedOffset, FixedOffsetDateTime, NaiveDate, NaiveDateTime,
    NaiveTime, Time,
};

fn time(hour: u32, minute: u32, second: u32) -> Time {
    Time { hour, minute, second, tz_offset_hours: 0, tz_offset_minutes: 0 }
}

fn offset(tz_offset_hours: i32, tz_offset_minutes: i32) -> Time {
    Time { hour: 12, minute: 0, second: 0, tz_offset_hours, tz_offset_minutes }
}

fn at(year: i32, month: u32, day: u32, time: Time) -> DateTime {
    DateTime { date: Date::YMD { year, month, day }, time }
}

#[test]
fn time_keeps_hour_minute_and_second() {
    let naive = NaiveTime::try_from(time(23, 40, 0)).unwrap();
    assert_eq!(naive.hour(), 23);
    assert_eq!(naive.minute(), 40);
    assert_eq!(naive.second(), 0);
    assert_eq!(time(0, 0, 0).into_naive(), Some(NaiveTime { hour: 0, minute: 0, second: 0 }));
    assert_eq!(time(23, 59, 59).into_naive(), Some(NaiveTime { hour: 23, minute: 59, second: 59 }));
}

#[test]
fn time_rejects_what_is_off_the_clock_face() {
    assert_eq!(time(24, 0, 0).into_naive(), None);
    assert_eq!(time(23, 60, 0).into_naive(), None);
    assert_eq!(time(23, 59, 60).into_naive(), None);
    assert_eq!(time(u32::MAX, 0, 0).into_naive(), None);
    assert_eq!(time(0, u32::MAX, 0).into_naive(), None);
    assert_eq!(time(0, 0, u32::MAX).into_naive(), None);
    assert_eq!(NaiveTime::try_from(time(24, 0, 0)), Err(ConversionError));
}

#[test]
fn time_conversion_leaves_the_offset_aside() {
    let with_bad_offset = Time { tz_offset_hours: 100, tz_offset_minutes: -7, ..time(8, 30, 15) };
    assert_eq!(
        with_bad_offset.into_naive(),
        Some(NaiveTime { hour: 8, minute: 30, second: 15 })
    );
}

#[test]
fn offset_is_hours_and_minutes_in_seconds() {
    assert_eq!(offset(0, 0).fixed_offset(), Some(FixedOffset { local_minus_utc: 0 }));
    assert_eq!(offset(1, 23).fixed_offset(), Some(FixedOffset { local_minus_utc: 4980 }));
    assert_eq!(offset(-1, -23).fixed_offset(), Some(FixedOffset { local_minus_utc: -4980 }));
    assert_eq!(offset(5, 30).fixed_offset(), Some(FixedOffset { local_minus_utc: 19_800 }));
    assert_eq!(offset(-9, -30).fixed_offset(), Some(FixedOffset { local_minus_utc: -34_200 }));
    assert_eq!(offset(0, 1).fixed_offset(), Some(FixedOffset { local_minus_utc: 60 }));
    assert_eq!(offset(1, -60).fixed_offset(), Some(FixedOffset { local_minus_utc: 0 }));
}

#[test]
fn offset_of_a_whole_day_is_rejected() {
    assert_eq!(offset(24, 0).fixed_offset(), None);
    assert_eq!(offset(-24, 0).fixed_offset(), None);
    assert_eq!(offset(23, 60).fixed_offset(), None);
    assert_eq!(offset(-23, -60).fixed_offset(), None);
    assert_eq!(offset(0, 1440).fixed_offset(), None);
    assert_eq!(offset(25, 0).fixed_offset(), None);
    assert_eq!(offset(23, 59).fixed_offset(), Some(FixedOffset { local_minus_utc: 86_340 }));
    assert_eq!(offset(-23, -59).fixed_offset(), Some(FixedOffset { local_minus_utc: -86_340 }));
    assert_eq!(at(2023, 2, 8, offset(24, 0)).into_fixed_offset(), None);
    assert_eq!(at(2023, 2, 8, offset(-24, 0)).into_fixed_offset(), None);
    assert_eq!(at(2023, 2, 8, offset(24, 0)).into_naive(), None);
    assert_eq!(
        FixedOffsetDateTime::try_from(at(2023, 2, 8, offset(24, 0))),
        Err(ConversionError)
    );
    assert!(at(2023, 2, 8, offset(23, 59)).into_fixed_offset().is_some());
    assert!(at(2023, 2, 8, offset(-23, -59)).into_fixed_offset().is_some());
}

#[test]
fn offset_beyond_the_machine_integers_is_rejected() {
    assert_eq!(offset(i32::MAX, i32::MAX).fixed_offset(), None);
    assert_eq!(offset(i32::MIN, i32::MIN).fixed_offset(), None);
    assert_eq!(offset(i32::MAX, 0).fixed_offset(), None);
    assert_eq!(offset(0, i32::MIN).fixed_offset(), None);
    assert_eq!(offset(596_524, 0).fixed_offset(), None);
    // Hours and minutes that cancel each other out are no overflow.
    assert_eq!(
        offset(1_000_000, -60_000_000).fixed_offset(),
        Some(FixedOffset { local_minus_utc: 0 })
    );
}

#[test]
fn date_time_keeps_local_day_time_and_offset() {
    let fixed = at(2023, 2, 8, Time { tz_offset_hours: -3, tz_offset_minutes: -30, ..time(1, 2, 3) })
        .into_fixed_offset()
        .unwrap();
    assert_eq!(
        fixed,
        FixedOffsetDateTime {
            local: NaiveDateTime {
                date: NaiveDate { year: 2023, month: 2, day: 8 },
                time: NaiveTime { hour: 1, minute: 2, second: 3 },
            },
            offset: FixedOffset { local_minus_utc: -12_600 },
        }
    );
    assert_eq!(fixed.naive_local().date().day(), 8);
    assert_eq!(fixed.naive_local().time().hour(), 1);
}

#[test]
fn date_time_fails_when_any_part_fails() {
    assert_eq!(at(2023, 2, 29, time(12, 0, 0)).into_fixed_offset(), None);
    assert_eq!(at(2023, 2, 8, time(24, 0, 0)).into_fixed_offset(), None);
    assert_eq!(at(2023, 2, 8, offset(24, 0)).into_fixed_offset(), None);
    let week = DateTime { date: Date::Week { year: 2023, ww: 53, d: 1 }, time: time(12, 0, 0) };
    assert_eq!(week.into_fixed_offset(), None);
    let ordinal = DateTime { date: Date::Ordinal { year: 2023, ddd: 366 }, time: time(12, 0, 0) };
    assert_eq!(ordinal.into_naive(), None);
}

#[test]
fn date_time_must_stay_representable_on_the_utc_clock() {
    // On the first day, an offset to the east moves the UTC time before it.
    let early = Time { tz_offset_hours: 1, tz_offset_minutes: 0, ..time(0, 59, 59) };
    assert_eq!(at(MIN_YEAR, 1, 1, early).into_fixed_offset(), None);
    assert_eq!(at(MIN_YEAR, 1, 1, early).into_naive(), None);
    let just_in = Time { tz_offset_hours: 1, tz_offset_minutes: 0, ..time(1, 0, 0) };
    assert!(at(MIN_YEAR, 1, 1, just_in).into_fixed_offset().is_some());
    let west = Time { tz_offset_hours: -23, tz_offset_minutes: -59, ..time(0, 0, 0) };
    assert!(at(MIN_YEAR, 1, 1, west).into_fixed_offset().is_some());
    assert!(at(MIN_YEAR, 1, 2, early).into_fixed_offset().is_some());

    // On the last day, an offset to the west moves the UTC time past it.
    let late = Time { tz_offset_hours: -1, tz_offset_minutes: 0, ..time(23, 0, 0) };
    assert_eq!(at(MAX_YEAR, 12, 31, late).into_fixed_offset(), None);
    let just_before = Time { tz_offset_hours: -1, tz_offset_minutes: 0, ..time(22, 59, 59) };
    assert!(at(MAX_YEAR, 12, 31, just_before).into_fixed_offset().is_some());
    let east = Time { tz_offset_hours: 23, tz_offset_minutes: 59, ..time(23, 59, 59) };
    assert!(at(MAX_YEAR, 12, 31, east).into_fixed_offset().is_some());
    assert!(at(MAX_YEAR, 12, 30, late).into_fixed_offset().is_some());
}

#[test]
fn every_offset_of_whole_minutes_within_a_day_is_kept() {
    for minutes in -1439..=1439 {
        let time = Time {
            tz_offset_hours: minutes / 60,
            tz_offset_minutes: minutes % 60,
            ..time(12, 0, 0)
        };
        let fixed = at(2023, 2, 8, time).into_fixed_offset().unwrap();
        assert_eq!(fixed.offset().local_minus_utc(), minutes * 60);
        assert_eq!((fixed.year(), fixed.month(), fixed.day()), (2023, 2, 8));
        assert_eq!((fixed.hour(), fixed.minute(), fixed.second()), (12, 0, 0));
    }
}

#[test]
fn chrono_resolves_the_same_point_in_time() {
    let iso = at(2023, 2, 8, Time { tz_offset_hours: 1, tz_offset_minutes: 23, ..time(23, 40, 0) });
    let fixed = iso.into_fixed_offset().unwrap();
    let there = chrono::FixedOffset::east_opt(fixed.offset().local_minus_utc())
        .unwrap()
        .with_ymd_and_hms(fixed.year(), fixed.month(), fixed.day(), 23, 40, 0)
        .single()
        .unwrap();
    assert_eq!((there.year(), there.month(), there.day()), (2023, 2, 8));
    assert_eq!((there.hour(), there.minute(), there.second()), (23, 40, 0));
    assert_eq!(there.offset().local_minus_utc(), 4980);
    assert_eq!(there.naive_utc().hour(), 22);
    assert_eq!(there.naive_utc().minute(), 17);
}
