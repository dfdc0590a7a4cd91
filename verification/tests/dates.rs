use iso8601_chrono::calendar::{MAX_YEAR, MIN_YEAR};
use iso8601_chrono::{ConversionError, Date, NaiveDate, Weekday};

fn ymd(year: i32, month: u32, day: u32) -> Option<NaiveDate> {
    Date::YMD { year, month, day }.into_naive()
}

fn week(year: i32, ww: u32, d: u32) -> Option<NaiveDate> {
    Date::Week { year, ww, d }.into_naive()
}

fn ordinal(year: i32, ddd: u32) -> Option<NaiveDate> {
    Date::Ordinal { year, ddd }.into_naive()
}

fn date(year: i32, month: u32, day: u32) -> Option<NaiveDate> {
    Some(NaiveDate { year, month, day })
}

#[test]
fn calendar_date_keeps_year_month_day() {
    assert_eq!(ymd(2023, 2, 8), date(2023, 2, 8));
    assert_eq!(ymd(1, 1, 1), date(1, 1, 1));
    assert_eq!(ymd(0, 12, 31), date(0, 12, 31));
    assert_eq!(ymd(-4, 2, 29), date(-4, 2, 29));
    assert_eq!(ymd(9999, 12, 31), date(9999, 12, 31));
}

#[test]
fn calendar_date_rejects_days_that_do_not_exist() {
    assert_eq!(ymd(2023, 4, 31), None);
    assert_eq!(ymd(2023, 2, 29), None);
    assert_eq!(ymd(2024, 2, 30), None);
    assert_eq!(ymd(2023, 0, 1), None);
    assert_eq!(ymd(2023, 13, 1), None);
    assert_eq!(ymd(2023, 1, 0), None);
    assert_eq!(ymd(2023, 1, 32), None);
    assert_eq!(ymd(2023, u32::MAX, 1), None);
    assert_eq!(ymd(2023, 1, u32::MAX), None);
    assert_eq!(
        NaiveDate::try_from(Date::YMD { year: 2023, month: 4, day: 31 }),
        Err(ConversionError)
    );
}

#[test]
fn leap_day_exists_every_fourth_year_but_not_every_century() {
    assert_eq!(ymd(2024, 2, 29), date(2024, 2, 29));
    assert_eq!(ymd(2000, 2, 29), date(2000, 2, 29));
    assert_eq!(ymd(1900, 2, 29), None);
    assert_eq!(ymd(2100, 2, 29), None);
    assert_eq!(ymd(0, 2, 29), date(0, 2, 29));
    assert_eq!(ymd(-100, 2, 29), None);
    assert_eq!(ymd(-400, 2, 29), date(-400, 2, 29));
}

#[test]
fn every_month_has_its_length() {
    let lengths = [31, 28, 31, 30, 31, 30, 31, 31, 30, 31, 30, 31];
    for (index, length) in lengths.iter().enumerate() {
        let month = index as u32 + 1;
        assert_eq!(ymd(2023, month, *length), date(2023, month, *length));
        assert_eq!(ymd(2023, month, *length + 1), None);
    }
}

#[test]
fn calendar_date_ends_with_the_representable_years() {
    assert_eq!(MIN_YEAR, -262143);
    assert_eq!(MAX_YEAR, 262142);
    assert_eq!(ymd(MIN_YEAR, 1, 1), date(MIN_YEAR, 1, 1));
    assert_eq!(ymd(MIN_YEAR - 1, 12, 31), None);
    assert_eq!(ymd(MAX_YEAR, 12, 31), date(MAX_YEAR, 12, 31));
    assert_eq!(ymd(MAX_YEAR + 1, 1, 1), None);
    assert_eq!(ymd(i32::MIN, 1, 1), None);
    assert_eq!(ymd(i32::MAX, 12, 31), None);
}

#[test]
fn week_date_counts_weekdays_from_monday_as_one() {
    // 2023-W06 runs from Monday the 6th to Sunday the 12th of February.
    for d in 1..=7 {
        assert_eq!(week(2023, 6, d), date(2023, 2, 5 + d));
    }
}

#[test]
fn week_date_rejects_weekdays_outside_one_to_seven() {
    assert_eq!(week(2023, 6, 0), None);
    assert_eq!(week(2023, 6, 8), None);
    assert_eq!(week(2023, 6, u32::MAX), None);
    assert_eq!(NaiveDate::try_from(Date::Week { year: 2023, ww: 6, d: 0 }), Err(ConversionError));
}

#[test]
fn week_date_rejects_weeks_that_do_not_exist() {
    assert_eq!(week(2023, 0, 1), None);
    assert_eq!(week(2023, 54, 1), None);
    assert_eq!(week(2023, u32::MAX, 1), None);
    // 2023 has 52 weeks, 2020 and 2015 have 53.
    assert_eq!(week(2023, 52, 7), date(2023, 12, 31));
    assert_eq!(week(2023, 53, 1), None);
    assert_eq!(week(2020, 53, 5), date(2021, 1, 1));
    assert_eq!(week(2020, 54, 1), None);
    assert_eq!(week(2015, 53, 7), date(2016, 1, 3));
    assert_eq!(week(2014, 53, 1), None);
}

#[test]
fn week_one_holds_the_first_thursday() {
    // The first of January 2015 is a Thursday: week 1 opens in December.
    assert_eq!(week(2015, 1, 1), date(2014, 12, 29));
    assert_eq!(week(2015, 1, 4), date(2015, 1, 1));
    // The first of January 2016 is a Friday: it still belongs to 2015-W53.
    assert_eq!(week(2016, 1, 1), date(2016, 1, 4));
    // The first of January 2018 is a Monday.
    assert_eq!(week(2018, 1, 1), date(2018, 1, 1));
    // The first of January 2023 is a Sunday.
    assert_eq!(week(2023, 1, 1), date(2023, 1, 2));
    assert_eq!(week(2022, 52, 7), date(2023, 1, 1));
}

#[test]
fn week_date_ends_with_the_representable_days() {
    // The first of January of the first year is a Thursday.
    assert_eq!(week(MIN_YEAR, 1, 3), None);
    assert_eq!(week(MIN_YEAR, 1, 4), date(MIN_YEAR, 1, 1));
    assert_eq!(week(MIN_YEAR - 1, 52, 7), None);
    assert_eq!(week(MIN_YEAR - 1, 53, 7), None);
    // The last day of the last year is a Monday and opens week 1 of the next.
    assert_eq!(week(MAX_YEAR + 1, 1, 1), date(MAX_YEAR, 12, 31));
    assert_eq!(week(MAX_YEAR + 1, 1, 2), None);
    assert_eq!(week(MAX_YEAR, 52, 7), date(MAX_YEAR, 12, 30));
    assert_eq!(week(MAX_YEAR, 53, 1), None);
    assert_eq!(week(MAX_YEAR + 2, 1, 1), None);
    assert_eq!(week(MIN_YEAR - 2, 52, 1), None);
    for d in 0..=8 {
        for ww in [0, 1, 2, 52, 53, 54] {
            assert_eq!(week(i32::MIN, ww, d), None);
            assert_eq!(week(i32::MIN + 1, ww, d), None);
            assert_eq!(week(i32::MAX, ww, d), None);
            assert_eq!(week(i32::MAX - 1, ww, d), None);
        }
    }
}

#[test]
fn ordinal_date_counts_days_of_the_year_from_one() {
    assert_eq!(ordinal(2023, 1), date(2023, 1, 1));
    assert_eq!(ordinal(2023, 39), date(2023, 2, 8));
    assert_eq!(ordinal(2023, 59), date(2023, 2, 28));
    assert_eq!(ordinal(2023, 60), date(2023, 3, 1));
    assert_eq!(ordinal(2024, 60), date(2024, 2, 29));
    assert_eq!(ordinal(2024, 61), date(2024, 3, 1));
    assert_eq!(ordinal(2023, 365), date(2023, 12, 31));
    assert_eq!(ordinal(2024, 366), date(2024, 12, 31));
}

#[test]
fn ordinal_date_rejects_days_outside_the_year() {
    assert_eq!(ordinal(2023, 0), None);
    assert_eq!(ordinal(2023, 366), None);
    assert_eq!(ordinal(2023, 367), None);
    assert_eq!(ordinal(2024, 0), None);
    assert_eq!(ordinal(2024, 367), None);
    assert_eq!(ordinal(1900, 366), None);
    assert_eq!(ordinal(2000, 366), date(2000, 12, 31));
    assert_eq!(ordinal(2023, u32::MAX), None);
    assert_eq!(NaiveDate::try_from(Date::Ordinal { year: 2023, ddd: 0 }), Err(ConversionError));
}

#[test]
fn ordinal_date_ends_with_the_representable_years() {
    assert_eq!(ordinal(MIN_YEAR, 1), date(MIN_YEAR, 1, 1));
    assert_eq!(ordinal(MIN_YEAR - 1, 365), None);
    assert_eq!(ordinal(MAX_YEAR, 365), date(MAX_YEAR, 12, 31));
    assert_eq!(ordinal(MAX_YEAR + 1, 1), None);
    assert_eq!(ordinal(i32::MIN, 1), None);
    assert_eq!(ordinal(i32::MAX, 1), None);
}

#[test]
fn converted_date_converts_back_to_itself() {
    let inputs = [
        Date::YMD { year: 2023, month: 2, day: 8 },
        Date::Week { year: 2015, ww: 1, d: 1 },
        Date::Week { year: 2020, ww: 53, d: 7 },
        Date::Ordinal { year: 2024, ddd: 366 },
        Date::Ordinal { year: -44, ddd: 74 },
        Date::YMD { year: MIN_YEAR, month: 1, day: 1 },
        Date::YMD { year: MAX_YEAR, month: 12, day: 31 },
    ];
    for iso in inputs {
        let naive = iso.into_naive().unwrap();
        let again = Date::YMD { year: naive.year(), month: naive.month(), day: naive.day() };
        assert_eq!(again.into_naive(), Some(naive));
    }
}

#[test]
fn weekday_has_iso_numbers_one_to_seven() {
    assert_eq!(Weekday::from_iso_number(0), None);
    assert_eq!(Weekday::from_iso_number(1), Some(Weekday::Mon));
    assert_eq!(Weekday::from_iso_number(2), Some(Weekday::Tue));
    assert_eq!(Weekday::from_iso_number(3), Some(Weekday::Wed));
    assert_eq!(Weekday::from_iso_number(4), Some(Weekday::Thu));
    assert_eq!(Weekday::from_iso_number(5), Some(Weekday::Fri));
    assert_eq!(Weekday::from_iso_number(6), Some(Weekday::Sat));
    assert_eq!(Weekday::from_iso_number(7), Some(Weekday::Sun));
    assert_eq!(Weekday::from_iso_number(8), None);
    assert_eq!(Weekday::from_iso_number(u32::MAX), None);
}

#[test]
fn date_knows_its_place_in_year_week_and_count() {
    let day = NaiveDate { year: 2023, month: 2, day: 8 };
    assert_eq!(day.ordinal(), 39);
    assert_eq!(day.weekday(), Weekday::Wed);
    assert_eq!(day.num_days_from_ce(), 738_559);
    let first = NaiveDate { year: 1, month: 1, day: 1 };
    assert_eq!(first.ordinal(), 1);
    assert_eq!(first.weekday(), Weekday::Mon);
    assert_eq!(first.num_days_from_ce(), 1);
    let before = NaiveDate { year: 0, month: 12, day: 31 };
    assert_eq!(before.ordinal(), 366);
    assert_eq!(before.weekday(), Weekday::Sun);
    assert_eq!(before.num_days_from_ce(), 0);
    let earliest = NaiveDate { year: MIN_YEAR, month: 1, day: 1 };
    assert_eq!(earliest.num_days_from_ce(), -95_746_129);
    assert_eq!(earliest.weekday(), Weekday::Thu);
    let latest = NaiveDate { year: MAX_YEAR, month: 12, day: 31 };
    assert_eq!(latest.num_days_from_ce(), 95_745_399);
    assert_eq!(latest.weekday(), Weekday::Mon);
    assert_eq!(latest.ordinal(), 365);
}
