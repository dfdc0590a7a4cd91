//! The proleptic Gregorian calendar as mathematics.
//!
//! Days are counted from 0001-01-01, which is day 1 and a Monday. All the
//! contracts of this crate are stated over the functions of this module.

use vstd::prelude::*;

verus! {

/// The first year that has a representable day.
pub const MIN_YEAR: i32 = -262143;

/// The last year that has a representable day.
pub const MAX_YEAR: i32 = 262142;

/// Seconds in a civil day.
pub const SECONDS_PER_DAY: i32 = 86400;

/// Whether `year` has a 29th of February.
pub open spec fn is_leap_year(year: int) -> bool {
    year % 4 == 0 && (year % 100 != 0 || year % 400 == 0)
}

/// The number of days of `year`.
pub open spec fn days_in_year(year: int) -> int {
    if is_leap_year(year) {
        366
    } else {
        365
    }
}

/// The number of days of `month` in `year`, for a month from 1 to 12.
pub open spec fn days_in_month(year: int, month: int) -> int {
    if month == 2 {
        if is_leap_year(year) {
            29
        } else {
            28
        }
    } else if month == 4 || month == 6 || month == 9 || month == 11 {
        30
    } else {
        31
    }
}

/// Whether `year`-`month`-`day` is a day of the calendar.
pub open spec fn valid_ymd(year: int, month: int, day: int) -> bool {
    1 <= month <= 12 && 1 <= day <= days_in_month(year, month)
}

/// The number of days of `year` that lie before the first of `month`.
pub open spec fn days_before_month(year: int, month: int) -> int
    decreases month,
{
    if month <= 1 {
        0
    } else {
        days_before_month(year, month - 1) + days_in_month(year, month - 1)
    }
}

/// The number of days from 0001-01-01 up to, and without, the first of
/// January of `year`. It is negative for years before year 1.
#[verifier::opaque]
pub open spec fn days_before_year(year: int) -> int {
    let y = year - 1;
    365 * y + y / 4 - y / 100 + y / 400
}

/// The position of a day within its year, counted from 1.
pub open spec fn ordinal(year: int, month: int, day: int) -> int {
    days_before_month(year, month) + day
}

/// The number of a day, counted from 0001-01-01 as day 1.
pub open spec fn day_number(year: int, month: int, day: int) -> int {
    days_before_year(year) + ordinal(year, month, day)
}

/// The number of the first representable day, the first of January of
/// [`MIN_YEAR`].
pub open spec fn min_day_number() -> int {
    day_number(MIN_YEAR as int, 1, 1)
}

/// The number of the last representable day, the 31st of December of
/// [`MAX_YEAR`].
pub open spec fn max_day_number() -> int {
    day_number(MAX_YEAR as int, 12, 31)
}

/// Whether the day with number `n` is representable.
pub open spec fn representable_day(n: int) -> bool {
    min_day_number() <= n <= max_day_number()
}

/// The ISO weekday of the day with number `n`: 1 for Monday up to 7 for
/// Sunday.
pub open spec fn iso_weekday(n: int) -> int {
    (n - 1) % 7 + 1
}

/// The number of the first Thursday of `year`.
pub open spec fn first_thursday(year: int) -> int {
    let jan1 = day_number(year, 1, 1);
    jan1 + (4 - iso_weekday(jan1)) % 7
}

/// The number of the Monday that opens week 1 of the ISO year `year`: the
/// Monday of the week that holds the year's first Thursday.
pub open spec fn iso_week_one_monday(year: int) -> int {
    first_thursday(year) - 3
}

/// The number of ISO weeks of the ISO year `year`: the weeks from the Monday
/// of its week 1 up to the Monday of week 1 of the next year.
pub open spec fn iso_weeks_in_year(year: int) -> int {
    (iso_week_one_monday(year + 1) - iso_week_one_monday(year)) / 7
}

/// Whether `year`-W`week`-`weekday` is an ISO week date.
pub open spec fn valid_iso_week_date(year: int, week: int, weekday: int) -> bool {
    1 <= week <= iso_weeks_in_year(year) && 1 <= weekday <= 7
}

/// The number of the day that the ISO week date `year`-W`week`-`weekday`
/// names.
pub open spec fn iso_week_day_number(year: int, week: int, weekday: int) -> int {
    iso_week_one_monday(year) + 7 * (week - 1) + (weekday - 1)
}

/// Whether `year`-`day_of_year` is an ordinal date.
pub open spec fn valid_ordinal_date(year: int, day_of_year: int) -> bool {
    1 <= day_of_year <= days_in_year(year)
}

/// The days that lie before each month, written out.
pub proof fn lemma_days_before_month(year: int)
    ensures
        days_before_month(year, 1) == 0,
        days_before_month(year, 2) == 31,
        days_before_month(year, 3) == days_in_year(year) - 306,
        days_before_month(year, 4) == days_in_year(year) - 275,
        days_before_month(year, 5) == days_in_year(year) - 245,
        days_before_month(year, 6) == days_in_year(year) - 214,
        days_before_month(year, 7) == days_in_year(year) - 184,
        days_before_month(year, 8) == days_in_year(year) - 153,
        days_before_month(year, 9) == days_in_year(year) - 122,
        days_before_month(year, 10) == days_in_year(year) - 92,
        days_before_month(year, 11) == days_in_year(year) - 61,
        days_before_month(year, 12) == days_in_year(year) - 31,
        days_before_month(year, 13) == days_in_year(year),
{
    reveal_with_fuel(days_before_month, 14);
}

/// A year ends where the next one begins.
pub proof fn lemma_year_length(year: int)
    ensures
        days_before_year(year + 1) == days_before_year(year) + days_in_year(year),
{
    reveal(days_before_year);
}

/// Later years begin later, by at least 365 and at most 366 days a year.
pub proof fn lemma_days_before_year_monotonic(from: int, to: int)
    requires
        from <= to,
    ensures
        365 * (to - from) <= days_before_year(to) - days_before_year(from) <= 366 * (to - from),
    decreases to - from,
{
    if from < to {
        lemma_days_before_year_monotonic(from, to - 1);
        lemma_year_length(to - 1);
    }
}

/// The position of a day of the calendar within its year lies between 1 and
/// the length of the year.
pub proof fn lemma_ordinal_bounds(year: int, month: int, day: int)
    requires
        valid_ymd(year, month, day),
    ensures
        1 <= ordinal(year, month, day) <= days_in_year(year),
{
    lemma_days_before_month(year);
}

/// No two days of the calendar have the same number.
pub proof fn lemma_day_number_injective(y1: int, m1: int, d1: int, y2: int, m2: int, d2: int)
    requires
        valid_ymd(y1, m1, d1),
        valid_ymd(y2, m2, d2),
        day_number(y1, m1, d1) == day_number(y2, m2, d2),
    ensures
        y1 == y2,
        m1 == m2,
        d1 == d2,
{
    lemma_ordinal_bounds(y1, m1, d1);
    lemma_ordinal_bounds(y2, m2, d2);
    if y1 < y2 {
        lemma_year_length(y1);
        lemma_days_before_year_monotonic(y1 + 1, y2);
    } else if y2 < y1 {
        lemma_year_length(y2);
        lemma_days_before_year_monotonic(y2 + 1, y1);
    }
    lemma_days_before_month(y1);
}

/// A day that exists in its year is representable exactly when the year lies
/// between [`MIN_YEAR`] and [`MAX_YEAR`].
pub proof fn lemma_representable_ordinal(year: int, day_of_year: int)
    requires
        valid_ordinal_date(year, day_of_year),
    ensures
        representable_day(days_before_year(year) + day_of_year) <==> MIN_YEAR <= year <= MAX_YEAR,
{
    lemma_days_before_month(MIN_YEAR as int);
    lemma_days_before_month(MAX_YEAR as int);
    if year < MIN_YEAR {
        lemma_year_length(year);
        lemma_days_before_year_monotonic(year + 1, MIN_YEAR as int);
    } else if year > MAX_YEAR {
        lemma_year_length(MAX_YEAR as int);
        lemma_days_before_year_monotonic(MAX_YEAR + 1, year);
    } else {
        lemma_days_before_year_monotonic(MIN_YEAR as int, year);
        lemma_year_length(year);
        lemma_days_before_year_monotonic(year + 1, MAX_YEAR + 1);
        lemma_year_length(MAX_YEAR as int);
    }
}

/// A day of the calendar is representable exactly when its year lies between
/// [`MIN_YEAR`] and [`MAX_YEAR`].
pub proof fn lemma_representable_years(year: int, month: int, day: int)
    requires
        valid_ymd(year, month, day),
    ensures
        representable_day(day_number(year, month, day)) <==> MIN_YEAR <= year <= MAX_YEAR,
{
    lemma_ordinal_bounds(year, month, day);
    lemma_representable_ordinal(year, ordinal(year, month, day));
}

/// The first of January opens the year, and the next year opens when the
/// days of this one are over.
pub proof fn lemma_year_start(year: int)
    ensures
        day_number(year, 1, 1) == days_before_year(year) + 1,
        day_number(year + 1, 1, 1) == day_number(year, 1, 1) + days_in_year(year),
        day_number(year, 12, 31) == day_number(year, 1, 1) + days_in_year(year) - 1,
{
    lemma_days_before_month(year);
    lemma_days_before_month(year + 1);
    lemma_year_length(year);
}

/// The first Thursday on or after day `n` comes within a week.
proof fn lemma_thursday_after(n: int)
    ensures
        0 <= (4 - iso_weekday(n)) % 7 <= 6,
        (n + (4 - iso_weekday(n)) % 7 - 4) % 7 == 0,
{
}

/// Two days that lie 359 to 372 days apart on the same weekday lie 52 or 53
/// weeks apart.
proof fn lemma_weeks_between(a: int, b: int)
    requires
        (a - 4) % 7 == 0,
        (b - 4) % 7 == 0,
        359 <= b - a <= 372,
    ensures
        52 <= (b - a) / 7 <= 53,
        b - a == 7 * ((b - a) / 7),
{
}

/// The first Thursday of a year is a Thursday among its first seven days.
pub proof fn lemma_first_thursday(year: int)
    ensures
        iso_weekday(first_thursday(year)) == 4,
        (first_thursday(year) - 4) % 7 == 0,
        day_number(year, 1, 1) <= first_thursday(year) <= day_number(year, 1, 1) + 6,
{
    lemma_thursday_after(day_number(year, 1, 1));
}

/// An ISO year has 52 or 53 weeks.
pub proof fn lemma_iso_weeks_in_year(year: int)
    ensures
        52 <= iso_weeks_in_year(year) <= 53,
        iso_week_one_monday(year + 1) == iso_week_one_monday(year) + 7 * iso_weeks_in_year(year),
{
    lemma_first_thursday(year);
    lemma_first_thursday(year + 1);
    lemma_year_start(year);
    let a = first_thursday(year);
    let b = first_thursday(year + 1);
    lemma_weeks_between(a, b);
    assert(iso_week_one_monday(year + 1) - iso_week_one_monday(year) == b - a);
}

/// The days of an ISO year lie between the 29th of December before the
/// calendar year of the same number and the 3rd of January after it.
pub proof fn lemma_iso_week_date_bounds(year: int, week: int, weekday: int)
    requires
        valid_iso_week_date(year, week, weekday),
    ensures
        day_number(year, 1, 1) - 3 <= iso_week_day_number(year, week, weekday) <= day_number(
            year,
            12,
            31,
        ) + 3,
{
    lemma_first_thursday(year);
    lemma_first_thursday(year + 1);
    lemma_iso_weeks_in_year(year);
    lemma_year_start(year);
    let a = iso_week_one_monday(year);
    let b = iso_week_one_monday(year + 1);
    assert(a <= iso_week_day_number(year, week, weekday) < b);
}

/// A week date that names a representable day belongs to an ISO year from
/// the year before [`MIN_YEAR`] to the year after [`MAX_YEAR`].
pub proof fn lemma_iso_week_date_year(year: int, week: int, weekday: int)
    requires
        valid_iso_week_date(year, week, weekday),
        representable_day(iso_week_day_number(year, week, weekday)),
    ensures
        MIN_YEAR - 1 <= year <= MAX_YEAR + 1,
{
    lemma_iso_week_date_bounds(year, week, weekday);
    lemma_year_start(year);
    lemma_year_start(MIN_YEAR as int);
    lemma_year_start(MAX_YEAR as int);
    if year < MIN_YEAR - 1 {
        lemma_days_before_year_monotonic(year + 1, MIN_YEAR as int);
    } else if year > MAX_YEAR + 1 {
        lemma_days_before_year_monotonic(MAX_YEAR + 1, year);
    }
}

/// The day after a day of the calendar is a day of the calendar.
pub proof fn lemma_next_day(year: int, month: int, day: int) -> (next: (int, int, int))
    requires
        valid_ymd(year, month, day),
    ensures
        valid_ymd(next.0, next.1, next.2),
        day_number(next.0, next.1, next.2) == day_number(year, month, day) + 1,
        next.0 == year || next == (year + 1, 1int, 1int),
        1 <= next.1 <= 12,
        1 <= next.2 <= 31,
{
    lemma_days_before_month(year);
    if day < days_in_month(year, month) {
        (year, month, day + 1)
    } else if month < 12 {
        (year, month + 1, 1)
    } else {
        lemma_year_length(year);
        lemma_days_before_month(year + 1);
        (year + 1, 1, 1)
    }
}

/// The numbers of the first and of the last representable day.
pub proof fn lemma_representable_range()
    ensures
        min_day_number() == -95_746_129,
        max_day_number() == 95_745_399,
{
    reveal(days_before_year);
    lemma_days_before_month(MIN_YEAR as int);
    lemma_days_before_month(MAX_YEAR as int);
}

/// A second that lies `shift` seconds after the midnight that opens day `n`
/// falls on the day before `n`, on `n` or on the day after it.
pub proof fn lemma_day_of_second(n: int, shift: int)
    requires
        -SECONDS_PER_DAY < shift < 2 * SECONDS_PER_DAY,
    ensures
        (n * SECONDS_PER_DAY + shift) / (SECONDS_PER_DAY as int) == if shift < 0 {
            n - 1
        } else if shift < SECONDS_PER_DAY {
            n
        } else {
            n + 1
        },
{
}

/// Whether `year` has a 29th of February.
pub fn leap_year(year: i32) -> (r: bool)
    ensures
        r == is_leap_year(year as int),
{
    year % 4 == 0 && (year % 100 != 0 || year % 400 == 0)
}

/// The number of days from 0001-01-01 up to, and without, the first of
/// January of `year`.
pub fn days_before(year: i32) -> (r: i32)
    requires
        MIN_YEAR <= year <= MAX_YEAR,
    ensures
        r == days_before_year(year as int),
{
    proof {
        reveal(days_before_year);
    }
    // 656 cycles of 400 years, each of 146097 days, make the year positive.
    let y: i32 = year - 1 + 262_400;
    let days: i32 = 365 * y + y / 4 - y / 100 + y / 400;
    days - 95_839_632
}

/// The number of days of `year` that lie before the first of `month`.
pub fn days_before_month_of(year: i32, month: u32) -> (r: u32)
    requires
        1 <= month <= 12,
    ensures
        r == days_before_month(year as int, month as int),
{
    proof {
        lemma_days_before_month(year as int);
    }
    let leap: u32 = if leap_year(year) {
        1
    } else {
        0
    };
    match month {
        1 => 0,
        2 => 31,
        3 => 59 + leap,
        4 => 90 + leap,
        5 => 120 + leap,
        6 => 151 + leap,
        7 => 181 + leap,
        8 => 212 + leap,
        9 => 243 + leap,
        10 => 273 + leap,
        11 => 304 + leap,
        _ => 334 + leap,
    }
}

/// The number of the Monday that opens week 1 of the ISO year `year`.
pub fn week_one_monday(year: i32) -> (r: i32)
    requires
        MIN_YEAR <= year <= MAX_YEAR,
    ensures
        r == iso_week_one_monday(year as int),
{
    proof {
        lemma_year_start(year as int);
        lemma_days_before_year_monotonic(MIN_YEAR as int, year as int);
        lemma_days_before_year_monotonic(year as int, MAX_YEAR as int);
        lemma_year_start(MIN_YEAR as int);
        lemma_year_start(MAX_YEAR as int);
        lemma_representable_range();
    }
    let jan1: i32 = days_before(year) + 1;
    // The weekday of the first of January, from 0 for Monday.
    let since_monday: i32 = ((jan1 - 1) % 7 + 7) % 7;
    let to_thursday: i32 = (3 - since_monday + 7) % 7;
    jan1 + to_thursday - 3
}

/// The number of ISO weeks of the ISO year `year`.
pub fn weeks_in_iso_year(year: i32) -> (r: u32)
    requires
        MIN_YEAR <= year < MAX_YEAR,
    ensures
        r == iso_weeks_in_year(year as int),
        52 <= r <= 53,
{
    proof {
        lemma_iso_weeks_in_year(year as int);
    }
    let weeks: i32 = (week_one_monday(year + 1) - week_one_monday(year)) / 7;
    weeks as u32
}

/// The number of the day that the ISO week date `year`-W`week`-`weekday`
/// names.
pub fn week_date_day_number(year: i32, week: u32, weekday: u32) -> (r: i32)
    requires
        MIN_YEAR <= year <= MAX_YEAR,
        1 <= week <= 53,
        1 <= weekday <= 7,
    ensures
        r == iso_week_day_number(year as int, week as int, weekday as int),
{
    proof {
        lemma_first_thursday(year as int);
        lemma_year_start(year as int);
        lemma_days_before_year_monotonic(MIN_YEAR as int, year as int);
        lemma_days_before_year_monotonic(year as int, MAX_YEAR as int);
        lemma_year_start(MIN_YEAR as int);
        lemma_year_start(MAX_YEAR as int);
        lemma_representable_range();
    }
    week_one_monday(year) + 7 * (week as i32 - 1) + (weekday as i32 - 1)
}

} // verus!
