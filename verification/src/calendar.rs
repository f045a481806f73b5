//! Proleptic Gregorian calendar arithmetic on Unix timestamps.
//!
//! Time is counted in seconds from 1970-01-01T00:00:00 UTC, without leap
//! seconds: every day has exactly [`SECONDS_PER_DAY`] seconds. A timestamp
//! splits into a day number (the floor of the quotient) and a second of the
//! day (the remainder); the day number maps to exactly one calendar date.

use vstd::prelude::*;

verus! {

/// Length of one day, in seconds.
pub const SECONDS_PER_DAY: i64 = 86_400;

/// A calendar date over the mathematical integers.
pub struct Date {
    pub year: int,
    pub month: int,
    pub day: int,
}

/// A calendar date as held at run time.
#[derive(Clone, Copy, Debug, PartialEq, Eq, Structural)]
pub struct CivilDate {
    pub year: i64,
    pub month: u8,
    pub day: u8,
}

impl View for CivilDate {
    type V = Date;

    open spec fn view(&self) -> Date {
        Date { year: self.year as int, month: self.month as int, day: self.day as int }
    }
}

/// Every fourth year is a leap year, except the centuries that 400 does not divide.
pub open spec fn is_leap_year(year: int) -> bool {
    year % 4 == 0 && (year % 100 != 0 || year % 400 == 0)
}

/// Days from the first of January of `year` to the next.
pub open spec fn days_in_year(year: int) -> int {
    if is_leap_year(year) {
        366
    } else {
        365
    }
}

/// Days of the `month` of `year`, the months counted from 1 for January.
pub open spec fn days_in_month(year: int, month: int) -> int {
    if month == 2 {
        if is_leap_year(year) {
            29
        } else {
            28
        }
    } else if month == 4 || month == 6 || month == 9 || month == 11 {
        30
    } else {
        31
    }
}

/// Days of `year` that lie before the first day of `month`.
pub open spec fn days_before_month(year: int, month: int) -> int
    decreases month,
{
    if month <= 1 {
        0
    } else {
        days_before_month(year, month - 1) + days_in_month(year, month - 1)
    }
}

/// Number of leap years among the years 1, 2, .., `year - 1`.
pub open spec fn leap_years_before(year: int) -> int {
    (year - 1) / 4 - (year - 1) / 100 + (year - 1) / 400
}

/// Day number of the first of January of `year`; negative before 1970.
pub open spec fn days_before_year(year: int) -> int {
    365 * (year - 1970) + leap_years_before(year) - leap_years_before(1970)
}

impl Date {
    /// The month is one of the twelve and the day exists in that month.
    pub open spec fn is_valid(self) -> bool {
        &&& 1 <= self.month <= 12
        &&& 1 <= self.day <= days_in_month(self.year, self.month)
    }

    /// Days from 1970-01-01 to this date.
    pub open spec fn day_number(self) -> int {
        days_before_year(self.year) + days_before_month(self.year, self.month) + self.day - 1
    }

    /// Calendar order: by year, then month, then day.
    pub open spec fn precedes(self, other: Date) -> bool {
        ||| self.year < other.year
        ||| self.year == other.year && self.month < other.month
        ||| self.year == other.year && self.month == other.month && self.day < other.day
    }
}

/// The valid date whose day number is `days`.
pub open spec fn date_of_day(days: int) -> Date {
    choose|d: Date| d.is_valid() && d.day_number() == days
}

/// Day number of a timestamp: whole days since the epoch, rounded toward the past.
pub open spec fn day_of(ts: int) -> int {
    ts / (SECONDS_PER_DAY as int)
}

/// Seconds elapsed since the start of the timestamp's day.
pub open spec fn second_of_day(ts: int) -> int {
    ts % (SECONDS_PER_DAY as int)
}

/// Months from the start's calendar month to that of `now`, by the calendar alone.
pub open spec fn month_span(start: Date, now: Date) -> int {
    (now.year - start.year) * 12 + (now.month - start.month)
}

/// The day of the month on which a period that began on day `day` ends in the
/// given month: the same day, or the month's last day where it has no such day.
pub open spec fn anniversary_day(day: int, year: int, month: int) -> int {
    if day <= days_in_month(year, month) {
        day
    } else {
        days_in_month(year, month)
    }
}

/// Whole calendar months from `start` to `now`.
///
/// A month is complete when the calendar shows the start's day of the month
/// (or the last day of a shorter month) at the start's time of day. The result
/// is negative when `now` lies in an earlier month than `start`.
pub open spec fn whole_months_between(start: int, now: int) -> int {
    let s = date_of_day(day_of(start));
    let n = date_of_day(day_of(now));
    let due = anniversary_day(s.day, n.year, n.month);
    let short = n.day < due || (n.day == due && second_of_day(now) < second_of_day(start));
    if short {
        month_span(s, n) - 1
    } else {
        month_span(s, n)
    }
}

/// From one first of January to the next it is as many days as the year has.
pub proof fn lemma_year_length(year: int)
    ensures
        days_before_year(year + 1) == days_before_year(year) + days_in_year(year),
{
}

/// The twelve months make up the year, each beginning where the one before ends.
pub proof fn lemma_months_fill_year(year: int)
    ensures
        days_before_month(year, 13) == days_in_year(year),
        forall|m: int| 1 <= m <= 12 ==> 0 <= #[trigger] days_before_month(year, m) <= 335,
        forall|m: int|
            1 <= m <= 12 ==> #[trigger] days_before_month(year, m + 1) == days_before_month(
                year,
                m,
            ) + days_in_month(year, m),
{
    reveal_with_fuel(days_before_month, 14);
}

/// The first of January moves forward with the year.
pub proof fn lemma_years_ordered(earlier: int, later: int)
    requires
        earlier <= later,
    ensures
        days_before_year(earlier) <= days_before_year(later),
    decreases later - earlier,
{
    if earlier < later {
        lemma_years_ordered(earlier, later - 1);
        lemma_year_length(later - 1);
    }
}

/// A later date has a larger day number.
pub proof fn lemma_day_number_increases(a: Date, b: Date)
    requires
        a.is_valid(),
        b.is_valid(),
        a.precedes(b),
    ensures
        a.day_number() < b.day_number(),
{
    reveal_with_fuel(days_before_month, 14);
    if a.year < b.year {
        lemma_year_length(a.year);
        lemma_years_ordered(a.year + 1, b.year);
    }
}

/// Every day number is the day number of some valid date.
pub proof fn lemma_date_exists(days: int) -> (d: Date)
    ensures
        d.is_valid(),
        d.day_number() == days,
    decreases
        if days >= 0 {
            days
        } else {
            -days
        },
{
    reveal_with_fuel(days_before_month, 14);
    if days == 0 {
        Date { year: 1970, month: 1, day: 1 }
    } else if days > 0 {
        let p = lemma_date_exists(days - 1);
        lemma_year_length(p.year);
        if p.day < days_in_month(p.year, p.month) {
            Date { year: p.year, month: p.month, day: p.day + 1 }
        } else if p.month < 12 {
            Date { year: p.year, month: p.month + 1, day: 1 }
        } else {
            Date { year: p.year + 1, month: 1, day: 1 }
        }
    } else {
        let n = lemma_date_exists(days + 1);
        lemma_year_length(n.year - 1);
        if n.day > 1 {
            Date { year: n.year, month: n.month, day: n.day - 1 }
        } else if n.month > 1 {
            Date { year: n.year, month: n.month - 1, day: days_in_month(n.year, n.month - 1) }
        } else {
            Date { year: n.year - 1, month: 12, day: 31 }
        }
    }
}

/// `date_of_day` is well defined: it is valid, and it has the day number asked for.
pub proof fn lemma_date_of_day(days: int)
    ensures
        date_of_day(days).is_valid(),
        date_of_day(days).day_number() == days,
{
    let d = lemma_date_exists(days);
}

/// No two valid dates share a day number.
pub proof fn lemma_date_unique(d: Date, days: int)
    requires
        d.is_valid(),
        d.day_number() == days,
    ensures
        d == date_of_day(days),
{
    lemma_date_of_day(days);
    let e = date_of_day(days);
    if d.precedes(e) {
        lemma_day_number_increases(d, e);
    } else if e.precedes(d) {
        lemma_day_number_increases(e, d);
    }
}

/// The calendar never runs backwards: a later day has the same or a later date.
pub proof fn lemma_dates_ordered(earlier: int, later: int)
    requires
        earlier <= later,
    ensures
        !date_of_day(later).precedes(date_of_day(earlier)),
{
    lemma_date_of_day(earlier);
    lemma_date_of_day(later);
    if date_of_day(later).precedes(date_of_day(earlier)) {
        lemma_day_number_increases(date_of_day(later), date_of_day(earlier));
    }
}

/// Where a year begins, by its place in the cycles of 400, 100 and 4 years
/// that start with the year 1, and whether it is a leap year.
pub proof fn lemma_year_of_cycles(era: int, century: int, cycle: int, year_of_cycle: int)
    requires
        0 <= century <= 3,
        0 <= cycle <= 24,
        0 <= year_of_cycle <= 3,
    ensures
        days_before_year(1 + 400 * era + 100 * century + 4 * cycle + year_of_cycle) == 146_097
            * era + 36_524 * century + 1_461 * cycle + 365 * year_of_cycle - 719_162,
        is_leap_year(1 + 400 * era + 100 * century + 4 * cycle + year_of_cycle) <==> (
        year_of_cycle == 3 && (cycle != 24 || century == 3)),
{
    let y = 400 * era + 100 * century + 4 * cycle + year_of_cycle;
    assert(y / 4 == 100 * era + 25 * century + cycle);
    assert(y / 100 == 4 * era + century);
    assert(y / 400 == era);
    assert((y + 1) % 4 == 0 <==> year_of_cycle == 3);
    assert((y + 1) % 100 == 0 <==> (year_of_cycle == 3 && cycle == 24));
    assert((y + 1) % 400 == 0 <==> (year_of_cycle == 3 && cycle == 24 && century == 3));
}

/// No month has elapsed at the start itself.
pub proof fn lemma_no_months_at_start(start: int)
    ensures
        whole_months_between(start, start) == 0,
{
    lemma_date_of_day(day_of(start));
}

/// The count of whole months never goes down as time goes on.
pub proof fn lemma_whole_months_ordered(start: int, earlier: int, later: int)
    requires
        earlier <= later,
    ensures
        whole_months_between(start, earlier) <= whole_months_between(start, later),
{
    lemma_date_of_day(day_of(earlier));
    lemma_date_of_day(day_of(later));
    lemma_dates_ordered(day_of(earlier), day_of(later));
}

/// A timestamp of at most 64 bits falls in a year of far fewer bits.
pub proof fn lemma_year_of_timestamp(ts: int)
    requires
        i64::MIN <= ts <= i64::MAX,
    ensures
        -300_000_000_000 < date_of_day(day_of(ts)).year < 300_000_000_000,
{
    lemma_date_of_day(day_of(ts));
    reveal_with_fuel(days_before_month, 14);
}

/// Floor of `x / d` for a positive divisor, also where `x` is negative.
fn div_floor(x: i128, d: i128) -> (q: i128)
    requires
        0 < d,
        i128::MIN < x,
    ensures
        q == x / d,
{
    if x >= 0 {
        x / d
    } else {
        let below = (-(x + 1)) / d;
        proof {
            let r = (-(x + 1)) % (d as int);
            vstd::arithmetic::div_mod::lemma_fundamental_div_mod(-(x + 1), d as int);
            assert((-below - 1) * d == -(d * below) - d) by (nonlinear_arith);
            vstd::arithmetic::div_mod::lemma_fundamental_div_mod_converse(
                x as int,
                d as int,
                -below - 1,
                d - 1 - r,
            );
        }
        -below - 1
    }
}

/// Whether `year` has a 29th of February.
pub fn leap_year(year: i64) -> (leap: bool)
    ensures
        leap == is_leap_year(year as int),
{
    let y = year as i128;
    let in_four = y - 4 * div_floor(y, 4);
    let in_hundred = y - 100 * div_floor(y, 100);
    let in_four_hundred = y - 400 * div_floor(y, 400);
    in_four == 0 && (in_hundred != 0 || in_four_hundred == 0)
}

/// Days of the `month` of `year`, the months counted from 1 for January.
pub fn month_length(year: i64, month: u8) -> (days: u8)
    ensures
        days == days_in_month(year as int, month as int),
{
    if month == 2 {
        if leap_year(year) {
            29
        } else {
            28
        }
    } else if month == 4 || month == 6 || month == 9 || month == 11 {
        30
    } else {
        31
    }
}

impl CivilDate {
    /// The date of the day that lies `days` days after 1970-01-01.
    ///
    /// The day number is split into cycles of 400 years, centuries, leap
    /// cycles of four years and single years, counted from the year 1.
    pub fn from_days(days: i64) -> (date: CivilDate)
        ensures
            date@ == date_of_day(days as int),
    {
        let since_year_one: i128 = days as i128 + 719_162;
        let era = div_floor(since_year_one, 146_097);
        let day_of_era = since_year_one - era * 146_097;
        let century = if day_of_era / 36_524 > 3 {
            3
        } else {
            day_of_era / 36_524
        };
        let day_of_century = day_of_era - century * 36_524;
        let cycle = day_of_century / 1_461;
        let day_of_cycle = day_of_century - cycle * 1_461;
        let year_of_cycle = if day_of_cycle / 365 > 3 {
            3
        } else {
            day_of_cycle / 365
        };
        let day_of_year = day_of_cycle - year_of_cycle * 365;
        let year = 1 + 400 * era + 100 * century + 4 * cycle + year_of_cycle;
        proof {
            lemma_year_of_cycles(era as int, century as int, cycle as int, year_of_cycle as int);
        }
        let year = year as i64;
        let mut month: u8 = 1;
        let mut rest: i128 = day_of_year;
        proof {
            lemma_months_fill_year(year as int);
        }
        while month < 12 && rest >= month_length(year, month) as i128
            invariant
                1 <= month <= 12,
                0 <= rest,
                rest + days_before_month(year as int, month as int) == day_of_year,
                day_of_year < days_before_month(year as int, 13),
                forall|m: int|
                    1 <= m <= 12 ==> #[trigger] days_before_month(year as int, m + 1)
                        == days_before_month(year as int, m) + days_in_month(year as int, m),
            decreases 12 - month,
        {
            rest = rest - month_length(year, month) as i128;
            month = month + 1;
        }
        let date = CivilDate { year, month, day: (rest + 1) as u8 };
        proof {
            lemma_date_unique(date@, days as int);
        }
        date
    }

    /// The date on which the timestamp falls.
    pub fn from_timestamp(ts: i64) -> (date: CivilDate)
        ensures
            date@ == date_of_day(day_of(ts as int)),
    {
        CivilDate::from_days(div_floor(ts as i128, SECONDS_PER_DAY as i128) as i64)
    }
}

/// Whole calendar months from `start` to `now`, both in seconds since the epoch.
pub fn months_between(start: i64, now: i64) -> (months: i64)
    ensures
        months == whole_months_between(start as int, now as int),
{
    let s = CivilDate::from_timestamp(start);
    let n = CivilDate::from_timestamp(now);
    let start_second = start as i128 - div_floor(start as i128, SECONDS_PER_DAY as i128) * (
    SECONDS_PER_DAY as i128);
    let now_second = now as i128 - div_floor(now as i128, SECONDS_PER_DAY as i128) * (
    SECONDS_PER_DAY as i128);
    let last = month_length(n.year, n.month);
    let due = if s.day <= last {
        s.day
    } else {
        last
    };
    let span: i128 = (n.year as i128 - s.year as i128) * 12 + (n.month as i128 - s.month as i128);
    let short = n.day < due || (n.day == due && now_second < start_second);
    proof {
        lemma_year_of_timestamp(start as int);
        lemma_year_of_timestamp(now as int);
    }
    if short {
        (span - 1) as i64
    } else {
        span as i64
    }
}

} // verus!
