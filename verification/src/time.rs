//! Calendar time.

use crate::ticks::{ticks_as_millis, ticks_as_secs, ticks_since, TICK_HZ};
use vstd::prelude::*;

verus! {

/// Seconds in a day.
pub const DAY_SECS: u64 = 86_400;

/// A point in calendar time, in UTC.
#[derive(Debug, Clone, Copy, PartialEq, Eq, Structural)]
pub struct DateTime {
    /// Year of the Gregorian calendar.
    pub year: u64,
    /// Month, from 1.
    pub month: u64,
    /// Day of the month, from 1.
    pub day: u64,
    /// Hour of the day.
    pub hour: u64,
    /// Minute of the hour.
    pub minute: u64,
    /// Second of the minute.
    pub second: u64,
    /// Millisecond of the second.
    pub millisecond: u64,
}

/// Whether a year of the Gregorian calendar has a leap day.
pub open spec fn is_leap_year(year: int) -> bool {
    year % 4 == 0 && (year % 100 != 0 || year % 400 == 0)
}

/// The number of days in a year.
pub open spec fn days_in_year(year: int) -> int {
    if is_leap_year(year) {
        366
    } else {
        365
    }
}

/// The number of days in a month, counted from 1.
pub open spec fn days_in_month(year: int, month: int) -> int {
    if month == 2 {
        if is_leap_year(year) {
            29
        } else {
            28
        }
    } else if month == 4 || month == 6 || month == 9 || month == 11 {
        30
    } else {
        31
    }
}

/// The number of days from the first day of 1970 to the first day of `year`.
pub open spec fn days_before_year(year: int) -> int
    decreases year - 1970,
{
    if year <= 1970 {
        0
    } else {
        days_before_year(year - 1) + days_in_year(year - 1)
    }
}

/// The number of days from the first day of `year` to the first day of `month`.
pub open spec fn days_before_month(year: int, month: int) -> int
    decreases month - 1,
{
    if month <= 1 {
        0
    } else {
        days_before_month(year, month - 1) + days_in_month(year, month - 1)
    }
}

impl DateTime {
    /// Whether this is a day of the calendar from 1970 on and a time of the day.
    pub open spec fn valid(self) -> bool {
        &&& 1970 <= self.year
        &&& 1 <= self.month <= 12
        &&& 1 <= self.day <= days_in_month(self.year as int, self.month as int)
        &&& self.hour < 24
        &&& self.minute < 60
        &&& self.second < 60
    }

    /// The number of days from the first day of 1970 to this day.
    pub open spec fn epoch_day(self) -> int {
        days_before_year(self.year as int) + days_before_month(
            self.year as int,
            self.month as int,
        ) + self.day - 1
    }

    /// The number of seconds from the start of 1970.
    pub open spec fn epoch_secs(self) -> int {
        self.epoch_day() * DAY_SECS + self.hour * 3600 + self.minute * 60 + self.second
    }

    /// Whether this is the given number of seconds after the start of 1970, with the given
    /// millisecond.
    pub open spec fn denotes(self, secs: int, millis: int) -> bool {
        &&& self.valid()
        &&& self.epoch_secs() == secs
        &&& self.millisecond == millis
    }
}

/// Leap days in the years up to and including `year`.
spec fn leap_days(year: int) -> int {
    year / 4 - year / 100 + year / 400
}

/// A multiple of `unit` is passed on the step to `number` if `number` is one.
proof fn quotient_step(number: int, unit: int)
    requires
        0 < unit,
    ensures
        number / unit - (number - 1) / unit == (if number % unit == 0 {
            1int
        } else {
            0int
        }),
{
    let quotient = number / unit;
    let rest = number % unit;
    assert(number == quotient * unit + rest && 0 <= rest < unit) by (nonlinear_arith)
        requires
            0 < unit,
            quotient == number / unit,
            rest == number % unit,
    ;
    if rest == 0 {
        assert((number - 1) / unit == quotient - 1) by (nonlinear_arith)
            requires
                0 < unit,
                number == quotient * unit,
        ;
    } else {
        assert((number - 1) / unit == quotient) by (nonlinear_arith)
            requires
                0 < rest < unit,
                number == quotient * unit + rest,
        ;
    }
}

proof fn days_before_year_closed(year: int)
    requires
        1970 <= year,
    ensures
        days_before_year(year) == 365 * (year - 1970) + leap_days(year - 1) - 477,
    decreases year,
{
    if year > 1970 {
        days_before_year_closed(year - 1);
        quotient_step(year - 1, 4);
        quotient_step(year - 1, 100);
        quotient_step(year - 1, 400);
    }
}

/// The calendar repeats every 400 years.
proof fn days_before_era(eras: int)
    requires
        0 <= eras,
    ensures
        days_before_year(1970 + 400 * eras) == 146_097 * eras,
{
    days_before_year_closed(1970 + 400 * eras);
    assert((1969 + 400 * eras) / 4 == 492 + 100 * eras);
    assert((1969 + 400 * eras) / 100 == 19 + 4 * eras);
    assert((1969 + 400 * eras) / 400 == 4 + eras);
}

/// The first days of the months, counted from the first day of the year: those of the
/// Gregorian calendar, one day later from March on where the year has a leap day.
pub proof fn month_starts(year: int)
    ensures
        days_before_month(year, 1) == 0,
        days_before_month(year, 2) == 31,
        ({
            let leap = if year % 400 == 0 || (year % 4 == 0 && year % 100 != 0) {
                1int
            } else {
                0int
            };
            &&& days_before_month(year, 3) == 59 + leap
            &&& days_before_month(year, 4) == 90 + leap
            &&& days_before_month(year, 5) == 120 + leap
            &&& days_before_month(year, 6) == 151 + leap
            &&& days_before_month(year, 7) == 181 + leap
            &&& days_before_month(year, 8) == 212 + leap
            &&& days_before_month(year, 9) == 243 + leap
            &&& days_before_month(year, 10) == 273 + leap
            &&& days_before_month(year, 11) == 304 + leap
            &&& days_before_month(year, 12) == 334 + leap
            &&& days_before_month(year, 13) == 365 + leap
        }),
{
    reveal_with_fuel(days_before_month, 13);
}

proof fn months_fill_year(year: int)
    ensures
        days_before_month(year, 13) == days_in_year(year),
{
    reveal_with_fuel(days_before_month, 13);
}

proof fn days_before_year_monotone(year: int, later: int)
    requires
        1970 <= year <= later,
    ensures
        days_before_year(year) <= days_before_year(later),
    decreases later - year,
{
    if year < later {
        days_before_year_monotone(year, later - 1);
    }
}

proof fn days_before_month_monotone(year: int, month: int, later: int)
    requires
        1 <= month <= later,
    ensures
        days_before_month(year, month) <= days_before_month(year, later),
    decreases later - month,
{
    if month < later {
        days_before_month_monotone(year, month, later - 1);
    }
}

/// A valid day lies within its year.
proof fn epoch_day_within_year(date: DateTime)
    requires
        date.valid(),
    ensures
        days_before_year(date.year as int) <= date.epoch_day() < days_before_year(date.year + 1),
{
    let year = date.year as int;
    days_before_month_monotone(year, 1, date.month as int);
    days_before_month_monotone(year, date.month + 1, 13);
    months_fill_year(year);
}

/// A valid day of an earlier year, or of an earlier month of the year, is the earlier day.
proof fn epoch_day_order(one: DateTime, other: DateTime)
    requires
        one.valid(),
        other.valid(),
        one.year < other.year || (one.year == other.year && one.month < other.month),
    ensures
        one.epoch_day() < other.epoch_day(),
{
    epoch_day_within_year(one);
    epoch_day_within_year(other);
    if one.year < other.year {
        days_before_year_monotone(one.year + 1, other.year as int);
    } else {
        days_before_month_monotone(one.year as int, one.month + 1, other.month as int);
    }
}

/// A time has one date: the contract of [`unix_to_date_time`] leaves no choice.
pub proof fn date_time_unique(one: DateTime, other: DateTime, secs: int, millis: int)
    requires
        one.denotes(secs, millis),
        other.denotes(secs, millis),
    ensures
        one == other,
{
    let one_rest = one.hour * 3600 + one.minute * 60 + one.second;
    let other_rest = other.hour * 3600 + other.minute * 60 + other.second;
    assert(one.epoch_day() == other.epoch_day() && one_rest == other_rest);
    if one.year < other.year || (one.year == other.year && one.month < other.month) {
        epoch_day_order(one, other);
    }
    if other.year < one.year || (other.year == one.year && other.month < one.month) {
        epoch_day_order(other, one);
    }
    assert(one.hour == other.hour);
    assert(one.minute == other.minute);
}

/// A later day of the calendar is a later time.
pub proof fn date_time_order(one: DateTime, other: DateTime)
    requires
        one.valid(),
        other.valid(),
        one.year < other.year || (one.year == other.year && (one.month < other.month || (one.month
            == other.month && one.day < other.day))),
    ensures
        one.epoch_secs() < other.epoch_secs(),
{
    if one.year < other.year || one.month < other.month {
        epoch_day_order(one, other);
    }
    assert(one.epoch_day() + 1 <= other.epoch_day());
}

fn leap_year(year: u64) -> (leap: bool)
    ensures
        leap == is_leap_year(year as int),
{
    year % 4 == 0 && (year % 100 != 0 || year % 400 == 0)
}

fn year_length(year: u64) -> (days: u64)
    ensures
        days == days_in_year(year as int),
{
    if leap_year(year) {
        366
    } else {
        365
    }
}

fn month_length(year: u64, month: u64) -> (days: u64)
    ensures
        days == days_in_month(year as int, month as int),
{
    if month == 2 {
        if leap_year(year) {
            29
        } else {
            28
        }
    } else if month == 4 || month == 6 || month == 9 || month == 11 {
        30
    } else {
        31
    }
}

/// The year, month and day that is `days` days after the first day of 1970.
fn date_of_day(days: u64) -> (date: (u64, u64, u64))
    requires
        days <= u64::MAX / DAY_SECS,
    ensures
        1970 <= date.0,
        1 <= date.1 <= 12,
        1 <= date.2 <= days_in_month(date.0 as int, date.1 as int),
        days_before_year(date.0 as int) + days_before_month(date.0 as int, date.1 as int) + date.2
            - 1 == days,
{
    let eras: u64 = days / 146_097;
    let base: u64 = 1970 + 400 * eras;
    let mut year: u64 = base;
    let mut left: u64 = days % 146_097;
    proof {
        days_before_era(eras as int);
    }
    let mut length: u64 = year_length(year);
    while left >= length
        invariant
            days <= u64::MAX / DAY_SECS,
            eras == days / 146_097,
            base == 1970 + 400 * eras,
            1970 <= base <= year,
            left + 365 * (year - base) < 146_097,
            days_before_year(year as int) + left == days,
            length == days_in_year(year as int),
        decreases left,
    {
        left = left - length;
        year = year + 1;
        length = year_length(year);
    }
    proof {
        months_fill_year(year as int);
    }
    let mut month: u64 = 1;
    let ghost day_of_year = left;
    let mut month_len: u64 = month_length(year, month);
    while left >= month_len
        invariant
            1 <= month <= 12,
            days_before_month(year as int, month as int) + left == day_of_year,
            day_of_year < days_in_year(year as int),
            days_before_month(year as int, 13) == days_in_year(year as int),
            month_len == days_in_month(year as int, month as int),
        decreases left,
    {
        assert(month != 12);
        left = left - month_len;
        month = month + 1;
        month_len = month_length(year, month);
    }
    (year, month, left + 1)
}

/// The year, month, day, hour, minute, second and millisecond of a UNIX time.
pub fn unix_to_date_time(secs: u64, millis: u64) -> (date: (u64, u64, u64, u64, u64, u64, u64))
    ensures
        (DateTime {
            year: date.0,
            month: date.1,
            day: date.2,
            hour: date.3,
            minute: date.4,
            second: date.5,
            millisecond: date.6,
        }).denotes(secs as int, millis as int),
{
    let (year, month, day) = date_of_day(secs / DAY_SECS);
    let rest: u64 = secs % DAY_SECS;
    let hour: u64 = rest / 3600;
    let minute: u64 = rest % 3600 / 60;
    let second: u64 = rest % 60;
    assert(rest == hour * 3600 + minute * 60 + second);
    (year, month, day, hour, minute, second, millis)
}

/// A UNIX time and the instant at which it was captured.
#[derive(Debug, Clone, Copy, PartialEq, Eq, Structural)]
pub struct DateTimeCapture {
    /// The instant, in ticks of the clock.
    pub captured_at: u64,
    /// The seconds of the UNIX time.
    pub captured_secs: u64,
    /// The milliseconds of the UNIX time.
    pub captured_millis: u64,
}

impl DateTimeCapture {
    /// Whether the time is one that a time server can send.
    pub open spec fn wf(self) -> bool {
        self.captured_secs <= u32::MAX && self.captured_millis < 1000
    }

    /// The ticks from the capture to `now`; none if `now` is before it.
    pub open spec fn elapsed(self, now: u64) -> int {
        if self.captured_at <= now {
            now - self.captured_at
        } else {
            0
        }
    }

    /// The milliseconds of the capture and of the time since.
    pub open spec fn millis_at(self, now: u64) -> int {
        self.captured_millis + self.elapsed(now) / (TICK_HZ as int / 1000)
    }

    /// The seconds of the date at `now`: those of the capture, and those that the
    /// milliseconds make up.
    pub open spec fn secs_at(self, now: u64) -> int {
        self.captured_secs + self.millis_at(now) / 1000
    }

    /// The date at the instant `now`: the captured time and the time since.
    pub fn date_time_at(&self, now: u64) -> (date: DateTime)
        requires
            self.wf(),
        ensures
            date.denotes(self.secs_at(now), self.millis_at(now) % 1000),
    {
        let elapsed: u64 = match ticks_since(now, self.captured_at) {
            Some(ticks) => ticks,
            None => 0,
        };
        let total_secs: u64 = self.captured_secs + ticks_as_secs(elapsed);
        let total_millis: u64 = self.captured_millis + ticks_as_millis(elapsed) % 1000;
        assert(elapsed / 1000 == elapsed / 1_000_000 * 1000 + elapsed / 1000 % 1000);
        let extra_secs: u64 = total_millis / 1000;
        let final_millis: u64 = total_millis % 1000;
        let (year, month, day, hour, minute, second, millisecond) = unix_to_date_time(
            total_secs + extra_secs,
            final_millis,
        );
        DateTime { year, month, day, hour, minute, second, millisecond }
    }
}

/// Up to the instant of its capture, a captured time is the date itself.
pub proof fn date_time_at_capture(capture: DateTimeCapture, now: u64)
    requires
        capture.wf(),
        now <= capture.captured_at,
    ensures
        capture.secs_at(now) == capture.captured_secs,
        capture.millis_at(now) == capture.captured_millis,
{
}

/// The date is the captured time and the milliseconds since.
pub proof fn date_time_keeps_time(capture: DateTimeCapture, now: u64)
    requires
        capture.wf(),
    ensures
        capture.secs_at(now) * 1000 + capture.millis_at(now) % 1000 == capture.captured_secs * 1000
            + capture.captured_millis + capture.elapsed(now) * 1000 / TICK_HZ as int,
        capture.secs_at(now) * 1000 + capture.millis_at(now) % 1000 == capture.captured_secs * 1000
            + capture.captured_millis + (if capture.captured_at <= now {
            (now - capture.captured_at) / 1000
        } else {
            0int
        }),
{
    let elapsed = capture.elapsed(now);
    assert(elapsed / 1000 == elapsed * 1000 / 1_000_000);
}

/// The date does not go back as the clock goes on.
pub proof fn date_time_advances(capture: DateTimeCapture, now: u64, later: u64)
    requires
        capture.wf(),
        now <= later,
    ensures
        capture.secs_at(now) * 1000 + capture.millis_at(now) % 1000 <= capture.secs_at(later) * 1000
            + capture.millis_at(later) % 1000,
{
    date_time_keeps_time(capture, now);
    date_time_keeps_time(capture, later);
}

/// The date of a UNIX time is its date in the Gregorian calendar. Its seconds are those of the
/// whole days from the start of 1970, 365 in each year and one more for each leap day, and
/// those of the day; the day is one of its month.
pub proof fn date_is_gregorian(date: DateTime, secs: int, millis: int)
    requires
        date.denotes(secs, millis),
    ensures
        ({
            let past = date.year - 1;
            let leap = if date.year % 400 == 0 || (date.year % 4 == 0 && date.year % 100 != 0) {
                1int
            } else {
                0int
            };
            let starts = seq![
                0int,
                31,
                59 + leap,
                90 + leap,
                120 + leap,
                151 + leap,
                181 + leap,
                212 + leap,
                243 + leap,
                273 + leap,
                304 + leap,
                334 + leap,
                365 + leap,
            ];
            let days = 365 * (date.year - 1970) + (past / 4 - past / 100 + past / 400 - 477)
                + starts[date.month - 1] + (date.day - 1);
            &&& 1970 <= date.year
            &&& 1 <= date.month <= 12
            &&& 1 <= date.day <= starts[date.month as int] - starts[date.month - 1]
            &&& secs == days * 86_400 + date.hour * 3600 + date.minute * 60 + date.second
            &&& date.hour < 24
            &&& date.minute < 60
            &&& date.second < 60
            &&& date.millisecond == millis
        }),
{
    let year = date.year as int;
    let month = date.month as int;
    month_starts(year);
    days_before_year_closed(year);
    assert(days_before_month(year, month + 1) == days_before_month(year, month) + days_in_month(
        year,
        month,
    ));
    assert(month == 1 || month == 2 || month == 3 || month == 4 || month == 5 || month == 6 || month
        == 7 || month == 8 || month == 9 || month == 10 || month == 11 || month == 12);
}

} // verus!
