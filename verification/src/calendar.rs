//! Calendar dates of the proleptic Gregorian calendar as seconds since the
//! epoch, 1 January 1970, 00:00:00.

use vstd::prelude::*;

verus! {

/// Whether the year has a 29 February.
pub open spec fn is_leap(year: int) -> bool {
    year % 4 == 0 && (year % 100 != 0 || year % 400 == 0)
}

/// The number of days of the year.
pub open spec fn days_in_year(year: int) -> int {
    if is_leap(year) {
        366
    } else {
        365
    }
}

/// The number of days of the month; months count from 1.
pub open spec fn days_in_month(year: int, month: int) -> int {
    if month == 2 {
        if is_leap(year) {
            29
        } else {
            28
        }
    } else if month == 4 || month == 6 || month == 9 || month == 11 {
        30
    } else {
        31
    }
}

/// The days of the years from year 0 up to `year`, which is not counted.
pub open spec fn days_before_year(year: nat) -> int
    decreases year,
{
    if year == 0 {
        0
    } else {
        days_before_year((year - 1) as nat) + days_in_year(year - 1)
    }
}

/// The days of the months of `year` before `month`.
pub open spec fn days_before_month(year: int, month: nat) -> int
    decreases month,
{
    if month <= 1 {
        0
    } else {
        days_before_month(year, (month - 1) as nat) + days_in_month(year, month - 1)
    }
}

/// Whether the calendar has the day, and the clock the time.
pub open spec fn valid_date_time(
    year: int,
    month: int,
    day: int,
    hour: int,
    minute: int,
    second: int,
) -> bool {
    &&& 0 <= year
    &&& 1 <= month <= 12
    &&& 1 <= day <= days_in_month(year, month)
    &&& 0 <= hour < 24
    &&& 0 <= minute < 60
    &&& 0 <= second < 60
}

/// The days from 1 January 1970 to the given day; negative before 1970.
pub open spec fn epoch_days(year: nat, month: nat, day: int) -> int {
    days_before_year(year) + days_before_month(year as int, month) + (day - 1) - days_before_year(
        1970,
    )
}

/// The seconds from the epoch to the given moment; negative before 1970.
pub open spec fn epoch_seconds(
    year: nat,
    month: nat,
    day: int,
    hour: int,
    minute: int,
    second: int,
) -> int {
    epoch_days(year, month, day) * 86400 + hour * 3600 + minute * 60 + second
}

/// The leap years among the years from 0 up to `year`, which is not counted.
pub open spec fn leap_years_before(year: nat) -> int {
    if year == 0 {
        0
    } else {
        (year - 1) / 4 - (year - 1) / 100 + (year - 1) / 400 + 1
    }
}

/// From `n - 1` to `n` the quotients by 4, by 100 and by 400 grow by one
/// where the divisor divides `n`, and not otherwise.
proof fn lemma_quotient_steps(n: int)
    requires
        n >= 1,
    ensures
        n % 4 == 0 ==> n / 4 == (n - 1) / 4 + 1,
        n % 4 != 0 ==> n / 4 == (n - 1) / 4,
        n % 100 == 0 ==> n / 100 == (n - 1) / 100 + 1,
        n % 100 != 0 ==> n / 100 == (n - 1) / 100,
        n % 400 == 0 ==> n / 400 == (n - 1) / 400 + 1,
        n % 400 != 0 ==> n / 400 == (n - 1) / 400,
        n % 400 == 0 ==> n % 100 == 0,
        n % 100 == 0 ==> n % 4 == 0,
{
}

/// From one year to the next the count of leap years grows by one where
/// the year is a leap year, and not otherwise.
proof fn lemma_leap_years_step(year: nat)
    requires
        year >= 1,
    ensures
        is_leap(year as int) ==> leap_years_before(year + 1) == leap_years_before(year) + 1,
        !is_leap(year as int) ==> leap_years_before(year + 1) == leap_years_before(year),
{
    lemma_quotient_steps(year as int);
}

/// Every year has 365 days, and a leap year one more.
pub proof fn lemma_days_before_year(year: nat)
    ensures
        days_before_year(year) == 365 * year + leap_years_before(year),
    decreases year,
{
    if year == 1 {
        assert(days_before_year(0) == 0);
        assert(is_leap(0));
    } else if year > 1 {
        let before: nat = (year - 1) as nat;
        lemma_days_before_year(before);
        lemma_leap_years_step(before);
        assert(days_before_year(year) == days_before_year(before) + days_in_year(before as int));
    }
}

fn leap(year: u16) -> (r: bool)
    ensures
        r == is_leap(year as int),
{
    year % 4 == 0 && (year % 100 != 0 || year % 400 == 0)
}

fn month_length(year: u16, month: u8) -> (r: u8)
    ensures
        r == days_in_month(year as int, month as int),
{
    if month == 2 {
        if leap(year) {
            29
        } else {
            28
        }
    } else if month == 4 || month == 6 || month == 9 || month == 11 {
        30
    } else {
        31
    }
}

fn month_offset(year: u16, month: u8) -> (r: i64)
    requires
        1 <= month <= 12,
    ensures
        r == days_before_month(year as int, month as nat),
        0 <= r <= 335,
{
    reveal_with_fuel(days_before_month, 13);
    let common: i64 = match month {
        1 => 0,
        2 => 31,
        3 => 59,
        4 => 90,
        5 => 120,
        6 => 151,
        7 => 181,
        8 => 212,
        9 => 243,
        10 => 273,
        11 => 304,
        _ => 334,
    };
    if month > 2 && leap(year) {
        common + 1
    } else {
        common
    }
}

/// The seconds from the epoch to a moment of the calendar; `None` where the
/// calendar has no such day or the clock no such time.
pub fn seconds_since_epoch(
    year: u16,
    month: u8,
    day: u8,
    hour: u8,
    minute: u8,
    second: u8,
) -> (r: Option<i64>)
    ensures
        r is Some <==> valid_date_time(
            year as int,
            month as int,
            day as int,
            hour as int,
            minute as int,
            second as int,
        ),
        r is Some ==> r->0 == epoch_seconds(
            year as nat,
            month as nat,
            day as int,
            hour as int,
            minute as int,
            second as int,
        ),
{
    if month < 1 || month > 12 || day < 1 || hour >= 24 || minute >= 60 || second >= 60 {
        return None;
    }
    if day > month_length(year, month) {
        return None;
    }
    let y: i64 = year as i64;
    let leaps: i64 = if year == 0 {
        0
    } else {
        (y - 1) / 4 - (y - 1) / 100 + (y - 1) / 400 + 1
    };
    proof {
        lemma_days_before_year(year as nat);
        lemma_days_before_year(1970);
    }
    let days: i64 = 365 * y + leaps + month_offset(year, month) + (day as i64 - 1) - 719528;
    Some(days * 86400 + (hour as i64) * 3600 + (minute as i64) * 60 + second as i64)
}

} // verus!
