//! Month lengths for the plan tab's date picker, computed with `chrono` as
//! the distance between the first days of two consecutive months.
use chrono::Datelike;
use vstd::prelude::*;

verus! {

/// Earliest year that `chrono::NaiveDate` represents.
pub const MIN_YEAR: i32 = -262143;

/// Latest year that `chrono::NaiveDate` represents.
pub const MAX_YEAR: i32 = 262142;

/// Leap years of the proleptic Gregorian calendar.
pub open spec fn is_leap(y: int) -> bool {
    (y % 4 == 0 && y % 100 != 0) || y % 400 == 0
}

/// Days of the year before the first of month `m` (1 to 12).
pub open spec fn days_before_month(y: int, m: int) -> int {
    let base: int = if m == 1 {
        0
    } else if m == 2 {
        31
    } else if m == 3 {
        59
    } else if m == 4 {
        90
    } else if m == 5 {
        120
    } else if m == 6 {
        151
    } else if m == 7 {
        181
    } else if m == 8 {
        212
    } else if m == 9 {
        243
    } else if m == 10 {
        273
    } else if m == 11 {
        304
    } else {
        334
    };
    base + if m > 2 && is_leap(y) {
        1int
    } else {
        0int
    }
}

/// The day number of a date in the proleptic Gregorian calendar, January 1
/// of year 1 being day 1 (`chrono::Datelike::num_days_from_ce`).
pub open spec fn days_from_ce(y: int, m: int, d: int) -> int {
    let p = y - 1;
    365 * p + p / 4 - p / 100 + p / 400 + days_before_month(y, m) + d
}

/// Length of month `m` of year `y`.
pub open spec fn month_length(y: int, m: int) -> int {
    if m == 2 {
        if is_leap(y) {
            29
        } else {
            28
        }
    } else if m == 4 || m == 6 || m == 9 || m == 11 {
        30
    } else {
        31
    }
}

/// The day number of the first of a month, when `chrono` represents that
/// date (`NaiveDate::from_ymd_opt(year, month, 1)`, then `num_days_from_ce`).
/// `chrono` represents the months 1 to 12 of the years `MIN_YEAR` to
/// `MAX_YEAR`, and numbers days as its documentation states: January 1 of
/// year 1 is day 1, in the proleptic Gregorian calendar.
#[verifier::external_body]
fn first_of_month(year: i32, month: u32) -> (r: Option<i64>)
    ensures
        r is Some <==> (1 <= month <= 12 && MIN_YEAR <= year <= MAX_YEAR),
        r matches Some(n) ==> n == days_from_ce(year as int, month as int, 1),
{
    match chrono::NaiveDate::from_ymd_opt(year, month, 1) {
        Some(date) => Some(date.num_days_from_ce() as i64),
        None => None,
    }
}

/// `y / 4 - (y - 1) / 4` counts whether `y` is a multiple of 4 (likewise for
/// 100 and 400).
proof fn lemma_multiples_step(y: int)
    ensures
        y / 4 - (y - 1) / 4 == (if y % 4 == 0 { 1int } else { 0int }),
        y / 100 - (y - 1) / 100 == (if y % 100 == 0 { 1int } else { 0int }),
        y / 400 - (y - 1) / 400 == (if y % 400 == 0 { 1int } else { 0int }),
{
}

/// The number of days of month `month` of `year`, as the distance from its
/// first day to the first day of the next month.
pub fn get_days_in_month(year: i32, month: u32) -> (r: u32)
    requires
        1 <= month <= 12,
        MIN_YEAR <= year <= MAX_YEAR,
        month == 12 ==> year < MAX_YEAR,
    ensures
        r == month_length(year as int, month as int),
{
    let (next_year, next_month) = if month == 12 {
        (year + 1, 1u32)
    } else {
        (year, month + 1)
    };
    let this_first = match first_of_month(year, month) {
        Some(n) => n,
        None => {
            proof {
                assert(false);
            }
            0
        },
    };
    let next_first = match first_of_month(next_year, next_month) {
        Some(n) => n,
        None => {
            proof {
                assert(false);
            }
            0
        },
    };
    proof {
        lemma_multiples_step(year as int);
        if month == 12 {
            assert(days_from_ce(year + 1, 1, 1) - days_from_ce(year as int, 12, 1) == 31) by {
                lemma_multiples_step(year as int);
            }
        }
    }
    (next_first - this_first) as u32
}

} // verus!
