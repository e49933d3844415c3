//! Proleptic Gregorian calendar arithmetic: turning a count of seconds into a
//! local calendar date and time of day.
//!
//! The reference point is 0001-01-01 as day 0. `day_number` maps a calendar
//! date to its day count directly, by summing whole years and whole months;
//! `civil_from_day_number` inverts it, and its contract states exactly that.

use vstd::prelude::*;

verus! {

/// A leap year of the proleptic Gregorian calendar.
pub open spec fn is_leap_year(y: int) -> bool {
    (y % 4 == 0 && y % 100 != 0) || y % 400 == 0
}

pub open spec fn days_in_year(y: int) -> int {
    if is_leap_year(y) {
        366
    } else {
        365
    }
}

pub open spec fn days_in_month(y: int, m: int) -> int {
    if m == 2 {
        if is_leap_year(y) {
            29
        } else {
            28
        }
    } else if m == 4 || m == 6 || m == 9 || m == 11 {
        30
    } else {
        31
    }
}

/// Days in all years before `y`, counting from year 1.
pub open spec fn days_before_year(y: int) -> int
    decreases y,
{
    if y <= 1 {
        0
    } else {
        days_before_year(y - 1) + days_in_year(y - 1)
    }
}

/// Days in the months of year `y` that precede month `m`.
pub open spec fn days_before_month(y: int, m: int) -> int
    decreases m,
{
    if m <= 1 {
        0
    } else {
        days_before_month(y, m - 1) + days_in_month(y, m - 1)
    }
}

pub open spec fn valid_date(y: int, m: int, d: int) -> bool {
    1 <= m <= 12 && 1 <= d <= days_in_month(y, m)
}

/// Day count of the date y-m-d, with 0001-01-01 as day 0.
pub open spec fn day_number(y: int, m: int, d: int) -> int {
    days_before_year(y) + days_before_month(y, m) + (d - 1)
}

/// The twelve months of a year hold exactly its days.
pub proof fn lemma_months_fill_year(y: int)
    ensures
        days_before_month(y, 13) == days_in_year(y),
{
    reveal_with_fuel(days_before_month, 13);
}

#[verifier::rlimit(20)]
fn is_leap_year_exec(y: u64) -> (r: bool)
    ensures
        r == is_leap_year(y as int),
{
    y % 4 == 0 && (y % 100 != 0 || y % 400 == 0)
}

fn days_in_year_exec(y: u64) -> (r: u64)
    ensures
        r as int == days_in_year(y as int),
{
    if is_leap_year_exec(y) {
        366
    } else {
        365
    }
}

fn days_in_month_exec(y: u64, m: u64) -> (r: u64)
    ensures
        r as int == days_in_month(y as int, m as int),
{
    if m == 2 {
        if is_leap_year_exec(y) {
            29
        } else {
            28
        }
    } else if m == 4 || m == 6 || m == 9 || m == 11 {
        30
    } else {
        31
    }
}

/// The date whose day count is `n`: the inverse of `day_number`, found by
/// walking years and then months.
pub fn civil_from_day_number(n: u64) -> (r: (u64, u64, u64))
    requires
        n <= 3652058,
    ensures
        valid_date(r.0 as int, r.1 as int, r.2 as int),
        day_number(r.0 as int, r.1 as int, r.2 as int) == n as int,
        1 <= r.0 <= n + 1,
{
    let mut y: u64 = 1;
    let mut rem: u64 = n;
    loop
        invariant
            n <= 3652058,
            1 <= y,
            y as int - 1 <= n as int - rem as int,
            days_before_year(y as int) + rem as int == n as int,
        ensures
            1 <= y,
            y as int - 1 <= n as int - rem as int,
            days_before_year(y as int) + rem as int == n as int,
            (rem as int) < days_in_year(y as int),
        decreases rem,
    {
        let diy = days_in_year_exec(y);
        if rem < diy {
            break;
        }
        rem = rem - diy;
        y = y + 1;
    }
    let ghost doy: int = rem as int;
    let mut m: u64 = 1;
    loop
        invariant
            1 <= m <= 12,
            days_before_month(y as int, m as int) + rem as int == doy,
            doy < days_in_year(y as int),
        ensures
            1 <= m <= 12,
            days_before_month(y as int, m as int) + rem as int == doy,
            (rem as int) < days_in_month(y as int, m as int),
        decreases 12 - m,
    {
        let dim = days_in_month_exec(y, m);
        if rem < dim {
            break;
        }
        proof {
            if m as int == 12 {
                lemma_months_fill_year(y as int);
            }
        }
        rem = rem - dim;
        m = m + 1;
    }
    (y, m, rem + 1)
}

} // verus!
