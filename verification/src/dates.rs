//! Calendar arithmetic on day numbers, done by chrono.
use vstd::prelude::*;
use chrono::Datelike;

use crate::rows::Day;

verus! {

/// Day number of chrono's earliest date (January 1 of year -262143).
pub const MIN_DAY: i32 = -95746129;

/// Day number of chrono's latest date (December 31 of year 262142).
pub const MAX_DAY: i32 = 95745399;

/// Whether a day number is a date that chrono can represent.
pub open spec fn day_in_range(d: int) -> bool {
    MIN_DAY <= d <= MAX_DAY
}

/// `NaiveDate::from_num_days_from_ce_opt`, `NaiveDate::checked_add_signed`
/// and `Datelike::num_days_from_ce`: shifts a date by whole days. chrono
/// returns no date when the start or the result is outside its range, and
/// otherwise the date `delta` days later (earlier, for negative `delta`).
#[verifier::external_body]
fn checked_shift_days(day: i32, delta: i32) -> (r: Option<i32>)
    ensures
        (r is Some) == (day_in_range(day as int) && day_in_range(day + delta)),
        r matches Some(v) ==> v == day + delta,
{
    match chrono::NaiveDate::from_num_days_from_ce_opt(day) {
        Some(d) => match d.checked_add_signed(chrono::TimeDelta::days(delta as i64)) {
            Some(e) => Some(e.num_days_from_ce()),
            None => None,
        },
        None => None,
    }
}

/// The week step of the date editors: seven days later for a positive
/// `delta`, seven days earlier otherwise.
pub open spec fn spec_week_step(delta: int) -> int {
    if delta > 0 {
        7
    } else {
        -7
    }
}

/// The date one week after (positive `delta`) or before `day`.
pub fn shift_week(day: Day, delta: i32) -> (r: Day)
    requires
        day_in_range(day as int),
        day_in_range(day + spec_week_step(delta as int)),
    ensures
        r == day + spec_week_step(delta as int),
{
    let days: i32 = if delta > 0 {
        7
    } else {
        -7
    };
    match checked_shift_days(day, days) {
        Some(v) => v,
        None => day,
    }
}

} // verus!
