//! The leap-year payload exercised through the runtime.
//!
//! The same predicate exists on the host side so that a guest module's answer
//! can be checked against a specification, and so that the host can answer
//! directly for the year the wall clock supplies.

use vstd::prelude::*;
use crate::clock::wall_clock_year;
use crate::errors::RuntimeError;

verus! {

/// A year is a leap year under the proleptic Gregorian rule.
pub open spec fn spec_is_leap_year(y: int) -> bool {
    y % 4 == 0 && (y % 100 != 0 || y % 400 == 0)
}

/// Returns 1 if `year` is a leap year under the proleptic Gregorian rule,
/// else 0, following the boundary's boolean-as-integer convention.
pub fn is_leap_year(year: i32) -> (r: i32)
    ensures
        r == if spec_is_leap_year(year as int) { 1int } else { 0int },
{
    if year % 4 == 0 && (year % 100 != 0 || year % 400 == 0) {
        1
    } else {
        0
    }
}

/// Applies the leap-year predicate to the year the wall clock supplies.
/// The answer follows the boolean-as-integer convention; which year is
/// tested depends on the machine's clock, and a clock the host cannot read
/// fails as `ExecutionTrap` rather than aborting.
pub fn is_it_leap_year_now() -> (r: Result<i32, RuntimeError>)
    ensures
        r matches Ok(flag) ==> (flag == 0 || flag == 1),
        r matches Err(e) ==> e is ExecutionTrap,
{
    match wall_clock_year() {
        Ok(year) => Ok(is_leap_year(year)),
        Err(msg) => Err(RuntimeError::ExecutionTrap(msg)),
    }
}

} // verus!
