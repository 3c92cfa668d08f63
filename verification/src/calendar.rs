//! Calendar dates, as the `time` crate holds them.
//!
//! A `Date` is opaque to the verifier. What the library reads from one, its
//! year, month and day of the month, is named here, and each reading is a
//! call into `time` whose contract is taken on trust.

use vstd::prelude::*;
use time::Date;

verus! {

/// Makes `time::Date` known to the verifier as a type whose inside it does
/// not see.
#[verifier::external_type_specification]
#[verifier::external_body]
pub struct ExDate(time::Date);

/// The calendar year of a date: what `time::Date::year` returns for it.
pub uninterp spec fn year_of(date: Date) -> int;

/// The month of a date, counted from one for January: the number of what
/// `time::Date::month` returns for it.
pub uninterp spec fn month_of(date: Date) -> int;

/// The day of the month of a date, counted from one: what `time::Date::day`
/// returns for it.
pub uninterp spec fn day_of(date: Date) -> int;

/// Calls `time::Date::year`. Trusted: the result is the date's year.
#[verifier::external_body]
pub(crate) fn date_year(date: Date) -> (year: i32)
    ensures
        year == year_of(date),
{
    date.year()
}

/// Calls `time::Date::month` and takes the month's number, which `time`
/// defines as one for January up to twelve for December. Trusted: the result
/// is the date's month, within those bounds.
#[verifier::external_body]
pub(crate) fn date_month(date: Date) -> (month: u8)
    ensures
        month == month_of(date),
        1 <= month <= 12,
{
    u8::from(date.month())
}

/// Calls `time::Date::day`. Trusted: the result is the date's day of the
/// month, which `time` documents to lie between one and thirty-one.
#[verifier::external_body]
pub(crate) fn date_day(date: Date) -> (day: u8)
    ensures
        day == day_of(date),
        1 <= day <= 31,
{
    date.day()
}

} // verus!
