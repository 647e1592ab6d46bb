use vstd::prelude::*;

use crate::JulianDay;

verus! {

/// The Julian day number of -9999-01-01, the first date the calendar knows.
pub const FIRST_DAY: JulianDay = -1_930_999;

/// The Julian day number of 9999-12-31, the last date the calendar knows.
pub const LAST_DAY: JulianDay = 5_373_484;

/// Relies on time's `Date::from_julian_day`, `Date::next_day` and
/// `Date::to_julian_day`: the day after `day`, or `None` where `day` is the
/// last date or outside the calendar's range.
#[verifier::external_body]
pub(crate) fn day_after(day: JulianDay) -> (r: Option<JulianDay>)
    ensures
        r == (if FIRST_DAY <= day < LAST_DAY {
            Some((day + 1) as JulianDay)
        } else {
            None::<JulianDay>
        }),
{
    time::Date::from_julian_day(day).ok().and_then(time::Date::next_day).map(time::Date::to_julian_day)
}

/// Relies on time's `Date::from_julian_day`, `Date::previous_day` and
/// `Date::to_julian_day`: the day before `day`, or `None` where `day` is the
/// first date or outside the calendar's range.
#[verifier::external_body]
pub(crate) fn day_before(day: JulianDay) -> (r: Option<JulianDay>)
    ensures
        r == (if FIRST_DAY < day <= LAST_DAY {
            Some((day - 1) as JulianDay)
        } else {
            None::<JulianDay>
        }),
{
    time::Date::from_julian_day(day).ok().and_then(time::Date::previous_day).map(
        time::Date::to_julian_day,
    )
}

} // verus!
