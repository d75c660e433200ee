use vstd::prelude::*;

verus! {

/// A moment in UTC, held as plain calendar fields: the year, the day of the
/// year (1-based) and the second of the day.
///
/// For well-formed values chronological order coincides with lexicographic
/// order on `(year, day, sec)`: every second of a day precedes every second
/// of a later day, and every day of a year precedes every day of a later
/// year.
#[derive(Clone, Copy, Debug, PartialEq, Eq, Structural)]
pub struct Instant {
    pub year: i32,
    pub day: u32,
    pub sec: u32,
}

impl Instant {
    /// The fields name an actual day and second: days of a year count from 1
    /// to at most 366, and a day holds 86400 seconds.
    pub open spec fn wf(self) -> bool {
        &&& 1 <= self.day <= 366
        &&& self.sec < 86400
    }
}

/// Whether `a` is strictly earlier than `b` on the timeline.
pub open spec fn instant_lt(a: Instant, b: Instant) -> bool {
    ||| a.year < b.year
    ||| (a.year == b.year && a.day < b.day)
    ||| (a.year == b.year && a.day == b.day && a.sec < b.sec)
}

/// Compares two instants chronologically.
pub fn instant_before(a: Instant, b: Instant) -> (r: bool)
    ensures
        r == instant_lt(a, b),
{
    if a.year != b.year {
        a.year < b.year
    } else if a.day != b.day {
        a.day < b.day
    } else {
        a.sec < b.sec
    }
}

/// Leap years by the Gregorian rule: every fourth year, except every
/// hundredth, except every four-hundredth.
pub open spec fn spec_is_leap_year(y: int) -> bool {
    (y % 4 == 0 && y % 100 != 0) || y % 400 == 0
}

/// How many days the year `y` has: 366 in a leap year, 365 otherwise.
pub open spec fn spec_days_in_year(y: int) -> int {
    if spec_is_leap_year(y) {
        366
    } else {
        365
    }
}

/// Computes the length of a year in days.
pub fn days_in_year(y: u16) -> (n: u16)
    ensures
        n == spec_days_in_year(y as int),
{
    if (y % 4 == 0 && y % 100 != 0) || y % 400 == 0 {
        366
    } else {
        365
    }
}

} // verus!
