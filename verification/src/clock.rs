//! Today's date where the puzzles are released, read through `chrono`.

use chrono::{Datelike, FixedOffset, Utc};
use vstd::prelude::*;

verus! {

/// A day of the calendar, as plain numbers.
#[derive(Clone, Copy, Debug)]
pub struct CalendarDate {
    pub year: i32,
    pub month: u32,
    pub day: u32,
}

impl CalendarDate {
    /// The month and the day of the month lie in the calendar's ranges.
    pub open spec fn in_calendar(self) -> bool {
        &&& 1 <= self.month <= 12
        &&& 1 <= self.day <= 31
    }

    /// The year, the month and the day as integers.
    pub open spec fn numbers(self) -> (int, int, int) {
        (self.year as int, self.month as int, self.day as int)
    }
}

/// The year, month and day that `chrono` gives to the instant `unix_seconds`
/// seconds after the start of 1970 in UTC, on a calendar that runs `seconds_west`
/// seconds west of UTC.
pub uninterp spec fn civil_date(unix_seconds: int, seconds_west: int) -> (int, int, int);

/// The present instant and its date `seconds_west` seconds west of UTC:
/// `Utc::now`, its `DateTime::timestamp`, and its date in the zone of
/// `FixedOffset::west_opt`, to which `DateTime::with_timezone` moves it and which
/// `Datelike`'s `year`, `month` and `day` read. Trusted: the month is from 1 to 12
/// and the day from 1 to 31, and the date is the one that belongs to the returned
/// instant in that zone; which instant it is depends on the clock, so nothing is
/// claimed of it. `west_opt` has a zone for every offset of less than a day.
/// `Utc::now` panics where the clock is set before 1970, which no precondition
/// can rule out.
#[verifier::external_body]
pub(crate) fn today_west_of_utc(seconds_west: i32) -> (now: (i64, CalendarDate))
    requires
        -86_400 < seconds_west < 86_400,
    ensures
        now.1.in_calendar(),
        now.1.numbers() == civil_date(now.0 as int, seconds_west as int),
{
    let zone = FixedOffset::west_opt(seconds_west).unwrap();
    let instant = Utc::now();
    let local = instant.with_timezone(&zone);
    (instant.timestamp(), CalendarDate { year: local.year(), month: local.month(), day: local.day() })
}

} // verus!
