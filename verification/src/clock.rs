//! The wall clock, as plain numbers.
//!
//! The scheduler compares dates for equality and times of day by hour and
//! minute. A [`Moment`] holds just those readings, so that every rule that
//! depends on the time is a function of a `Moment` and can be stated exactly.

use chrono::{Datelike, Timelike};
use vstd::prelude::*;

verus! {

/// A calendar date in local time.
#[derive(Clone, Copy, Debug, PartialEq, Eq, Structural)]
pub struct Day {
    pub year: i32,
    /// 1 to 12.
    pub month: u32,
    /// 1 to 31.
    pub day: u32,
}

/// One reading of the local wall clock, to the minute.
#[derive(Clone, Copy, Debug, PartialEq, Eq, Structural)]
pub struct Moment {
    pub day: Day,
    /// Days since Monday: 0 for Monday, 6 for Sunday.
    pub weekday: u32,
    /// 0 to 23.
    pub hour: u32,
    /// 0 to 59.
    pub minute: u32,
}

impl Day {
    /// The fields are in the ranges of a calendar date.
    pub open spec fn wf(self) -> bool {
        &&& 1 <= self.month <= 12
        &&& 1 <= self.day <= 31
    }
}

impl Moment {
    /// The fields are in the ranges of a clock reading.
    pub open spec fn wf(self) -> bool {
        &&& self.day.wf()
        &&& self.weekday < 7
        &&& self.hour < 24
        &&& self.minute < 60
    }
}

/// The local date and time `days` times 24 hours ago: `chrono::Local::now()`
/// less `chrono::Duration::days(days)`.
///
/// Trusted: the fields are read with chrono's `year`, `month`, `day`,
/// `weekday().num_days_from_monday()`, `hour` and `minute`, whose documented
/// ranges are those of [`Moment::wf`]. Which moment comes back is the clock's
/// affair. chrono panics if the system clock is set before 1970, and where
/// the result leaves the years that it can represent, some 262,000 either
/// way; a century back from any time after 1970 stays within them.
#[verifier::external_body]
fn days_ago(days: i64) -> (m: Moment)
    requires
        0 <= days <= 36_500,
    ensures
        m.wf(),
{
    let t = chrono::Local::now() - chrono::Duration::days(days);
    Moment {
        day: Day { year: t.year(), month: t.month(), day: t.day() },
        weekday: t.weekday().num_days_from_monday(),
        hour: t.hour(),
        minute: t.minute(),
    }
}

/// The local date and time, by the wall clock.
pub fn now() -> (m: Moment)
    ensures
        m.wf(),
{
    days_ago(0)
}

/// The local date and time 24 hours ago, by the wall clock.
pub fn yesterday() -> (m: Moment)
    ensures
        m.wf(),
{
    days_ago(1)
}

} // verus!
