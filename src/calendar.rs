//! Calendar dates and local date-times, as plain numbers.

use chrono::{Datelike, Timelike};
use vstd::prelude::*;

verus! {

/// A calendar date.
#[derive(Clone, Copy, Debug, PartialEq, Eq, Structural)]
pub struct Date {
    pub year: i32,
    /// 1 to 12.
    pub month: u32,
    /// 1 to 31.
    pub day: u32,
}

/// A date with a time of day, without time zone.
#[derive(Clone, Copy, Debug, PartialEq, Eq, Structural)]
pub struct DateTime {
    pub date: Date,
    pub hour: u32,
    pub minute: u32,
    pub second: u32,
    pub nanosecond: u32,
}

/// Whether hour and minute name a time of day (seconds zero).
pub open spec fn is_time_of_day(hour: u32, minute: u32) -> bool {
    hour < 24 && minute < 60
}

/// Relies on chrono's `NaiveTime::from_hms_opt`, which gives a time exactly
/// when hour is below 24, minute below 60 and second below 60.
#[verifier::external_body]
fn time_of_day_exists(hour: u32, minute: u32) -> (r: bool)
    ensures
        r == is_time_of_day(hour, minute),
{
    chrono::NaiveTime::from_hms_opt(hour, minute, 0).is_some()
}

/// Relies on chrono's `Local::now` and `naive_local`: the current date and
/// time in the local time zone, whose month is 1 to 12, day 1 to 31, hour 0
/// to 23 and minute 0 to 59.
#[verifier::external_body]
pub(crate) fn now() -> (r: DateTime)
    ensures
        1 <= r.date.month <= 12,
        1 <= r.date.day <= 31,
        r.hour < 24,
        r.minute < 60,
{
    let t = chrono::Local::now().naive_local();
    DateTime {
        date: Date { year: t.year(), month: t.month(), day: t.day() },
        hour: t.hour(),
        minute: t.minute(),
        second: t.second(),
        nanosecond: t.nanosecond(),
    }
}

impl DateTime {
    /// The date-time with the given date and time of day, seconds zero.
    pub open spec fn spec_at(date: Date, hour: u32, minute: u32) -> DateTime {
        DateTime { date, hour, minute, second: 0, nanosecond: 0 }
    }

    /// The date-time at `hour`:`minute` of `date`; `None` when those are no time of day.
    pub fn at(date: Date, hour: u32, minute: u32) -> (r: Option<DateTime>)
        ensures
            is_time_of_day(hour, minute) ==> r == Some(DateTime::spec_at(date, hour, minute)),
            !is_time_of_day(hour, minute) ==> r is None,
    {
        if time_of_day_exists(hour, minute) {
            Some(DateTime { date, hour, minute, second: 0, nanosecond: 0 })
        } else {
            None
        }
    }

    /// The first of January 1970 at midnight.
    pub open spec fn epoch_spec() -> DateTime {
        DateTime {
            date: Date { year: 1970, month: 1, day: 1 },
            hour: 0,
            minute: 0,
            second: 0,
            nanosecond: 0,
        }
    }

    /// The first of January 1970 at midnight, the date-time of a blank record.
    pub fn epoch() -> (r: DateTime)
        ensures
            r == DateTime::epoch_spec(),
    {
        DateTime {
            date: Date { year: 1970, month: 1, day: 1 },
            hour: 0,
            minute: 0,
            second: 0,
            nanosecond: 0,
        }
    }
}

} // verus!
