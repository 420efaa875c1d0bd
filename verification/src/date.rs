//! Calendar dates, held as day numbers of the proleptic Gregorian calendar.
//!
//! A [`Date`] is the number of its day, counted so that 1 January of the
//! year 1 is day 1. Equality, order and distance in days are integer
//! arithmetic on that number. Whatever needs the calendar itself (the day
//! number of a year, month and day, or the month, the day of the month and
//! the day of the week of a day number) is computed by `chrono`.

use chrono::{Datelike, NaiveDate};
use vstd::prelude::*;

verus! {

/// Day number of the earliest date, 1 January of the year -262143.
pub const MIN_DAY_NUMBER: i32 = -95_746_129;

/// Day number of the latest date, 31 December of the year 262142.
pub const MAX_DAY_NUMBER: i32 = 95_745_399;

/// The day number of the calendar date `year`-`month`-`day`, or `None` where
/// the calendar has no such date.
pub uninterp spec fn civil_day_number(year: i32, month: u32, day: u32) -> Option<i32>;

/// The month, from 1 to 12, in which the day with this number falls.
pub uninterp spec fn month_of_day_number(day_number: i32) -> u32;

/// The day of the month, from 1 to 31, of the day with this number.
pub uninterp spec fn day_of_day_number(day_number: i32) -> u32;

/// The day of the week of the day with this number, counted from Monday as 0.
pub uninterp spec fn weekday_of_day_number(day_number: i32) -> u32;

/// Whether `day_number` is the number of a day that a [`Date`] can hold.
pub open spec fn is_day_number(day_number: int) -> bool {
    MIN_DAY_NUMBER <= day_number <= MAX_DAY_NUMBER
}

/// A day of the week.
#[derive(Clone, Copy, Debug, PartialEq, Eq, Structural)]
pub enum Weekday {
    Mon,
    Tue,
    Wed,
    Thu,
    Fri,
    Sat,
    Sun,
}

impl Weekday {
    /// The weekday that lies `days` days after a Monday; a number above 6
    /// counts as Sunday.
    pub open spec fn after_monday(days: u32) -> Weekday {
        if days == 0 {
            Weekday::Mon
        } else if days == 1 {
            Weekday::Tue
        } else if days == 2 {
            Weekday::Wed
        } else if days == 3 {
            Weekday::Thu
        } else if days == 4 {
            Weekday::Fri
        } else if days == 5 {
            Weekday::Sat
        } else {
            Weekday::Sun
        }
    }

    /// The weekday that lies `days` days after a Monday.
    pub fn from_days_after_monday(days: u32) -> (r: Weekday)
        ensures
            r == Weekday::after_monday(days),
    {
        match days {
            0 => Weekday::Mon,
            1 => Weekday::Tue,
            2 => Weekday::Wed,
            3 => Weekday::Thu,
            4 => Weekday::Fri,
            5 => Weekday::Sat,
            _ => Weekday::Sun,
        }
    }
}

/// A calendar date.
#[derive(Clone, Copy, Debug, PartialEq, Eq, Structural)]
pub struct Date {
    day_number: i32,
}

impl View for Date {
    type V = int;

    /// The date's day number.
    closed spec fn view(&self) -> int {
        self.day_number as int
    }
}

/// Asks `chrono` for the day number of a calendar date:
/// `NaiveDate::from_ymd_opt`, then `Datelike::num_days_from_ce` on the date it
/// made. The contract only gives the result its name.
#[verifier::external_body]
fn chrono_civil_day_number(year: i32, month: u32, day: u32) -> (r: Option<i32>)
    ensures
        r == civil_day_number(year, month, day),
{
    match NaiveDate::from_ymd_opt(year, month, day) {
        Some(date) => Some(date.num_days_from_ce()),
        None => None,
    }
}

/// Asks `chrono` for the month of a day number:
/// `NaiveDate::from_num_days_from_ce_opt`, then `Datelike::month`. Every day
/// number that `requires` admits is one that `chrono` makes a date of. The
/// contract only gives the result its name.
#[verifier::external_body]
fn chrono_month(day_number: i32) -> (r: u32)
    requires
        is_day_number(day_number as int),
    ensures
        r == month_of_day_number(day_number),
{
    NaiveDate::from_num_days_from_ce_opt(day_number).unwrap().month()
}

/// Asks `chrono` for the day of the month of a day number:
/// `NaiveDate::from_num_days_from_ce_opt`, then `Datelike::day`. The contract
/// only gives the result its name.
#[verifier::external_body]
fn chrono_day(day_number: i32) -> (r: u32)
    requires
        is_day_number(day_number as int),
    ensures
        r == day_of_day_number(day_number),
{
    NaiveDate::from_num_days_from_ce_opt(day_number).unwrap().day()
}

/// Asks `chrono` for the day of the week of a day number:
/// `NaiveDate::from_num_days_from_ce_opt`, then `Datelike::weekday` and
/// `Weekday::num_days_from_monday`. The contract only gives the result its
/// name.
#[verifier::external_body]
fn chrono_weekday(day_number: i32) -> (r: u32)
    requires
        is_day_number(day_number as int),
    ensures
        r == weekday_of_day_number(day_number),
{
    NaiveDate::from_num_days_from_ce_opt(day_number).unwrap().weekday().num_days_from_monday()
}

impl Date {
    #[verifier::type_invariant]
    spec fn in_range(self) -> bool {
        is_day_number(self.day_number as int)
    }

    /// The date with the given day number, where there is one.
    pub fn from_day_number(day_number: i32) -> (r: Option<Date>)
        ensures
            is_day_number(day_number as int) ==> r.is_some() && r.unwrap()@ == day_number,
            !is_day_number(day_number as int) ==> r.is_none(),
    {
        if MIN_DAY_NUMBER <= day_number && day_number <= MAX_DAY_NUMBER {
            Some(Date { day_number })
        } else {
            None
        }
    }

    /// The date `year`-`month`-`day`, where the calendar has that date.
    pub fn from_ymd(year: i32, month: u32, day: u32) -> (r: Option<Date>)
        ensures
            match civil_day_number(year, month, day) {
                Some(n) if is_day_number(n as int) => r.is_some() && r.unwrap()@ == n,
                _ => r.is_none(),
            },
    {
        match chrono_civil_day_number(year, month, day) {
            Some(n) => Date::from_day_number(n),
            None => None,
        }
    }

    /// The date's day number.
    pub fn day_number(&self) -> (r: i32)
        ensures
            r == self@,
            is_day_number(r as int),
    {
        proof {
            use_type_invariant(self);
        }
        self.day_number
    }

    /// The month of the year, from 1 for January.
    pub fn month(&self) -> (r: u32)
        ensures
            r == month_of_day_number(self@ as i32),
    {
        proof {
            use_type_invariant(self);
        }
        chrono_month(self.day_number)
    }

    /// The day of the month, from 1.
    pub fn day(&self) -> (r: u32)
        ensures
            r == day_of_day_number(self@ as i32),
    {
        proof {
            use_type_invariant(self);
        }
        chrono_day(self.day_number)
    }

    /// The day of the week.
    pub fn weekday(&self) -> (r: Weekday)
        ensures
            r == Weekday::after_monday(weekday_of_day_number(self@ as i32)),
    {
        proof {
            use_type_invariant(self);
        }
        Weekday::from_days_after_monday(chrono_weekday(self.day_number))
    }

    /// The date `days` days after this one (before it, where `days` is
    /// negative), or `None` where that day lies outside the calendar.
    pub fn checked_add_days(&self, days: i32) -> (r: Option<Date>)
        ensures
            is_day_number(self@ + days) ==> r.is_some() && r.unwrap()@ == self@ + days,
            !is_day_number(self@ + days) ==> r.is_none(),
    {
        proof {
            use_type_invariant(self);
        }
        let sum: i64 = self.day_number as i64 + days as i64;
        if MIN_DAY_NUMBER as i64 <= sum && sum <= MAX_DAY_NUMBER as i64 {
            Some(Date { day_number: sum as i32 })
        } else {
            None
        }
    }

    /// Whether `today` is an anniversary of this date: the same month and the
    /// same day of the month.
    pub fn is_birthday(&self, today: Date) -> (r: bool)
        ensures
            r == is_anniversary(self@, today@),
    {
        self.month() == today.month() && self.day() == today.day()
    }
}

/// Whether the days numbered `birth` and `today` fall on the same month and
/// day of the month.
pub open spec fn is_anniversary(birth: int, today: int) -> bool {
    &&& month_of_day_number(birth as i32) == month_of_day_number(today as i32)
    &&& day_of_day_number(birth as i32) == day_of_day_number(today as i32)
}

} // verus!
