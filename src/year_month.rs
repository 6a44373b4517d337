use core::ops::RangeInclusive;
use vstd::prelude::*;

use crate::calendar::{year_in_range, Date};

verus! {

/// Number of years shown on one page of the year selection.
pub const YEARS_IN_YEAR_SELECTION: i32 = 20;

/// Remainder of `year / 20` with Rust's truncating convention: it takes the sign of `year`.
pub open spec fn truncated_rem(year: int) -> int {
    if year >= 0 {
        year % 20
    } else {
        -((-year) % 20)
    }
}

/// First year of the year group that holds `year`.
pub open spec fn group_start(year: int) -> int {
    year - truncated_rem(year)
}

/// Last year of the year group that holds `year`.
pub open spec fn group_end(year: int) -> int {
    group_start(year) + 19
}

/// The last year of the year group of `year` fits in an `i32`.
pub open spec fn group_end_fits(year: int) -> bool {
    group_end(year) <= i32::MAX
}

/// The first year of the group of `YEARS_IN_YEAR_SELECTION` years that holds `year`.
pub fn year_group_start(year: i32) -> (r: i32)
    ensures
        r == group_start(year as int),
{
    year - (year % YEARS_IN_YEAR_SELECTION)
}

/// The last year of the group of `YEARS_IN_YEAR_SELECTION` years that holds `year`.
pub fn year_group_end(year: i32) -> (r: i32)
    requires
        group_end_fits(year as int),
    ensures
        r == group_end(year as int),
{
    year_group_start(year) + (YEARS_IN_YEAR_SELECTION - 1)
}

/// All years of the group that holds `year`, first to last.
pub fn year_group_range(year: i32) -> (r: RangeInclusive<i32>)
    requires
        group_end_fits(year as int),
    ensures
        r@.start == group_start(year as int),
        r@.end == group_end(year as int),
        !r@.exhausted,
{
    RangeInclusive::new(year_group_start(year), year_group_end(year))
}

/// A month of a given year: the period that the day view shows.
#[derive(Clone, Copy, Debug, PartialEq, Eq, Structural, Hash)]
pub struct YearMonth {
    pub year: i32,
    /// 1 for January up to 12 for December
    pub month: u32,
}

/// The month that comes before `ym`.
pub open spec fn month_before(ym: YearMonth) -> YearMonth {
    if ym.month == 1 {
        YearMonth { year: (ym.year - 1) as i32, month: 12 }
    } else {
        YearMonth { year: ym.year, month: (ym.month - 1) as u32 }
    }
}

/// The month that comes after `ym`.
pub open spec fn month_after(ym: YearMonth) -> YearMonth {
    if ym.month == 12 {
        YearMonth { year: (ym.year + 1) as i32, month: 1 }
    } else {
        YearMonth { year: ym.year, month: (ym.month + 1) as u32 }
    }
}

impl YearMonth {
    /// The month number lies in 1..=12.
    pub open spec fn wf(self) -> bool {
        1 <= self.month <= 12
    }

    /// The month in which `date` lies.
    pub fn from_date(date: &Date) -> (r: YearMonth)
        requires
            date.wf(),
        ensures
            r.wf(),
            r.year == date.year,
            r.month == date.month,
    {
        YearMonth { year: date.year, month: date.month }
    }

    /// The previous month; January steps back to December of the previous year.
    pub fn previous_month(&self) -> (r: YearMonth)
        requires
            self.wf(),
            self.month == 1 ==> self.year > i32::MIN,
        ensures
            r.wf(),
            r == month_before(*self),
    {
        if self.month == 1 {
            YearMonth { year: self.year - 1, month: 12 }
        } else {
            YearMonth { year: self.year, month: self.month - 1 }
        }
    }

    /// The next month; December steps on to January of the next year.
    pub fn next_month(&self) -> (r: YearMonth)
        requires
            self.wf(),
            self.month == 12 ==> self.year < i32::MAX,
        ensures
            r.wf(),
            r == month_after(*self),
    {
        if self.month == 12 {
            YearMonth { year: self.year + 1, month: 1 }
        } else {
            YearMonth { year: self.year, month: self.month + 1 }
        }
    }

    /// The first day of this month.
    pub fn first_day_of_month(&self) -> (r: Date)
        requires
            self.wf(),
            year_in_range(self.year as int),
        ensures
            r.wf(),
            r == (Date { year: self.year, month: self.month, day: 1 }),
    {
        Date { year: self.year, month: self.month, day: 1 }
    }

    /// Whether `date` lies in this month.
    pub fn contains(&self, date: &Date) -> (r: bool)
        ensures
            r == (self.year == date.year && self.month == date.month),
    {
        self.year == date.year && self.month == date.month
    }

    /// The same month of the previous year.
    pub fn previous_year(&self) -> (r: YearMonth)
        requires
            self.year > i32::MIN,
        ensures
            r == (YearMonth { year: (self.year - 1) as i32, month: self.month }),
    {
        YearMonth { year: self.year - 1, month: self.month }
    }

    /// The same month of the next year.
    pub fn next_year(&self) -> (r: YearMonth)
        requires
            self.year < i32::MAX,
        ensures
            r == (YearMonth { year: (self.year + 1) as i32, month: self.month }),
    {
        YearMonth { year: self.year + 1, month: self.month }
    }

    /// The same month in the last year of the previous year group.
    pub fn previous_year_group(&self) -> (r: YearMonth)
        requires
            group_start(self.year as int) > i32::MIN,
        ensures
            r == (YearMonth {
                year: (group_start(self.year as int) - 1) as i32,
                month: self.month,
            }),
    {
        YearMonth { year: year_group_start(self.year) - 1, month: self.month }
    }

    /// The same month in the first year of the next year group.
    pub fn next_year_group(&self) -> (r: YearMonth)
        requires
            group_end(self.year as int) < i32::MAX,
        ensures
            r == (YearMonth {
                year: (group_end(self.year as int) + 1) as i32,
                month: self.month,
            }),
    {
        YearMonth { year: year_group_end(self.year) + 1, month: self.month }
    }
}

impl From<Date> for YearMonth {
    /// The month in which `date` lies.
    fn from(date: Date) -> (r: YearMonth) {
        YearMonth { year: date.year, month: date.month }
    }
}

impl vstd::std_specs::convert::FromSpecImpl<Date> for YearMonth {
    open spec fn obeys_from_spec() -> bool {
        true
    }

    open spec fn from_spec(date: Date) -> YearMonth {
        YearMonth { year: date.year, month: date.month }
    }
}

} // verus!
