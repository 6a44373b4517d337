use vstd::prelude::*;

use crate::calendar::{days_in_month, precedes, valid_ymd, weekday_of, year_in_range, Date, Weekday};
use crate::year_month::{group_end, group_end_fits, group_start, YearMonth};

verus! {

/// Answers whether days, months, years and year groups may be selected.
pub trait HasDateConstraints {
    /// The day `date` may not be selected.
    spec fn day_forbidden(&self, date: Date) -> bool;

    /// No day of the month `ym` may be selected.
    spec fn month_forbidden(&self, ym: YearMonth) -> bool;

    /// No day of `year` may be selected.
    spec fn year_forbidden(&self, year: int) -> bool;

    /// No day of the year group that holds `year` may be selected.
    spec fn year_group_forbidden(&self, year: int) -> bool;

    /// Returns true if the given date is forbidden.
    fn is_day_forbidden(&self, date: &Date) -> (r: bool)
        requires
            date.wf(),
        ensures
            r == self.day_forbidden(*date),
    ;

    /// Returns true if the entire month described by `year_month_info` is forbidden.
    fn is_month_forbidden(&self, year_month_info: &YearMonth) -> (r: bool)
        requires
            year_month_info.wf(),
        ensures
            r == self.month_forbidden(*year_month_info),
    ;

    /// Returns true if the entire given year is forbidden.
    fn is_year_forbidden(&self, year: i32) -> (r: bool)
        ensures
            r == self.year_forbidden(year as int),
    ;

    /// Returns true if the entire group of years including the given year is forbidden.
    fn is_year_group_forbidden(&self, year: i32) -> (r: bool)
        requires
            group_end_fits(year as int),
        ensures
            r == self.year_group_forbidden(year as int),
    ;
}

/// The rules that forbid dates; a date is forbidden as soon as one rule matches it.
#[derive(Clone, Debug)]
pub struct DateConstraints {
    /// inclusive minimal date constraint: the earliest date that can be selected
    pub min_date: Option<Date>,
    /// inclusive maximal date constraint: the latest date that can be selected
    pub max_date: Option<Date>,
    /// disabled weekdays, that should not be selectable
    pub disabled_weekdays: Vec<Weekday>,
    /// entire completely disabled months, 1 for January up to 12 for December
    pub disabled_months: Vec<u32>,
    /// entire completely disabled years
    pub disabled_years: Vec<i32>,
    /// days of the month (1 to 31) that are disabled in every month
    pub disabled_monthly_dates: Vec<u32>,
    /// dates whose month and day are disabled in every year; their year is not read
    pub disabled_yearly_dates: Vec<Date>,
    /// single disabled dates
    pub disabled_unique_dates: Vec<Date>,
}

/// Some entry of `dates` falls on the same month and day as `date`.
pub open spec fn matches_yearly(dates: Seq<Date>, date: Date) -> bool {
    exists|i: int| 0 <= i < dates.len() && dates[i].month == date.month && dates[i].day == date.day
}

/// The day `day` of the month `ym`, as a date.
pub open spec fn day_of(ym: YearMonth, day: int) -> Date {
    Date { year: ym.year, month: ym.month, day: day as u32 }
}

fn contains_weekday(v: &Vec<Weekday>, x: Weekday) -> (r: bool)
    ensures
        r == v@.contains(x),
{
    let mut i: usize = 0;
    while i < v.len()
        invariant
            i <= v.len(),
            forall|j: int| 0 <= j < i ==> v@[j] != x,
        decreases v.len() - i,
    {
        if v[i] == x {
            return true;
        }
        i += 1;
    }
    false
}

fn contains_u32(v: &Vec<u32>, x: u32) -> (r: bool)
    ensures
        r == v@.contains(x),
{
    let mut i: usize = 0;
    while i < v.len()
        invariant
            i <= v.len(),
            forall|j: int| 0 <= j < i ==> v@[j] != x,
        decreases v.len() - i,
    {
        if v[i] == x {
            return true;
        }
        i += 1;
    }
    false
}

fn contains_i32(v: &Vec<i32>, x: i32) -> (r: bool)
    ensures
        r == v@.contains(x),
{
    let mut i: usize = 0;
    while i < v.len()
        invariant
            i <= v.len(),
            forall|j: int| 0 <= j < i ==> v@[j] != x,
        decreases v.len() - i,
    {
        if v[i] == x {
            return true;
        }
        i += 1;
    }
    false
}

fn contains_date(v: &Vec<Date>, x: &Date) -> (r: bool)
    ensures
        r == v@.contains(*x),
{
    let mut i: usize = 0;
    while i < v.len()
        invariant
            i <= v.len(),
            forall|j: int| 0 <= j < i ==> v@[j] != *x,
        decreases v.len() - i,
    {
        if v[i] == *x {
            return true;
        }
        i += 1;
    }
    false
}

fn contains_month_day(v: &Vec<Date>, x: &Date) -> (r: bool)
    ensures
        r == matches_yearly(v@, *x),
{
    let mut i: usize = 0;
    while i < v.len()
        invariant
            i <= v.len(),
            forall|j: int| 0 <= j < i ==> !(v@[j].month == x.month && v@[j].day == x.day),
        decreases v.len() - i,
    {
        if v[i].day == x.day && v[i].month == x.month {
            return true;
        }
        i += 1;
    }
    false
}

impl DateConstraints {
    /// Some rule matches `date`, whose weekday is `weekday`.
    pub open spec fn forbids(self, date: Date, weekday: Weekday) -> bool {
        ||| (self.min_date matches Some(min) && precedes(date, min))
        ||| (self.max_date matches Some(max) && precedes(max, date))
        ||| self.disabled_weekdays@.contains(weekday)
        ||| self.disabled_months@.contains(date.month)
        ||| self.disabled_years@.contains(date.year)
        ||| self.disabled_unique_dates@.contains(date)
        ||| self.disabled_monthly_dates@.contains(date.day)
        ||| matches_yearly(self.disabled_yearly_dates@, date)
    }

    /// No rule is set.
    pub open spec fn is_unconstrained(self) -> bool {
        &&& self.min_date is None
        &&& self.max_date is None
        &&& self.disabled_weekdays@.len() == 0
        &&& self.disabled_months@.len() == 0
        &&& self.disabled_years@.len() == 0
        &&& self.disabled_monthly_dates@.len() == 0
        &&& self.disabled_yearly_dates@.len() == 0
        &&& self.disabled_unique_dates@.len() == 0
    }

    /// Constraints with no rule set: every date is allowed.
    pub fn new() -> (r: DateConstraints)
        ensures
            r.is_unconstrained(),
    {
        DateConstraints {
            min_date: None,
            max_date: None,
            disabled_weekdays: Vec::new(),
            disabled_months: Vec::new(),
            disabled_years: Vec::new(),
            disabled_monthly_dates: Vec::new(),
            disabled_yearly_dates: Vec::new(),
            disabled_unique_dates: Vec::new(),
        }
    }

    /// Whether some rule forbids `date`, given that `date` falls on `weekday`.
    pub fn is_day_forbidden_on(&self, date: &Date, weekday: Weekday) -> (r: bool)
        ensures
            r == self.forbids(*date, weekday),
    {
        (match self.min_date {
            Some(min) => date.is_before(&min),
            None => false,
        }) || (match self.max_date {
            Some(max) => max.is_before(date),
            None => false,
        }) || contains_weekday(&self.disabled_weekdays, weekday) || contains_u32(
            &self.disabled_months,
            date.month,
        ) || contains_i32(&self.disabled_years, date.year) || contains_date(
            &self.disabled_unique_dates,
            date,
        ) || contains_u32(&self.disabled_monthly_dates, date.day) || contains_month_day(
            &self.disabled_yearly_dates,
            date,
        )
    }
}

impl Default for DateConstraints {
    /// Constraints with no rule set.
    fn default() -> (r: DateConstraints)
        ensures
            r.is_unconstrained(),
    {
        DateConstraints::new()
    }
}

impl HasDateConstraints for DateConstraints {
    open spec fn day_forbidden(&self, date: Date) -> bool {
        self.forbids(date, weekday_of(date))
    }

    /// Every existing day of the month is forbidden; a month outside the supported range
    /// of years has no such day.
    open spec fn month_forbidden(&self, ym: YearMonth) -> bool {
        forall|d: int|
            1 <= d <= days_in_month(ym.year as int, ym.month as int) && valid_ymd(
                ym.year as int,
                ym.month as int,
                d,
            ) ==> #[trigger] self.day_forbidden(day_of(ym, d))
    }

    open spec fn year_forbidden(&self, year: int) -> bool {
        forall|m: int|
            1 <= m <= 12 ==> #[trigger] self.month_forbidden(
                YearMonth { year: year as i32, month: m as u32 },
            )
    }

    open spec fn year_group_forbidden(&self, year: int) -> bool {
        forall|y: int|
            group_start(year) <= y <= group_end(year) ==> #[trigger] self.year_forbidden(y)
    }

    fn is_day_forbidden(&self, date: &Date) -> (r: bool) {
        let weekday = date.weekday();
        self.is_day_forbidden_on(date, weekday)
    }

    fn is_month_forbidden(&self, year_month_info: &YearMonth) -> (r: bool) {
        let mut day: u32 = 1;
        while day <= 31
            invariant
                1 <= day <= 32,
                year_month_info.wf(),
                forall|d: int|
                    1 <= d < day && valid_ymd(
                        year_month_info.year as int,
                        year_month_info.month as int,
                        d,
                    ) ==> #[trigger] self.day_forbidden(day_of(*year_month_info, d)),
            decreases 32 - day,
        {
            match Date::from_ymd_opt(year_month_info.year, year_month_info.month, day) {
                Some(date) => {
                    if !self.is_day_forbidden(&date) {
                        assert(date == day_of(*year_month_info, day as int));
                        return false;
                    }
                    assert(date == day_of(*year_month_info, day as int));
                },
                None => {
                    assert forall|d: int|
                        1 <= d <= days_in_month(
                            year_month_info.year as int,
                            year_month_info.month as int,
                        ) && valid_ymd(
                            year_month_info.year as int,
                            year_month_info.month as int,
                            d,
                        ) implies #[trigger] self.day_forbidden(day_of(*year_month_info, d)) by {
                        if d >= day {
                            assert(!valid_ymd(
                                year_month_info.year as int,
                                year_month_info.month as int,
                                d,
                            ));
                        }
                    }
                    return true;
                },
            }
            day += 1;
        }
        true
    }

    fn is_year_forbidden(&self, year: i32) -> (r: bool) {
        let mut month: u32 = 1;
        while month <= 12
            invariant
                1 <= month <= 13,
                forall|m: int|
                    1 <= m < month ==> #[trigger] self.month_forbidden(
                        YearMonth { year: year as i32, month: m as u32 },
                    ),
            decreases 13 - month,
        {
            if !self.is_month_forbidden(&YearMonth { year, month }) {
                assert(YearMonth { year, month } == YearMonth {
                    year: year as int as i32,
                    month: month as int as u32,
                });
                return false;
            }
            month += 1;
        }
        true
    }

    fn is_year_group_forbidden(&self, year: i32) -> (r: bool) {
        let start = crate::year_month::year_group_start(year);
        let mut offset: i32 = 0;
        while offset < 20
            invariant
                0 <= offset <= 20,
                start == group_start(year as int),
                group_end_fits(year as int),
                forall|y: int| start <= y < start + offset ==> #[trigger] self.year_forbidden(y),
            decreases 20 - offset,
        {
            if !self.is_year_forbidden(start + offset) {
                return false;
            }
            offset += 1;
        }
        true
    }
}

/// With no rule set, no date is forbidden.
pub proof fn lemma_unconstrained_forbids_nothing(c: DateConstraints, date: Date)
    requires
        c.is_unconstrained(),
    ensures
        !c.day_forbidden(date),
{
}

/// A month is forbidden exactly when each of its days is forbidden.
pub proof fn lemma_month_forbidden_iff_every_day(c: DateConstraints, ym: YearMonth)
    requires
        ym.wf(),
        year_in_range(ym.year as int),
    ensures
        c.month_forbidden(ym) <==> forall|d: int|
            1 <= d <= days_in_month(ym.year as int, ym.month as int) ==> #[trigger] c.day_forbidden(
                day_of(ym, d),
            ),
{
    if c.month_forbidden(ym) {
        assert forall|d: int|
            1 <= d <= days_in_month(ym.year as int, ym.month as int) implies
                #[trigger] c.day_forbidden(day_of(ym, d)) by {
            assert(valid_ymd(ym.year as int, ym.month as int, d));
        }
    }
}

/// A year is forbidden exactly when each of its twelve months is forbidden.
pub proof fn lemma_year_forbidden_iff_every_month(c: DateConstraints, year: i32)
    ensures
        c.year_forbidden(year as int) <==> forall|m: u32|
            1 <= m <= 12 ==> #[trigger] c.month_forbidden(YearMonth { year, month: m }),
{
    if c.year_forbidden(year as int) {
        assert forall|m: u32| 1 <= m <= 12 implies #[trigger] c.month_forbidden(
            YearMonth { year, month: m },
        ) by {
            assert(YearMonth { year, month: m } == YearMonth {
                year: year as int as i32,
                month: m as int as u32,
            });
        }
    }
    if forall|m: u32| 1 <= m <= 12 ==> #[trigger] c.month_forbidden(YearMonth { year, month: m }) {
        assert forall|m: int| 1 <= m <= 12 implies #[trigger] c.month_forbidden(
            YearMonth { year: year as int as i32, month: m as u32 },
        ) by {
            assert(c.month_forbidden(YearMonth { year, month: m as u32 }));
        }
    }
}

/// Where the only rule is a set of disabled weekdays, a date is forbidden exactly when its
/// weekday is in that set.
pub proof fn lemma_only_weekdays_disabled(c: DateConstraints, date: Date)
    requires
        c.min_date is None,
        c.max_date is None,
        c.disabled_months@.len() == 0,
        c.disabled_years@.len() == 0,
        c.disabled_monthly_dates@.len() == 0,
        c.disabled_yearly_dates@.len() == 0,
        c.disabled_unique_dates@.len() == 0,
    ensures
        c.day_forbidden(date) == c.disabled_weekdays@.contains(weekday_of(date)),
{
}

/// A disabled yearly date forbids the day of the same month and day in every year, whatever
/// year it was stored with.
pub proof fn lemma_yearly_date_recurs(c: DateConstraints, i: int, date: Date)
    requires
        0 <= i < c.disabled_yearly_dates@.len(),
        c.disabled_yearly_dates@[i].month == date.month,
        c.disabled_yearly_dates@[i].day == date.day,
    ensures
        c.day_forbidden(date),
{
}

} // verus!
