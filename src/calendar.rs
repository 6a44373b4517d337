use chrono::Datelike;
use vstd::prelude::*;

use crate::dialog_view_type::DialogViewType;

verus! {

/// Earliest year that a `Date` can hold.
pub const MIN_YEAR: i32 = -262143;

/// Latest year that a `Date` can hold.
pub const MAX_YEAR: i32 = 262142;

/// Gregorian leap year rule, extended to all years (proleptic calendar).
pub open spec fn is_leap_year(year: int) -> bool {
    year % 4 == 0 && (year % 100 != 0 || year % 400 == 0)
}

/// Number of days of `month` (1 to 12) in `year`.
pub open spec fn days_in_month(year: int, month: int) -> int {
    if month == 2 {
        if is_leap_year(year) {
            29
        } else {
            28
        }
    } else if month == 4 || month == 6 || month == 9 || month == 11 {
        30
    } else {
        31
    }
}

/// A year within the supported range of dates.
pub open spec fn year_in_range(year: int) -> bool {
    MIN_YEAR <= year <= MAX_YEAR
}

/// Whether (year, month, day) names an existing day of the calendar.
pub open spec fn valid_ymd(year: int, month: int, day: int) -> bool {
    &&& year_in_range(year)
    &&& 1 <= month <= 12
    &&& 1 <= day <= days_in_month(year, month)
}

/// The weekday of an existing day, counted from Monday (0) to Sunday (6).
pub uninterp spec fn weekday_number(year: int, month: int, day: int) -> int;

/// The text that a strftime-like pattern gives for a day, or `None` where the pattern
/// cannot be applied to a date.
pub uninterp spec fn formatted_date(pattern: Seq<char>, year: int, month: int, day: int) -> Option<Seq<char>>;

/// The period that a view of granularity `t` shows around `viewed` holds `date`: the same
/// year, the same month, or the same day.
pub open spec fn period_holds(viewed: Date, t: DialogViewType, date: Date) -> bool {
    match t {
        DialogViewType::Years => viewed.year == date.year,
        DialogViewType::Months => viewed.year == date.year && viewed.month == date.month,
        DialogViewType::Days => viewed == date,
    }
}

/// The ISO 8601 text of a day (`2020-01-16`).
pub uninterp spec fn iso_date_text(year: int, month: int, day: int) -> Seq<char>;

/// Day of the week.
#[derive(Clone, Copy, Debug, PartialEq, Eq, Structural, Hash)]
pub enum Weekday {
    Mon,
    Tue,
    Wed,
    Thu,
    Fri,
    Sat,
    Sun,
}

impl Weekday {
    /// Position of the weekday, Monday being 0.
    pub open spec fn index(self) -> int {
        match self {
            Weekday::Mon => 0,
            Weekday::Tue => 1,
            Weekday::Wed => 2,
            Weekday::Thu => 3,
            Weekday::Fri => 4,
            Weekday::Sat => 5,
            Weekday::Sun => 6,
        }
    }

    /// The weekday at position `n` (0 to 6), Monday being 0.
    pub open spec fn from_index(n: int) -> Weekday {
        if n == 0 {
            Weekday::Mon
        } else if n == 1 {
            Weekday::Tue
        } else if n == 2 {
            Weekday::Wed
        } else if n == 3 {
            Weekday::Thu
        } else if n == 4 {
            Weekday::Fri
        } else if n == 5 {
            Weekday::Sat
        } else {
            Weekday::Sun
        }
    }

    /// Number of days since the preceding Monday.
    pub fn num_days_from_monday(&self) -> (r: u32)
        ensures
            r == self.index(),
    {
        match self {
            Weekday::Mon => 0,
            Weekday::Tue => 1,
            Weekday::Wed => 2,
            Weekday::Thu => 3,
            Weekday::Fri => 4,
            Weekday::Sat => 5,
            Weekday::Sun => 6,
        }
    }

    /// The weekday that lies `n` days after a Monday.
    pub fn from_days_from_monday(n: u32) -> (r: Weekday)
        requires
            n < 7,
        ensures
            r == Weekday::from_index(n as int),
            r.index() == n,
    {
        if n == 0 {
            Weekday::Mon
        } else if n == 1 {
            Weekday::Tue
        } else if n == 2 {
            Weekday::Wed
        } else if n == 3 {
            Weekday::Thu
        } else if n == 4 {
            Weekday::Fri
        } else if n == 5 {
            Weekday::Sat
        } else {
            Weekday::Sun
        }
    }
}

/// A day of the proleptic Gregorian calendar.
///
/// The fields are plain numbers; `wf` states that they name an existing day.
#[derive(Clone, Copy, Debug, PartialEq, Eq, Structural, Hash)]
pub struct Date {
    pub year: i32,
    pub month: u32,
    pub day: u32,
}

/// The weekday of a well-formed date.
pub open spec fn weekday_of(date: Date) -> Weekday {
    Weekday::from_index(weekday_number(date.year as int, date.month as int, date.day as int))
}

/// Chronological order: `a` lies strictly before `b`.
pub open spec fn precedes(a: Date, b: Date) -> bool {
    ||| a.year < b.year
    ||| a.year == b.year && a.month < b.month
    ||| a.year == b.year && a.month == b.month && a.day < b.day
}

/// Relies on chrono's `NaiveDate::from_ymd_opt`, which gives `None` exactly for a day that
/// does not exist or whose year lies outside its supported range.
#[verifier::external_body]
fn chrono_date_exists(year: i32, month: u32, day: u32) -> (r: bool)
    ensures
        r == valid_ymd(year as int, month as int, day as int),
{
    chrono::NaiveDate::from_ymd_opt(year, month, day).is_some()
}

/// Relies on chrono's `Datelike::weekday` of a `NaiveDate`, read as `num_days_from_monday`,
/// which lies in 0..7.
#[verifier::external_body]
fn chrono_weekday(year: i32, month: u32, day: u32) -> (r: u32)
    requires
        valid_ymd(year as int, month as int, day as int),
    ensures
        r < 7,
        r == weekday_number(year as int, month as int, day as int),
{
    chrono::NaiveDate::from_ymd_opt(year, month, day).unwrap().weekday().num_days_from_monday()
}

/// Relies on chrono's `NaiveDate::format` with `DelayedFormat::write_to`, which fails (and
/// then gives no text) where the pattern holds an unknown or inapplicable specifier.
#[verifier::external_body]
fn chrono_format(year: i32, month: u32, day: u32, pattern: &str) -> (r: Option<String>)
    requires
        valid_ymd(year as int, month as int, day as int),
    ensures
        formatted_date(pattern@, year as int, month as int, day as int) == match r {
            Some(s) => Some(s@),
            None => None::<Seq<char>>,
        },
{
    let date = chrono::NaiveDate::from_ymd_opt(year, month, day).unwrap();
    let mut text = String::new();
    match date.format(pattern).write_to(&mut text) {
        Ok(()) => Some(text),
        Err(_) => None,
    }
}

/// Relies on chrono's `Debug` of `NaiveDate`, which writes the ISO 8601 form of the day.
#[verifier::external_body]
fn chrono_iso_text(year: i32, month: u32, day: u32) -> (r: String)
    requires
        valid_ymd(year as int, month as int, day as int),
    ensures
        r@ == iso_date_text(year as int, month as int, day as int),
{
    format!("{:?}", chrono::NaiveDate::from_ymd_opt(year, month, day).unwrap())
}

/// Relies on chrono's `Local::now` and `DateTime::date_naive`: today's date in the local
/// time zone, which is always an existing day.
#[verifier::external_body]
fn chrono_today() -> (r: Date)
    ensures
        r.wf(),
{
    let today = chrono::Local::now().date_naive();
    Date { year: today.year(), month: today.month(), day: today.day() }
}

impl Date {
    /// The numbers name an existing day within the supported range.
    pub open spec fn wf(self) -> bool {
        valid_ymd(self.year as int, self.month as int, self.day as int)
    }

    /// The date of the given day, if that day exists.
    pub fn from_ymd_opt(year: i32, month: u32, day: u32) -> (r: Option<Date>)
        ensures
            r is Some <==> valid_ymd(year as int, month as int, day as int),
            r matches Some(d) ==> d == (Date { year, month, day }),
    {
        if chrono_date_exists(year, month, day) {
            Some(Date { year, month, day })
        } else {
            None
        }
    }

    /// Today's date, read from the system clock in the local time zone.
    pub fn today() -> (r: Date)
        ensures
            r.wf(),
    {
        chrono_today()
    }

    /// The day of the week of this date.
    pub fn weekday(&self) -> (r: Weekday)
        requires
            self.wf(),
        ensures
            r == weekday_of(*self),
    {
        let n = chrono_weekday(self.year, self.month, self.day);
        Weekday::from_days_from_monday(n)
    }

    /// Whether this date lies strictly before `other`.
    pub fn is_before(&self, other: &Date) -> (r: bool)
        ensures
            r == precedes(*self, *other),
    {
        self.year < other.year || (self.year == other.year && (self.month < other.month || (
        self.month == other.month && self.day < other.day)))
    }

    /// Returns true if the period of granularity `dialog_view_type` around this date holds
    /// `date`.
    pub fn contains(&self, dialog_view_type: &DialogViewType, date: &Date) -> (r: bool)
        ensures
            r == period_holds(*self, *dialog_view_type, *date),
    {
        match dialog_view_type {
            DialogViewType::Years => self.year == date.year,
            DialogViewType::Months => self.year == date.year && self.month == date.month,
            DialogViewType::Days => *self == *date,
        }
    }

    /// The date formatted with a strftime-like `pattern`, or `None` where chrono cannot
    /// apply the pattern to a date.
    pub fn format(&self, pattern: &str) -> (r: Option<String>)
        requires
            self.wf(),
        ensures
            formatted_date(pattern@, self.year as int, self.month as int, self.day as int)
                == match r {
                Some(s) => Some(s@),
                None => None::<Seq<char>>,
            },
    {
        chrono_format(self.year, self.month, self.day, pattern)
    }

    /// The ISO 8601 text of this date (`2020-01-16`).
    pub fn iso_text(&self) -> (r: String)
        requires
            self.wf(),
        ensures
            r@ == iso_date_text(self.year as int, self.month as int, self.day as int),
    {
        chrono_iso_text(self.year, self.month, self.day)
    }
}

} // verus!
