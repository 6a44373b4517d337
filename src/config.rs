use vstd::prelude::*;

use crate::calendar::{iso_date_text, precedes, Date, Weekday};
use crate::date_constraints::{DateConstraints, HasDateConstraints};
use crate::dialog_view_type::DialogViewType;
use crate::year_month::YearMonth;

verus! {

/// Why a configuration could not be built.
#[derive(Clone, Copy, Debug, PartialEq, Eq, Structural)]
pub enum PickerConfigError {
    /// both bounds are set and the minimal date lies after the maximal date
    MinAfterMax,
    /// the initial view shows smaller units than the selection type allows
    InitialViewFinerThanSelection,
    /// the initial date is forbidden by the date constraints
    InitialDateForbidden(Date),
}

/// Text of the error message for `e`.
pub open spec fn error_text(e: PickerConfigError) -> Seq<char> {
    match e {
        PickerConfigError::MinAfterMax => "min_date must be earlier or exactly at max_date"@,
        PickerConfigError::InitialViewFinerThanSelection =>
            "initial_view_type can have at most selection_type scale"@,
        PickerConfigError::InitialDateForbidden(d) => "The initial_date "@ + iso_date_text(
            d.year as int,
            d.month as int,
            d.day as int,
        ) + " is forbidden by the date_constraints."@,
    }
}

/// Message that reports an initial date, written as `date_text`, as forbidden.
pub fn initial_date_forbidden_message(date_text: &str) -> (r: String)
    ensures
        r@ == "The initial_date "@ + date_text@ + " is forbidden by the date_constraints."@,
{
    let mut text = String::from_str("The initial_date ");
    text.append(date_text);
    text.append(" is forbidden by the date_constraints.");
    text
}

impl PickerConfigError {
    /// The error message.
    pub fn message(&self) -> (r: String)
        requires
            self matches PickerConfigError::InitialDateForbidden(d) ==> d.wf(),
        ensures
            r@ == error_text(*self),
    {
        match self {
            PickerConfigError::MinAfterMax => String::from_str(
                "min_date must be earlier or exactly at max_date",
            ),
            PickerConfigError::InitialViewFinerThanSelection => String::from_str(
                "initial_view_type can have at most selection_type scale",
            ),
            PickerConfigError::InitialDateForbidden(d) => {
                let date_text = d.iso_text();
                initial_date_forbidden_message(date_text.as_str())
            },
        }
    }
}

/// Configuration for the datepicker; built once by `PickerConfigBuilder` and not changed
/// afterwards.
pub struct PickerConfig {
    date_constraints: DateConstraints,
    initial_date: Option<Date>,
    initial_view_type: DialogViewType,
    selection_type: DialogViewType,
    initially_opened: bool,
    month_title_format: String,
}

/// Whether `min` lies after `max`, where both are set.
pub open spec fn bounds_crossed(min: Option<Date>, max: Option<Date>) -> bool {
    min matches Some(lo) && max matches Some(hi) && precedes(hi, lo)
}

impl PickerConfig {
    /// possible constraints to prevent the user from selecting some dates
    pub closed spec fn constraints(&self) -> DateConstraints {
        self.date_constraints
    }

    /// the date that the datepicker starts at
    pub closed spec fn initial(&self) -> Option<Date> {
        self.initial_date
    }

    /// the view type that the datepicker starts with
    pub closed spec fn initial_view(&self) -> DialogViewType {
        self.initial_view_type
    }

    /// the coarsest unit that a selection picks
    pub closed spec fn selection(&self) -> DialogViewType {
        self.selection_type
    }

    /// whether the dialog is open right after initialisation
    pub closed spec fn opened(&self) -> bool {
        self.initially_opened
    }

    /// chrono pattern of the title of the day view
    pub closed spec fn title_format(&self) -> Seq<char> {
        self.month_title_format@
    }

    /// What the builder checked: the bounds are ordered, the initial view is not finer than
    /// the selection type, and the initial date exists and is allowed.
    pub open spec fn wf(&self) -> bool {
        &&& !bounds_crossed(self.constraints().min_date, self.constraints().max_date)
        &&& self.initial_view().rank() <= self.selection().rank()
        &&& self.initial() matches Some(d) ==> d.wf() && !self.constraints().day_forbidden(d)
    }

    /// possible constraints to prevent the user from selecting some dates
    pub fn date_constraints(&self) -> (r: &DateConstraints)
        ensures
            *r == self.constraints(),
    {
        &self.date_constraints
    }

    /// initializes the datepicker to this value
    pub fn initial_date(&self) -> (r: &Option<Date>)
        ensures
            *r == self.initial(),
    {
        &self.initial_date
    }

    /// initializes the view type to this value
    pub fn initial_view_type(&self) -> (r: &DialogViewType)
        ensures
            *r == self.initial_view(),
    {
        &self.initial_view_type
    }

    /// selection type, to make it possible to select for example only a year, or only a month
    pub fn selection_type(&self) -> (r: &DialogViewType)
        ensures
            *r == self.selection(),
    {
        &self.selection_type
    }

    /// whether the dialog should be immediately opened after initialisation
    pub fn initially_opened(&self) -> (r: &bool)
        ensures
            *r == self.opened(),
    {
        &self.initially_opened
    }

    /// chrono formatting string for the title of the month
    pub fn month_title_format(&self) -> (r: &String)
        ensures
            r@ == self.title_format(),
    {
        &self.month_title_format
    }

    /// The month to show first, given today's date `today`: the month of the initial date
    /// if there is one, else the month of `today`.
    pub fn guess_allowed_year_month_at(&self, today: &Date) -> (r: YearMonth)
        requires
            self.wf(),
            today.wf(),
        ensures
            r.wf(),
            self.initial() matches Some(d) ==> r.year == d.year && r.month == d.month,
            self.initial() is None ==> r.year == today.year && r.month == today.month,
    {
        match self.initial_date {
            Some(init_date) => YearMonth::from_date(&init_date),
            None => YearMonth::from_date(today),
        }
    }

    /// The month to show first: the month of the initial date if there is one, else the
    /// current month of the local clock.
    pub fn guess_allowed_year_month(&self) -> (r: YearMonth)
        requires
            self.wf(),
        ensures
            r.wf(),
            self.initial() matches Some(d) ==> r.year == d.year && r.month == d.month,
    {
        match self.initial_date {
            Some(init_date) => YearMonth::from_date(&init_date),
            None => {
                let today = Date::today();
                self.guess_allowed_year_month_at(&today)
            },
        }
    }
}

impl HasDateConstraints for PickerConfig {
    open spec fn day_forbidden(&self, date: Date) -> bool {
        self.constraints().day_forbidden(date)
    }

    open spec fn month_forbidden(&self, ym: YearMonth) -> bool {
        self.constraints().month_forbidden(ym)
    }

    open spec fn year_forbidden(&self, year: int) -> bool {
        self.constraints().year_forbidden(year)
    }

    open spec fn year_group_forbidden(&self, year: int) -> bool {
        self.constraints().year_group_forbidden(year)
    }

    fn is_day_forbidden(&self, date: &Date) -> (r: bool) {
        self.date_constraints.is_day_forbidden(date)
    }

    fn is_month_forbidden(&self, year_month_info: &YearMonth) -> (r: bool) {
        self.date_constraints.is_month_forbidden(year_month_info)
    }

    fn is_year_forbidden(&self, year: i32) -> (r: bool) {
        self.date_constraints.is_year_forbidden(year)
    }

    fn is_year_group_forbidden(&self, year: i32) -> (r: bool) {
        self.date_constraints.is_year_group_forbidden(year)
    }
}

/// Collects the settings of a `PickerConfig`; `build` checks them and freezes them.
pub struct PickerConfigBuilder {
    pub date_constraints: DateConstraints,
    pub initial_date: Option<Date>,
    pub initial_view_type: DialogViewType,
    pub selection_type: DialogViewType,
    pub initially_opened: bool,
    pub month_title_format: String,
}

impl PickerConfigBuilder {
    /// The error that `build` reports for these settings, if any.
    pub open spec fn first_error(&self) -> Option<PickerConfigError> {
        if bounds_crossed(self.date_constraints.min_date, self.date_constraints.max_date) {
            Some(PickerConfigError::MinAfterMax)
        } else if self.initial_view_type.rank() > self.selection_type.rank() {
            Some(PickerConfigError::InitialViewFinerThanSelection)
        } else if self.initial_date matches Some(d) && self.date_constraints.day_forbidden(d) {
            Some(PickerConfigError::InitialDateForbidden(self.initial_date->0))
        } else {
            None
        }
    }

    /// Settings with no date constraint, no initial date, the day view for both view types,
    /// a closed dialog and the title pattern `%b %Y`.
    pub fn new() -> (r: PickerConfigBuilder)
        ensures
            r.date_constraints.is_unconstrained(),
            r.initial_date is None,
            r.initial_view_type == DialogViewType::Days,
            r.selection_type == DialogViewType::Days,
            !r.initially_opened,
            r.month_title_format@ == "%b %Y"@,
    {
        PickerConfigBuilder {
            date_constraints: DateConstraints::new(),
            initial_date: None,
            initial_view_type: DialogViewType::Days,
            selection_type: DialogViewType::Days,
            initially_opened: false,
            month_title_format: String::from_str("%b %Y"),
        }
    }

    /// Sets the possible constraints to prevent the user from selecting some dates.
    pub fn date_constraints(self, value: DateConstraints) -> (r: PickerConfigBuilder)
        ensures
            r == (PickerConfigBuilder { date_constraints: value, ..self }),
    {
        PickerConfigBuilder { date_constraints: value, ..self }
    }

    /// Sets the inclusive minimal date constraint: the earliest date that can be selected.
    pub fn min_date(self, value: Date) -> (r: PickerConfigBuilder)
        ensures
            r == (PickerConfigBuilder {
                date_constraints: DateConstraints {
                    min_date: Some(value),
                    ..self.date_constraints
                },
                ..self
            }),
    {
        let mut b = self;
        b.date_constraints.min_date = Some(value);
        b
    }

    /// Sets the inclusive maximal date constraint: the latest date that can be selected.
    pub fn max_date(self, value: Date) -> (r: PickerConfigBuilder)
        ensures
            r == (PickerConfigBuilder {
                date_constraints: DateConstraints {
                    max_date: Some(value),
                    ..self.date_constraints
                },
                ..self
            }),
    {
        let mut b = self;
        b.date_constraints.max_date = Some(value);
        b
    }

    /// Sets the disabled weekdays, that should not be selectable.
    pub fn disabled_weekdays(self, value: Vec<Weekday>) -> (r: PickerConfigBuilder)
        ensures
            r == (PickerConfigBuilder {
                date_constraints: DateConstraints {
                    disabled_weekdays: value,
                    ..self.date_constraints
                },
                ..self
            }),
    {
        let mut b = self;
        b.date_constraints.disabled_weekdays = value;
        b
    }

    /// Sets the entire completely disabled months, 1 for January up to 12 for December.
    pub fn disabled_months(self, value: Vec<u32>) -> (r: PickerConfigBuilder)
        ensures
            r == (PickerConfigBuilder {
                date_constraints: DateConstraints {
                    disabled_months: value,
                    ..self.date_constraints
                },
                ..self
            }),
    {
        let mut b = self;
        b.date_constraints.disabled_months = value;
        b
    }

    /// Sets the entire completely disabled years.
    pub fn disabled_years(self, value: Vec<i32>) -> (r: PickerConfigBuilder)
        ensures
            r == (PickerConfigBuilder {
                date_constraints: DateConstraints {
                    disabled_years: value,
                    ..self.date_constraints
                },
                ..self
            }),
    {
        let mut b = self;
        b.date_constraints.disabled_years = value;
        b
    }

    /// Sets the days of the month that are disabled in every month.
    pub fn disabled_monthly_dates(self, value: Vec<u32>) -> (r: PickerConfigBuilder)
        ensures
            r == (PickerConfigBuilder {
                date_constraints: DateConstraints {
                    disabled_monthly_dates: value,
                    ..self.date_constraints
                },
                ..self
            }),
    {
        let mut b = self;
        b.date_constraints.disabled_monthly_dates = value;
        b
    }

    /// Sets the dates whose month and day are disabled in every year.
    pub fn disabled_yearly_dates(self, value: Vec<Date>) -> (r: PickerConfigBuilder)
        ensures
            r == (PickerConfigBuilder {
                date_constraints: DateConstraints {
                    disabled_yearly_dates: value,
                    ..self.date_constraints
                },
                ..self
            }),
    {
        let mut b = self;
        b.date_constraints.disabled_yearly_dates = value;
        b
    }

    /// Sets the single disabled dates.
    pub fn disabled_unique_dates(self, value: Vec<Date>) -> (r: PickerConfigBuilder)
        ensures
            r == (PickerConfigBuilder {
                date_constraints: DateConstraints {
                    disabled_unique_dates: value,
                    ..self.date_constraints
                },
                ..self
            }),
    {
        let mut b = self;
        b.date_constraints.disabled_unique_dates = value;
        b
    }

    /// Sets the initializes the datepicker to this value.
    pub fn initial_date(self, value: Date) -> (r: PickerConfigBuilder)
        ensures
            r == (PickerConfigBuilder { initial_date: Some(value), ..self }),
    {
        PickerConfigBuilder { initial_date: Some(value), ..self }
    }

    /// Sets the initializes the view type to this value.
    pub fn initial_view_type(self, value: DialogViewType) -> (r: PickerConfigBuilder)
        ensures
            r == (PickerConfigBuilder { initial_view_type: value, ..self }),
    {
        PickerConfigBuilder { initial_view_type: value, ..self }
    }

    /// Sets the selection type, to make it possible to select for example only a year, or
    /// only a month.
    pub fn selection_type(self, value: DialogViewType) -> (r: PickerConfigBuilder)
        ensures
            r == (PickerConfigBuilder { selection_type: value, ..self }),
    {
        PickerConfigBuilder { selection_type: value, ..self }
    }

    /// Sets the whether the dialog should be immediately opened after initialisation.
    pub fn initially_opened(self, value: bool) -> (r: PickerConfigBuilder)
        ensures
            r == (PickerConfigBuilder { initially_opened: value, ..self }),
    {
        PickerConfigBuilder { initially_opened: value, ..self }
    }

    /// Sets the chrono formatting string for the title of the month.
    pub fn month_title_format(self, value: String) -> (r: PickerConfigBuilder)
        ensures
            r == (PickerConfigBuilder { month_title_format: value, ..self }),
    {
        PickerConfigBuilder { month_title_format: value, ..self }
    }

    /// Checks that the settings hold together: the bounds are ordered, the initial view is
    /// not finer than the selection type, and the initial date is allowed; the first rule
    /// broken, in that order, is reported.
    pub fn validate(&self) -> (r: Result<(), PickerConfigError>)
        requires
            self.initial_date matches Some(d) ==> d.wf(),
        ensures
            r == match self.first_error() {
                Some(e) => Err::<(), PickerConfigError>(e),
                None => Ok(()),
            },
    {
        let crossed = match (self.date_constraints.min_date, self.date_constraints.max_date) {
            (Some(min_date), Some(max_date)) => max_date.is_before(&min_date),
            (_, _) => false,
        };
        if crossed {
            return Err(PickerConfigError::MinAfterMax);
        }
        if self.initial_view_type.is_finer_than(&self.selection_type) {
            return Err(PickerConfigError::InitialViewFinerThanSelection);
        }
        if let Some(initial_date) = self.initial_date {
            if self.date_constraints.is_day_forbidden(&initial_date) {
                return Err(PickerConfigError::InitialDateForbidden(initial_date));
            }
        }
        Ok(())
    }

    /// Checks the settings and, where they hold together, freezes them into a
    /// `PickerConfig`.
    pub fn build(self) -> (r: Result<PickerConfig, PickerConfigError>)
        requires
            self.initial_date matches Some(d) ==> d.wf(),
        ensures
            self.first_error() matches Some(e) ==> r == Err::<PickerConfig, PickerConfigError>(e),
            self.first_error() is None ==> r is Ok,
            r matches Ok(c) ==> {
                &&& c.wf()
                &&& c.constraints() == self.date_constraints
                &&& c.initial() == self.initial_date
                &&& c.initial_view() == self.initial_view_type
                &&& c.selection() == self.selection_type
                &&& c.opened() == self.initially_opened
                &&& c.title_format() == self.month_title_format@
            },
    {
        if let Err(e) = self.validate() {
            return Err(e);
        }
        Ok(
            PickerConfig {
                date_constraints: self.date_constraints,
                initial_date: self.initial_date,
                initial_view_type: self.initial_view_type,
                selection_type: self.selection_type,
                initially_opened: self.initially_opened,
                month_title_format: self.month_title_format,
            },
        )
    }
}

impl Default for PickerConfigBuilder {
    /// The settings of `PickerConfigBuilder::new`.
    fn default() -> (r: PickerConfigBuilder)
        ensures
            r.date_constraints.is_unconstrained(),
            r.initial_date is None,
            r.initial_view_type == DialogViewType::Days,
            r.selection_type == DialogViewType::Days,
            !r.initially_opened,
            r.month_title_format@ == "%b %Y"@,
    {
        PickerConfigBuilder::new()
    }
}

impl Default for PickerConfig {
    /// A configuration with no date constraint, no initial date, the day view for both view
    /// types, a closed dialog and the title pattern `%b %Y`.
    fn default() -> (r: PickerConfig)
        ensures
            r.wf(),
            r.constraints().is_unconstrained(),
            r.initial() is None,
            r.initial_view() == DialogViewType::Days,
            r.selection() == DialogViewType::Days,
            !r.opened(),
            r.title_format() == "%b %Y"@,
    {
        PickerConfig {
            date_constraints: DateConstraints::new(),
            initial_date: None,
            initial_view_type: DialogViewType::Days,
            selection_type: DialogViewType::Days,
            initially_opened: false,
            month_title_format: String::from_str("%b %Y"),
        }
    }
}

} // verus!
