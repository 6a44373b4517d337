use vstd::prelude::*;

use crate::calendar::{year_in_range, Date, MAX_YEAR, MIN_YEAR};
use crate::config::PickerConfig;
use crate::dialog_view_type::DialogViewType;
use crate::year_month::{group_end, group_start, month_after, month_before, YearMonth};

verus! {

/// The events that drive the datepicker.
#[derive(Clone, Debug)]
pub enum Msg {
    DateSelected(Date),
    /// a month (1 to 12) of the viewed year was picked
    MonthSelected(u32),
    YearSelected(i32),
    /// open the dialog, optionally at the given (left, top) position
    OpenDialog(Option<(String, String)>),
    CloseDialog,
    PreviousButtonClicked,
    NextButtonClicked,
    /// clicks on the dialog title change the `DialogViewType`
    DialogTitleClicked,
}

/// What the host has to do once an event has been applied.
#[derive(Clone, Debug)]
pub enum Command {
    /// hand this event back to `update`
    Send(Msg),
    /// tell the owner of the picker that the selected date changed
    NotifyChange,
}

/// The state of a datepicker.
pub struct Model {
    /// value of the date that is selected
    pub selected_date: Option<Date>,
    /// whether the dialog is shown
    pub dialog_opened: bool,
    /// the date whose period is shown
    pub viewed_date: Date,
    /// the granularity that the dialog shows
    pub dialog_view_type: DialogViewType,
    /// (left, top) position of the dialog, if one was given
    pub dialog_position: Option<(String, String)>,
    /// configuration of the picker, passed in at initialisation and not modified later
    pub config: PickerConfig,
}

/// The first day of the month `ym`.
pub open spec fn first_of(ym: YearMonth) -> Date {
    Date { year: ym.year, month: ym.month, day: 1 }
}

/// New Year's Day of `year`.
pub open spec fn new_year(year: int) -> Date {
    Date { year: year as i32, month: 1, day: 1 }
}

/// The month in which `d` lies.
pub open spec fn month_of(d: Date) -> YearMonth {
    YearMonth { year: d.year, month: d.month }
}

/// The date that the "previous" button moves to from `viewed` in the view `t`.
pub open spec fn previous_viewed(t: DialogViewType, viewed: Date) -> Date {
    match t {
        DialogViewType::Days => first_of(month_before(month_of(viewed))),
        DialogViewType::Months => new_year(viewed.year - 1),
        DialogViewType::Years => new_year(group_start(viewed.year as int) - 1),
    }
}

/// The date that the "next" button moves to from `viewed` in the view `t`.
pub open spec fn next_viewed(t: DialogViewType, viewed: Date) -> Date {
    match t {
        DialogViewType::Days => first_of(month_after(month_of(viewed))),
        DialogViewType::Months => new_year(viewed.year + 1),
        DialogViewType::Years => new_year(group_end(viewed.year as int) + 1),
    }
}

impl Model {
    /// The viewed date and the configuration are well formed.
    pub open spec fn wf(&self) -> bool {
        &&& self.viewed_date.wf()
        &&& self.config.wf()
    }

    /// `msg` can be applied: a picked date or month exists, and a step stays within the
    /// supported range of years.
    pub open spec fn admits(&self, msg: Msg) -> bool {
        match msg {
            Msg::DateSelected(d) => d.wf(),
            Msg::MonthSelected(m) => 1 <= m <= 12,
            Msg::YearSelected(y) => year_in_range(y as int),
            Msg::PreviousButtonClicked => previous_viewed(
                self.dialog_view_type,
                self.viewed_date,
            ).wf(),
            Msg::NextButtonClicked => next_viewed(self.dialog_view_type, self.viewed_date).wf(),
            _ => true,
        }
    }

    /// The state after `msg`.
    pub open spec fn after(self, msg: Msg) -> Model {
        match msg {
            Msg::DateSelected(d) => Model { selected_date: Some(d), viewed_date: d, ..self },
            Msg::MonthSelected(m) => {
                let viewed = Date { year: self.viewed_date.year, month: m, day: 1 };
                if self.config.selection() == DialogViewType::Months {
                    Model { viewed_date: viewed, ..self }
                } else {
                    Model { viewed_date: viewed, dialog_view_type: DialogViewType::Days, ..self }
                }
            },
            Msg::YearSelected(y) => {
                let viewed = Date { year: y, month: 1, day: 1 };
                if self.config.selection() == DialogViewType::Years {
                    Model { viewed_date: viewed, ..self }
                } else {
                    Model {
                        viewed_date: viewed,
                        dialog_view_type: DialogViewType::Months,
                        ..self
                    }
                }
            },
            Msg::OpenDialog(position) => match position {
                Some(p) => Model { dialog_opened: true, dialog_position: Some(p), ..self },
                None => Model { dialog_opened: true, ..self },
            },
            Msg::CloseDialog => Model { dialog_opened: false, ..self },
            Msg::PreviousButtonClicked => Model {
                viewed_date: previous_viewed(self.dialog_view_type, self.viewed_date),
                ..self
            },
            Msg::NextButtonClicked => Model {
                viewed_date: next_viewed(self.dialog_view_type, self.viewed_date),
                ..self
            },
            Msg::DialogTitleClicked => match self.dialog_view_type.coarser() {
                Some(t) => Model { dialog_view_type: t, ..self },
                None => self,
            },
        }
    }

    /// What the host has to do after `msg`.
    pub open spec fn commands(self, msg: Msg) -> Seq<Command> {
        match msg {
            Msg::DateSelected(_) => seq![Command::Send(Msg::CloseDialog), Command::NotifyChange],
            Msg::MonthSelected(m) => if self.config.selection() == DialogViewType::Months {
                seq![
                    Command::Send(
                        Msg::DateSelected(Date { year: self.viewed_date.year, month: m, day: 1 }),
                    ),
                ]
            } else {
                seq![]
            },
            Msg::YearSelected(y) => if self.config.selection() == DialogViewType::Years {
                seq![Command::Send(Msg::DateSelected(Date { year: y, month: 1, day: 1 }))]
            } else {
                seq![]
            },
            _ => seq![],
        }
    }
}

/// Whether `year` lies within the supported range of years.
fn year_supported(year: i32) -> (r: bool)
    ensures
        r == year_in_range(year as int),
{
    MIN_YEAR <= year && year <= MAX_YEAR
}

/// The state of a new datepicker for `config`, given today's date `today`: the initial
/// date is selected, the dialog shows the month that `guess_allowed_year_month_at` picks,
/// in the initial view type.
pub fn init_at(config: PickerConfig, today: &Date) -> (r: Model)
    requires
        config.wf(),
        today.wf(),
    ensures
        r.wf(),
        r.selected_date == config.initial(),
        r.dialog_opened == config.opened(),
        r.viewed_date == first_of(
            match config.initial() {
                Some(d) => month_of(d),
                None => month_of(*today),
            },
        ),
        r.dialog_view_type == config.initial_view(),
        r.dialog_position is None,
        r.config == config,
{
    let viewed = config.guess_allowed_year_month_at(today);
    Model {
        selected_date: *config.initial_date(),
        dialog_opened: *config.initially_opened(),
        viewed_date: viewed.first_day_of_month(),
        dialog_view_type: *config.initial_view_type(),
        dialog_position: None,
        config,
    }
}

/// The state of a new datepicker for `config`: as `init_at`, with today's date read from
/// the local clock.
pub fn init(config: PickerConfig) -> (r: Model)
    requires
        config.wf(),
    ensures
        r.wf(),
        r.selected_date == config.initial(),
        r.dialog_opened == config.opened(),
        config.initial() matches Some(d) ==> r.viewed_date == first_of(month_of(d)),
        r.dialog_view_type == config.initial_view(),
        r.dialog_position is None,
        r.config == config,
{
    let today = Date::today();
    init_at(config, &today)
}

impl Model {
    /// value of the date that is selected
    pub fn selected_date(&self) -> (r: &Option<Date>)
        ensures
            *r == self.selected_date,
    {
        &self.selected_date
    }

    /// configuration of the picker
    pub fn config(&self) -> (r: &PickerConfig)
        ensures
            *r == self.config,
    {
        &self.config
    }

    /// Whether `msg` can be applied to this state (see `admits`).
    pub fn accepts(&self, msg: &Msg) -> (r: bool)
        requires
            self.wf(),
        ensures
            r == self.admits(*msg),
    {
        let viewed = YearMonth::from_date(&self.viewed_date);
        match msg {
            Msg::DateSelected(d) => Date::from_ymd_opt(d.year, d.month, d.day).is_some(),
            Msg::MonthSelected(m) => 1 <= *m && *m <= 12,
            Msg::YearSelected(y) => year_supported(*y),
            Msg::PreviousButtonClicked => match self.dialog_view_type {
                DialogViewType::Days => viewed.month != 1 || viewed.year > MIN_YEAR,
                DialogViewType::Months => viewed.year > MIN_YEAR,
                DialogViewType::Years => crate::year_month::year_group_start(viewed.year)
                    > MIN_YEAR,
            },
            Msg::NextButtonClicked => match self.dialog_view_type {
                DialogViewType::Days => viewed.month != 12 || viewed.year < MAX_YEAR,
                DialogViewType::Months => viewed.year < MAX_YEAR,
                DialogViewType::Years => crate::year_month::year_group_start(viewed.year)
                    < MAX_YEAR - 19,
            },
            _ => true,
        }
    }

    /// Applies `msg` and returns what the host has to do next.
    pub fn update(&mut self, msg: Msg) -> (r: Vec<Command>)
        requires
            old(self).wf(),
            old(self).admits(msg),
        ensures
            final(self).wf(),
            *final(self) == old(self).after(msg),
            r@ == old(self).commands(msg),
    {
        match msg {
            Msg::DateSelected(new_date) => {
                self.selected_date = Some(new_date);
                self.viewed_date = new_date;
                vec![Command::Send(Msg::CloseDialog), Command::NotifyChange]
            },
            Msg::MonthSelected(new_month) => {
                self.viewed_date = Date { year: self.viewed_date.year, month: new_month, day: 1 };
                if *self.config.selection_type() == DialogViewType::Months {
                    vec![Command::Send(Msg::DateSelected(self.viewed_date))]
                } else {
                    self.dialog_view_type = DialogViewType::Days;
                    vec![]
                }
            },
            Msg::YearSelected(new_year) => {
                self.viewed_date = Date { year: new_year, month: 1, day: 1 };
                if *self.config.selection_type() == DialogViewType::Years {
                    vec![Command::Send(Msg::DateSelected(self.viewed_date))]
                } else {
                    self.dialog_view_type = DialogViewType::Months;
                    vec![]
                }
            },
            Msg::OpenDialog(position) => {
                self.dialog_opened = true;
                if let Some(p) = position {
                    self.dialog_position = Some(p);
                }
                vec![]
            },
            Msg::CloseDialog => {
                self.dialog_opened = false;
                vec![]
            },
            Msg::PreviousButtonClicked => {
                let viewed = YearMonth::from_date(&self.viewed_date);
                self.viewed_date = match self.dialog_view_type {
                    DialogViewType::Days => viewed.previous_month().first_day_of_month(),
                    DialogViewType::Months => Date { year: viewed.year - 1, month: 1, day: 1 },
                    DialogViewType::Years => Date {
                        year: crate::year_month::year_group_start(viewed.year) - 1,
                        month: 1,
                        day: 1,
                    },
                };
                vec![]
            },
            Msg::NextButtonClicked => {
                let viewed = YearMonth::from_date(&self.viewed_date);
                self.viewed_date = match self.dialog_view_type {
                    DialogViewType::Days => viewed.next_month().first_day_of_month(),
                    DialogViewType::Months => Date { year: viewed.year + 1, month: 1, day: 1 },
                    DialogViewType::Years => Date {
                        year: crate::year_month::year_group_end(viewed.year) + 1,
                        month: 1,
                        day: 1,
                    },
                };
                vec![]
            },
            Msg::DialogTitleClicked => {
                if let Some(new_dialog_type) = self.dialog_view_type.larger_type() {
                    self.dialog_view_type = new_dialog_type;
                }
                vec![]
            },
        }
    }
}

} // verus!
