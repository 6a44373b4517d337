//! Decision engine of a calendar datepicker: which days, months, years and year groups may
//! be selected under a set of date constraints, how the viewed period moves, and how the
//! picker's state answers its events.
use vstd::prelude::*;

pub mod calendar;
pub mod config;
pub mod date_constraints;
pub mod dialog_view_type;
pub mod picker;
pub mod utils;
pub mod year_month;

pub use calendar::{Date, Weekday};
pub use config::{PickerConfig, PickerConfigBuilder, PickerConfigError};
pub use date_constraints::{DateConstraints, HasDateConstraints};
pub use dialog_view_type::DialogViewType;
pub use picker::{init, init_at, Command, Model, Msg};
pub use utils::{
    create_dialog_title_text, should_display_next_button, should_display_previous_button,
};
pub use year_month::{year_group_end, year_group_range, year_group_start, YearMonth};

verus! {

} // verus!
