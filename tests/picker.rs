use datepicker_core::{
    init, init_at, Command, Date, DialogViewType, Model, Msg, PickerConfig, PickerConfigBuilder, PickerConfigError,
};

fn date(year: i32, month: u32, day: u32) -> Date {
    Date::from_ymd_opt(year, month, day).unwrap()
}

fn model(selection: DialogViewType, view: DialogViewType) -> Model {
    let config = PickerConfigBuilder::default()
        .initial_date(date(1990, 5, 17))
        .initial_view_type(view)
        .selection_type(selection)
        .build()
        .unwrap();
    init_at(config, &date(2023, 1, 1))
}

#[test]
fn init_starts_at_initial_date() {
    let m = model(DialogViewType::Days, DialogViewType::Days);
    assert_eq!(&Some(date(1990, 5, 17)), m.selected_date());
    assert_eq!(date(1990, 5, 1), m.viewed_date);
    assert!(!m.dialog_opened);
    let without = init_at(PickerConfig::default(), &date(2023, 8, 9));
    assert_eq!(date(2023, 8, 1), without.viewed_date);
    assert_eq!(&None, without.selected_date());
    assert!(without.config().initial_date().is_none());
}

#[test]
fn date_selected_closes_and_notifies() {
    let mut m = model(DialogViewType::Days, DialogViewType::Days);
    let cmds = m.update(Msg::DateSelected(date(1991, 2, 3)));
    assert_eq!(Some(date(1991, 2, 3)), m.selected_date);
    assert_eq!(date(1991, 2, 3), m.viewed_date);
    assert_eq!(2, cmds.len());
    assert!(matches!(cmds[0], Command::Send(Msg::CloseDialog)));
    assert!(matches!(cmds[1], Command::NotifyChange));
}

#[test]
fn month_selected_narrows_or_selects() {
    let mut m = model(DialogViewType::Days, DialogViewType::Months);
    m.dialog_view_type = DialogViewType::Months;
    let cmds = m.update(Msg::MonthSelected(8));
    assert!(cmds.is_empty());
    assert_eq!(DialogViewType::Days, m.dialog_view_type);
    assert_eq!(date(1990, 8, 1), m.viewed_date);

    let mut m = model(DialogViewType::Months, DialogViewType::Months);
    let cmds = m.update(Msg::MonthSelected(8));
    assert_eq!(DialogViewType::Months, m.dialog_view_type);
    assert!(matches!(cmds[..], [Command::Send(Msg::DateSelected(d))] if d == date(1990, 8, 1)));
}

#[test]
fn year_selected_narrows_or_selects() {
    let mut m = model(DialogViewType::Days, DialogViewType::Years);
    let cmds = m.update(Msg::YearSelected(1984));
    assert!(cmds.is_empty());
    assert_eq!(DialogViewType::Months, m.dialog_view_type);
    assert_eq!(date(1984, 1, 1), m.viewed_date);

    let mut m = model(DialogViewType::Years, DialogViewType::Years);
    let cmds = m.update(Msg::YearSelected(1984));
    assert!(matches!(cmds[..], [Command::Send(Msg::DateSelected(d))] if d == date(1984, 1, 1)));
}

#[test]
fn open_and_close_dialog() {
    let mut m = model(DialogViewType::Days, DialogViewType::Days);
    m.update(Msg::OpenDialog(None));
    assert!(m.dialog_opened);
    assert_eq!(None, m.dialog_position);
    m.update(Msg::OpenDialog(Some(("10px".to_string(), "20px".to_string()))));
    assert_eq!(Some(("10px".to_string(), "20px".to_string())), m.dialog_position);
    m.update(Msg::CloseDialog);
    assert!(!m.dialog_opened);
}

#[test]
fn previous_and_next_steps_by_view_type() {
    let mut m = model(DialogViewType::Days, DialogViewType::Days);
    m.viewed_date = date(1990, 1, 15);
    m.update(Msg::PreviousButtonClicked);
    assert_eq!(date(1989, 12, 1), m.viewed_date);
    m.update(Msg::NextButtonClicked);
    assert_eq!(date(1990, 1, 1), m.viewed_date);

    m.dialog_view_type = DialogViewType::Months;
    m.update(Msg::PreviousButtonClicked);
    assert_eq!(date(1989, 1, 1), m.viewed_date);
    m.update(Msg::NextButtonClicked);
    assert_eq!(date(1990, 1, 1), m.viewed_date);

    m.dialog_view_type = DialogViewType::Years;
    m.update(Msg::PreviousButtonClicked);
    assert_eq!(date(1979, 1, 1), m.viewed_date);
    m.update(Msg::NextButtonClicked);
    assert_eq!(date(1980, 1, 1), m.viewed_date);
    m.update(Msg::NextButtonClicked);
    assert_eq!(date(2000, 1, 1), m.viewed_date);
}

#[test]
fn title_click_widens_up_to_years() {
    let mut m = model(DialogViewType::Days, DialogViewType::Days);
    m.update(Msg::DialogTitleClicked);
    assert_eq!(DialogViewType::Months, m.dialog_view_type);
    m.update(Msg::DialogTitleClicked);
    assert_eq!(DialogViewType::Years, m.dialog_view_type);
    m.update(Msg::DialogTitleClicked);
    assert_eq!(DialogViewType::Years, m.dialog_view_type);
}

#[test]
fn accepts_rejects_impossible_events() {
    let mut m = model(DialogViewType::Days, DialogViewType::Days);
    assert!(!m.accepts(&Msg::MonthSelected(13)));
    assert!(m.accepts(&Msg::MonthSelected(12)));
    assert!(!m.accepts(&Msg::DateSelected(Date { year: 2021, month: 2, day: 29 })));
    assert!(!m.accepts(&Msg::YearSelected(300000)));
    m.viewed_date = date(-262143, 1, 1);
    assert!(!m.accepts(&Msg::PreviousButtonClicked));
    assert!(m.accepts(&Msg::NextButtonClicked));
}

#[test]
fn error_messages() {
    assert_eq!("min_date must be earlier or exactly at max_date", PickerConfigError::MinAfterMax.message());
    assert_eq!(
        "The initial_date 0999-03-04 is forbidden by the date_constraints.",
        PickerConfigError::InitialDateForbidden(date(999, 3, 4)).message()
    );
}

#[test]
fn init_reads_the_clock_only_without_initial_date() {
    let config = PickerConfigBuilder::default()
        .initial_date(date(2001, 9, 11))
        .initially_opened(true)
        .build()
        .unwrap();
    let m = init(config);
    assert_eq!(date(2001, 9, 1), m.viewed_date);
    assert!(m.dialog_opened);
    let now = init(PickerConfig::default());
    assert_eq!(1, now.viewed_date.day);
    assert!(Date::from_ymd_opt(now.viewed_date.year, now.viewed_date.month, 1).is_some());
}
