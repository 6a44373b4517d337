use datepicker_core::{Date, DialogViewType, Weekday};

#[test]
fn from_ymd_opt_checks_the_calendar() {
    assert_eq!(Some(Date { year: 2020, month: 2, day: 29 }), Date::from_ymd_opt(2020, 2, 29));
    assert_eq!(None, Date::from_ymd_opt(2021, 2, 29));
    assert_eq!(None, Date::from_ymd_opt(1900, 2, 29));
    assert!(Date::from_ymd_opt(2000, 2, 29).is_some());
    assert_eq!(None, Date::from_ymd_opt(2021, 4, 31));
    assert_eq!(None, Date::from_ymd_opt(2021, 13, 1));
    assert_eq!(None, Date::from_ymd_opt(2021, 1, 0));
    assert!(Date::from_ymd_opt(262142, 12, 31).is_some());
    assert_eq!(None, Date::from_ymd_opt(262143, 1, 1));
    assert!(Date::from_ymd_opt(-262143, 1, 1).is_some());
    assert_eq!(None, Date::from_ymd_opt(-262144, 12, 31));
}

#[test]
fn order_of_dates() {
    let a = Date { year: 2020, month: 10, day: 14 };
    let b = Date { year: 2020, month: 10, day: 15 };
    assert!(a.is_before(&b));
    assert!(!b.is_before(&a));
    assert!(!a.is_before(&a));
    assert!(Date { year: 2019, month: 12, day: 31 }.is_before(&a));
}

#[test]
fn format_and_iso_text() {
    let d = Date { year: 2020, month: 1, day: 16 };
    assert_eq!(Some("16.01.2020".to_string()), d.format("%d.%m.%Y"));
    assert_eq!("2020-01-16", d.iso_text());
    assert_eq!(Weekday::Thu, d.weekday());
    assert_eq!(3, d.weekday().num_days_from_monday());
    assert_eq!(Weekday::Sun, Weekday::from_days_from_monday(6));
}

#[test]
fn today_is_an_existing_day() {
    let t = Date::today();
    assert!(Date::from_ymd_opt(t.year, t.month, t.day).is_some());
}

#[test]
fn contains_by_view_type() {
    let d = |y, m, day| Date { year: y, month: m, day };
    assert!(!d(1990, 1, 1).contains(&DialogViewType::Years, &d(1989, 1, 1)));
    assert!(d(1990, 1, 1).contains(&DialogViewType::Years, &d(1990, 5, 15)));
    assert!(!d(1990, 3, 1).contains(&DialogViewType::Months, &d(1989, 3, 1)));
    assert!(!d(1990, 3, 1).contains(&DialogViewType::Months, &d(1990, 4, 1)));
    assert!(d(1990, 3, 1).contains(&DialogViewType::Months, &d(1990, 3, 15)));
    assert!(!d(1990, 3, 1).contains(&DialogViewType::Days, &d(1989, 3, 1)));
    assert!(!d(1990, 3, 1).contains(&DialogViewType::Days, &d(1990, 4, 1)));
    assert!(!d(1990, 3, 1).contains(&DialogViewType::Days, &d(1990, 3, 15)));
    assert!(d(1990, 3, 15).contains(&DialogViewType::Days, &d(1990, 3, 15)));
}
