use datepicker_core::{
    create_dialog_title_text, should_display_next_button, should_display_previous_button, year_group_end,
    year_group_range, year_group_start, Date, DateConstraints, DialogViewType, YearMonth,
};

fn ym(year: i32, month: u32) -> YearMonth {
    YearMonth { year, month }
}

#[test]
fn test_year_group_start() {
    for (input, expected) in [(0, 0), (1990, 1980), (1980, 1980), (1999, 1980), (2000, 2000)] {
        assert_eq!(expected, year_group_start(input));
    }
    assert_eq!(0, year_group_start(-1));
    assert_eq!(-20, year_group_start(-21));
}

#[test]
fn test_year_group_end() {
    for (input, expected) in [(0, 19), (1990, 1999), (1980, 1999), (1999, 1999), (2000, 2019)] {
        assert_eq!(expected, year_group_end(input));
    }
}

#[test]
fn test_year_group_range() {
    assert_eq!(0..=19, year_group_range(0));
    assert_eq!(1980..=1999, year_group_range(1990));
    assert_eq!(1980..=1999, year_group_range(1980));
    assert_eq!(1980..=1999, year_group_range(1999));
    assert_eq!(2000..=2019, year_group_range(2000));
}

#[test]
fn previous_and_next_month() {
    assert_eq!(ym(1989, 12), ym(1990, 1).previous_month());
    assert_eq!(ym(1990, 2), ym(1990, 3).previous_month());
    assert_eq!(ym(1991, 1), ym(1990, 12).next_month());
    assert_eq!(ym(1990, 4), ym(1990, 3).next_month());
}

#[test]
fn previous_and_next_year() {
    assert_eq!(ym(1989, 7), ym(1990, 7).previous_year());
    assert_eq!(ym(1991, 7), ym(1990, 7).next_year());
}

#[test]
fn test_previous_year_group() {
    assert_eq!(ym(1979, 1), ym(1990, 1).previous_year_group());
    assert_eq!(ym(1979, 3), ym(1980, 3).previous_year_group());
    assert_eq!(ym(1979, 7), ym(1999, 7).previous_year_group());
    assert_eq!(ym(1999, 7), ym(2000, 7).previous_year_group());
}

#[test]
fn test_next_year_group() {
    assert_eq!(ym(2000, 1), ym(1990, 1).next_year_group());
    assert_eq!(ym(2000, 3), ym(1980, 3).next_year_group());
    assert_eq!(ym(2000, 7), ym(1999, 7).next_year_group());
    assert_eq!(ym(2020, 7), ym(2000, 7).next_year_group());
}

#[test]
fn first_day_and_contains() {
    assert_eq!(Date { year: 1990, month: 12, day: 1 }, ym(1990, 12).first_day_of_month());
    assert!(ym(1990, 3).contains(&Date { year: 1990, month: 3, day: 15 }));
    assert!(!ym(1990, 3).contains(&Date { year: 1989, month: 3, day: 15 }));
    assert!(!ym(1990, 3).contains(&Date { year: 1990, month: 4, day: 1 }));
    let from: YearMonth = Date { year: 2020, month: 5, day: 17 }.into();
    assert_eq!(ym(2020, 5), from);
}

#[test]
fn larger_type() {
    assert_eq!(None, DialogViewType::Years.larger_type());
    assert_eq!(Some(DialogViewType::Years), DialogViewType::Months.larger_type());
    assert_eq!(Some(DialogViewType::Months), DialogViewType::Days.larger_type());
    assert_eq!(DialogViewType::Days, DialogViewType::default());
}

#[test]
fn test_create_dialog_title_text() {
    assert_eq!(Some("Jan 1990".to_string()), create_dialog_title_text(&DialogViewType::Days, &ym(1990, 1), "%b %Y"));
    assert_eq!(Some("January 1990".to_string()), create_dialog_title_text(&DialogViewType::Days, &ym(1990, 1), "%B %Y"));
    assert_eq!(Some("1990".to_string()), create_dialog_title_text(&DialogViewType::Months, &ym(1990, 1), ""));
    assert_eq!(Some("1980-1999".to_string()), create_dialog_title_text(&DialogViewType::Years, &ym(1990, 1), ""));
    assert_eq!(Some("0-19".to_string()), create_dialog_title_text(&DialogViewType::Years, &ym(-5, 1), ""));
    assert_eq!(Some("-20--1".to_string()), create_dialog_title_text(&DialogViewType::Years, &ym(-25, 1), ""));
    assert_eq!(None, create_dialog_title_text(&DialogViewType::Days, &ym(1990, 1), "%Z %Q"));
}

fn forbidding_month(y: i32, m: u32) -> DateConstraints {
    let mut c = DateConstraints::default();
    c.disabled_unique_dates = (1..=31u32).filter_map(|d| Date::from_ymd_opt(y, m, d)).collect();
    c
}

fn forbidding_years(years: std::ops::RangeInclusive<i32>) -> DateConstraints {
    let mut c = DateConstraints::default();
    c.disabled_years = years.collect();
    c
}

#[test]
fn test_should_display_previous_button() {
    let days = DialogViewType::Days;
    assert!(!should_display_previous_button(&days, &ym(1990, 2), &forbidding_month(1990, 1)));
    assert!(should_display_previous_button(&days, &ym(1990, 3), &forbidding_month(1990, 1)));
    assert!(!should_display_previous_button(&days, &ym(1990, 1), &forbidding_month(1989, 12)));
    let months = DialogViewType::Months;
    assert!(!should_display_previous_button(&months, &ym(1990, 4), &forbidding_years(1989..=1989)));
    assert!(should_display_previous_button(&months, &ym(1990, 7), &forbidding_years(1988..=1988)));
    let years = DialogViewType::Years;
    assert!(!should_display_previous_button(&years, &ym(1990, 2), &forbidding_years(1960..=1979)));
    assert!(should_display_previous_button(&years, &ym(1990, 2), &forbidding_years(1961..=1979)));
}

#[test]
fn test_should_display_next_button() {
    let days = DialogViewType::Days;
    assert!(!should_display_next_button(&days, &ym(1990, 2), &forbidding_month(1990, 3)));
    assert!(should_display_next_button(&days, &ym(1990, 3), &forbidding_month(1990, 3)));
    assert!(!should_display_next_button(&days, &ym(1990, 12), &forbidding_month(1991, 1)));
    let months = DialogViewType::Months;
    assert!(!should_display_next_button(&months, &ym(1990, 8), &forbidding_years(1991..=1991)));
    assert!(should_display_next_button(&months, &ym(1990, 4), &forbidding_years(1992..=1992)));
    let years = DialogViewType::Years;
    assert!(!should_display_next_button(&years, &ym(1990, 11), &forbidding_years(2000..=2019)));
    assert!(should_display_next_button(&years, &ym(1990, 12), &forbidding_years(2000..=2018)));
}
