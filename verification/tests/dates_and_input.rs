use weather::datetime::{CalendarDate, DateTimeValue};
use weather::dialog::{decrease_chosen_index, get_weather_output, parse_date, parse_usize};

#[test]
fn calendar_dates_that_exist() {
    assert!(CalendarDate::new(2024, 2, 29).is_some());
    assert!(CalendarDate::new(2023, 2, 29).is_none());
    assert!(CalendarDate::new(2000, 2, 29).is_some());
    assert!(CalendarDate::new(1900, 2, 29).is_none());
    assert!(CalendarDate::new(-4, 2, 29).is_some());
    assert!(CalendarDate::new(2024, 4, 31).is_none());
    assert!(CalendarDate::new(2024, 13, 1).is_none());
    assert!(CalendarDate::new(2024, 0, 1).is_none());
    assert!(CalendarDate::new(2024, 1, 0).is_none());
    assert!(CalendarDate::new(262142, 12, 31).is_some());
    assert!(CalendarDate::new(262143, 1, 1).is_none());
    assert!(CalendarDate::new(-262143, 1, 1).is_some());
    assert!(CalendarDate::new(-262144, 12, 31).is_none());
}

#[test]
fn calendar_date_text() {
    assert_eq!(CalendarDate::new(2024, 3, 7).unwrap().to_string(), "2024-03-07");
    assert_eq!(CalendarDate::new(12, 1, 2).unwrap().to_string(), "0012-01-02");
    assert_eq!(CalendarDate::new(12345, 1, 2).unwrap().to_string(), "+12345-01-02");
    assert_eq!(CalendarDate::new(-1, 1, 2).unwrap().to_string(), "-0001-01-02");
    let date = CalendarDate::new(1999, 12, 31).unwrap();
    assert_eq!((date.year(), date.month(), date.day()), (1999, 12, 31));
}

#[test]
fn date_time_values() {
    assert!(DateTimeValue::new(2024, 1, 1, 24, 0, 0, 0).is_none());
    assert!(DateTimeValue::new(2024, 1, 1, 23, 60, 0, 0).is_none());
    assert!(DateTimeValue::new(2024, 1, 1, 23, 59, 60, 0).is_none());
    assert!(DateTimeValue::new(2024, 1, 1, 23, 58, 30, 1_000_000_000).is_none());
    assert!(DateTimeValue::new(2024, 1, 1, 23, 59, 59, 2_000_000_000).is_none());
    assert!(DateTimeValue::new(2024, 2, 30, 0, 0, 0, 0).is_none());
    let leap = DateTimeValue::new(2016, 12, 31, 23, 59, 59, 1_500_000_000).unwrap();
    assert_eq!(leap.to_string(), "2016-12-31 23:59:60.500");
    let plain = DateTimeValue::new(2024, 5, 1, 9, 5, 3, 120_000).unwrap();
    assert_eq!(plain.to_string(), "2024-05-01 09:05:03.000120");
    assert_eq!((plain.hour(), plain.minute(), plain.second(), plain.nanosecond()), (9, 5, 3, 120_000));
    assert_eq!(plain.date(), CalendarDate::new(2024, 5, 1).unwrap());
}

#[test]
fn same_day() {
    let a = CalendarDate::new(2024, 5, 1).unwrap();
    assert!(a.same_day(&CalendarDate::new(2024, 5, 1).unwrap()));
    assert!(!a.same_day(&CalendarDate::new(2024, 5, 2).unwrap()));
}

#[test]
fn parse_index() {
    assert_eq!(parse_usize("3".to_string()), Ok(3));
    assert_eq!(parse_usize("+12".to_string()), Ok(12));
    assert_eq!(parse_usize("-1".to_string()), Ok(usize::MAX));
    assert_eq!(parse_usize("x".to_string()), Err("Incorrect int format: invalid digit found in string".to_string()));
    assert_eq!(parse_usize("".to_string()), Err("Incorrect int format: cannot parse integer from empty string".to_string()));
    assert_eq!(
        parse_usize("3000000000".to_string()),
        Err("Incorrect int format: number too large to fit in target type".to_string())
    );
}

#[test]
fn parse_a_date() {
    assert_eq!(parse_date("2024-05-01".to_string()), Ok(CalendarDate::new(2024, 5, 1).unwrap()));
    assert_eq!(parse_date("2024-5-1".to_string()), Ok(CalendarDate::new(2024, 5, 1).unwrap()));
    assert_eq!(
        parse_date("2023-02-29".to_string()),
        Err("Incorrect date format: input is out of range".to_string())
    );
    assert_eq!(
        parse_date("tomorrow".to_string()),
        Err("Incorrect date format: input contains invalid characters".to_string())
    );
}

#[test]
fn chosen_index_zero_is_refused() {
    assert_eq!(decrease_chosen_index(0), Err("Incorrect chosen variant".to_string()));
    assert_eq!(decrease_chosen_index(1), Ok(1));
    assert_eq!(decrease_chosen_index(7), Ok(7));
}

#[test]
fn weather_output_text() {
    assert_eq!(
        get_weather_output("2024-05-01 12:00:00", "12.5 C"),
        "Day: 2024-05-01 12:00:00\nTemperature: 12.5 C"
    );
}
