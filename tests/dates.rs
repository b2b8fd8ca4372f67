use po_manager::date::Date;

fn d(y: i32, m: u32, day: u32) -> Date {
    Date::new(y, m, day).unwrap()
}

#[test]
fn valid_and_invalid_calendar_days() {
    assert!(Date::new(2024, 2, 29).is_some());
    assert!(Date::new(2023, 2, 29).is_none());
    assert!(Date::new(2000, 2, 29).is_some());
    assert!(Date::new(1900, 2, 29).is_none());
    assert!(Date::new(2023, 4, 31).is_none());
    assert!(Date::new(2023, 12, 31).is_some());
    assert!(Date::new(2023, 13, 1).is_none());
    assert!(Date::new(2023, 0, 1).is_none());
    assert!(Date::new(2023, 1, 0).is_none());
    assert!(Date::new(0, 1, 1).is_some());
    assert!(Date::new(9999, 12, 31).is_some());
    assert!(Date::new(10000, 1, 1).is_none());
    assert!(Date::new(-1, 1, 1).is_none());
}

#[test]
fn parts_read_back() {
    let x = d(2025, 7, 9);
    assert_eq!((x.year(), x.month(), x.day()), (2025, 7, 9));
}

#[test]
fn text_is_zero_padded() {
    assert_eq!(d(2024, 3, 5).to_text(), "2024-03-05");
    assert_eq!(d(999, 1, 1).to_text(), "0999-01-01");
    assert_eq!(d(0, 12, 31).to_text(), "0000-12-31");
}

#[test]
fn text_parses_back_to_the_date() {
    for x in [d(2024, 2, 29), d(1, 1, 1), d(999, 10, 10), d(9999, 12, 31)] {
        assert_eq!(Date::parse(&x.to_text()), Some(x));
    }
    assert_eq!(Date::parse(&"2023-11-30".to_string()), Some(d(2023, 11, 30)));
}

#[test]
fn bad_text_does_not_parse() {
    assert_eq!(Date::parse(&"2023-02-30".to_string()), None);
    assert_eq!(Date::parse(&"hello".to_string()), None);
    assert_eq!(Date::parse(&"".to_string()), None);
    assert_eq!(Date::parse(&"12345-01-01".to_string()), None);
}

#[test]
fn parsed_parts_become_dates_only_when_writable() {
    assert_eq!(Date::from_parsed(Some((2024, 2, 29))), Some(d(2024, 2, 29)));
    assert_eq!(Date::from_parsed(Some((12345, 1, 1))), None);
    assert_eq!(Date::from_parsed(Some((-5, 1, 1))), None);
    assert_eq!(Date::from_parsed(Some((2023, 2, 29))), None);
    assert_eq!(Date::from_parsed(None), None);
}

#[test]
fn years_outside_four_digits_do_not_parse() {
    assert_eq!(Date::parse(&"+12345-01-01".to_string()), None);
    assert_eq!(Date::parse(&"-0005-01-01".to_string()), None);
}
