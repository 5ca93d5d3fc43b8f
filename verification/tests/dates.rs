use iced_m3::Date;

fn date(year: u16, month: u8, day: u8) -> Date {
    Date::new(year, month, day).unwrap()
}

#[test]
fn fields_and_bounds_of_the_calendar() {
    let d = date(2026, 9, 13);
    assert_eq!((d.year(), d.month(), d.day()), (2026, 9, 13));
    assert_eq!(Date::MIN().to_iso_string(), "0001-01-01");
    assert_eq!(Date::MAX().to_iso_string(), "9999-12-31");
    assert!(Date::new(2026, 13, 1).is_err());
    assert!(Date::new(2026, 0, 1).is_err());
    assert!(Date::new(2026, 4, 31).is_err());
    assert!(Date::new(0, 1, 1).is_err());
    assert!(Date::new(10000, 1, 1).is_err());
}

#[test]
fn month_lengths_follow_the_gregorian_rules() {
    assert_eq!(date(2024, 2, 1).days_in_month(), 29);
    assert_eq!(date(2023, 2, 1).days_in_month(), 28);
    assert_eq!(date(1900, 2, 1).days_in_month(), 28);
    assert_eq!(date(2000, 2, 1).days_in_month(), 29);
    assert_eq!(date(2026, 4, 1).days_in_month(), 30);
    assert_eq!(date(2026, 12, 1).days_in_month(), 31);
}

#[test]
fn weekdays_of_known_dates() {
    assert_eq!(date(1, 1, 1).weekday(), 1);
    assert_eq!(date(2000, 1, 1).weekday(), 6);
    assert_eq!(date(2024, 2, 29).weekday(), 4);
    assert_eq!(date(9999, 12, 31).weekday(), 5);
}

#[test]
fn adding_days_crosses_months_and_years() {
    assert_eq!(date(2026, 12, 31).add_days(1), Some(date(2027, 1, 1)));
    assert_eq!(date(2024, 3, 1).add_days(-1), Some(date(2024, 2, 29)));
    assert_eq!(date(2026, 9, 13).add_days(7), Some(date(2026, 9, 20)));
    assert_eq!(date(2026, 1, 1).add_days(365), Some(date(2027, 1, 1)));
    assert_eq!(date(2024, 1, 1).add_days(366), Some(date(2025, 1, 1)));
    assert_eq!(Date::MAX().add_days(1), None);
    assert_eq!(date(1, 1, 1).add_days(0), Some(date(1, 1, 1)));
}

#[test]
fn adding_days_and_back_returns_to_the_start() {
    let d = date(2026, 9, 13);
    for n in [-400, -31, -1, 0, 1, 29, 1000] {
        let moved = d.add_days(n).unwrap();
        assert_eq!(moved.add_days(-n), Some(d));
    }
}

#[test]
fn weekday_advances_by_one_each_day() {
    let mut d = date(2026, 2, 25);
    for _ in 0..10 {
        let next = d.add_days(1).unwrap();
        assert_eq!(next.weekday(), (d.weekday() + 1) % 7);
        d = next;
    }
}

#[test]
fn adding_months_clamps_the_day() {
    assert_eq!(date(2026, 3, 31).add_months(-1), Some(date(2026, 2, 28)));
    assert_eq!(date(2026, 1, 31).add_months(3), Some(date(2026, 4, 30)));
    assert_eq!(date(2026, 11, 15).add_months(2), Some(date(2027, 1, 15)));
    assert_eq!(date(2026, 5, 10).add_months(-17), Some(date(2024, 12, 10)));
    assert_eq!(date(1, 1, 1).add_months(-1), None);
    assert_eq!(date(2026, 5, 10).add_months(0), Some(date(2026, 5, 10)));
}

#[test]
fn ordering_helpers() {
    let a = date(2026, 9, 10);
    let b = date(2026, 9, 20);
    assert!(a.is_before(b));
    assert!(!b.is_before(a));
    assert!(!a.is_before(a));
    assert!(a.is_on_or_before(a));
    assert_eq!(a.earlier(b), a);
    assert_eq!(a.later(b), b);
    assert_eq!(date(2026, 1, 1).clamp_between(a, b), a);
    assert_eq!(date(2027, 1, 1).clamp_between(a, b), b);
    assert_eq!(date(2026, 9, 15).clamp_between(a, b), date(2026, 9, 15));
    assert_eq!(date(2026, 9, 15).first_of_month(), date(2026, 9, 1));
}

#[test]
fn iso_text_round_trips_and_pads() {
    assert_eq!(date(7, 3, 4).to_iso_string(), "0007-03-04");
    for text in ["2026-09-13", "0001-01-01", "9999-12-31", "2024-02-29"] {
        assert_eq!(Date::from_iso(text).unwrap().to_iso_string(), text);
    }
    assert_eq!("2026-09-13".parse::<Date>(), Ok(date(2026, 9, 13)));
}

#[test]
fn invalid_iso_text_is_rejected_with_its_message() {
    for text in ["2026-09-1", "2026/09/13", " 2026-09-13", "2026-09-13 ", "2023-02-29", "abcd-ef-gh", "+026-09-13"] {
        let error = Date::from_iso(text).unwrap_err();
        assert_eq!(error.message(), "Enter a valid date as YYYY-MM-DD");
    }
}
