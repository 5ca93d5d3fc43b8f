use iced_m3::{Date, DateSelection};

#[test]
fn leap_year_centuries_and_month_clamping() {
    assert!(Date::new(1900, 2, 29).is_err());
    assert!(Date::new(2000, 2, 29).is_ok());
    assert_eq!(
        Date::new(2024, 1, 31).unwrap().add_months(1),
        Some(Date::new(2024, 2, 29).unwrap())
    );
    assert!(Date::MIN().add_days(-1).is_none());
    assert!(Date::MAX().add_months(1).is_none());
}

#[test]
fn strict_input_and_known_weekdays() {
    assert_eq!("2026-09-13".parse::<Date>().unwrap().weekday(), 0);
    for invalid in ["2026-9-13", "2026-02-30", "0000-01-01", "2026-0\u{e9}-1", ""] {
        assert!(invalid.parse::<Date>().is_err());
    }
}

#[test]
fn range_selection_orders_and_restarts() {
    let a = Date::new(2026, 9, 20).unwrap();
    let b = Date::new(2026, 9, 10).unwrap();
    let range = DateSelection::Range {
        start: None,
        end: None,
    }
    .select(a)
    .select(b);
    assert_eq!(
        range,
        DateSelection::Range {
            start: Some(b),
            end: Some(a)
        }
    );
    assert_eq!(
        range.select(a),
        DateSelection::Range {
            start: Some(a),
            end: None
        }
    );
}
