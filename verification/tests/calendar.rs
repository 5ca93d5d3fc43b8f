use iced_m3::{CalendarKey, Date, KeyResponse, key_target, navigate, nearest_enabled, position_of};

fn date(year: u16, month: u8, day: u8) -> Date {
    Date::new(year, month, day).unwrap()
}

fn any(_: Date) -> bool {
    true
}

fn month_dates(year: u16, month: u8) -> Vec<Date> {
    let first = date(year, month, 1);
    (1..=first.days_in_month()).map(|d| date(year, month, d)).collect()
}

#[test]
fn keys_move_by_days_months_and_years() {
    let d = date(2026, 9, 13);
    assert_eq!(key_target(d, CalendarKey::ArrowLeft, false), Some(Some(date(2026, 9, 12))));
    assert_eq!(key_target(d, CalendarKey::ArrowRight, false), Some(Some(date(2026, 9, 14))));
    assert_eq!(key_target(d, CalendarKey::ArrowUp, false), Some(Some(date(2026, 9, 6))));
    assert_eq!(key_target(d, CalendarKey::ArrowDown, false), Some(Some(date(2026, 9, 20))));
    assert_eq!(key_target(d, CalendarKey::PageUp, false), Some(Some(date(2026, 8, 13))));
    assert_eq!(key_target(d, CalendarKey::PageDown, true), Some(Some(date(2027, 9, 13))));
    assert_eq!(key_target(d, CalendarKey::ArrowLeft, true), None);
    assert_eq!(key_target(d, CalendarKey::Other, false), None);
    assert_eq!(key_target(Date::MAX(), CalendarKey::ArrowRight, false), Some(None));
}

#[test]
fn arrow_in_the_shown_month_focuses_that_day() {
    let dates = month_dates(2026, 9);
    let response = navigate(date(2026, 9, 13), CalendarKey::ArrowDown, false, date(2026, 9, 1), Date::MIN(), Date::MAX(), &dates, &any, true);
    assert_eq!(response, KeyResponse::Focus(19));
    let ignored = navigate(date(2026, 9, 13), CalendarKey::Other, false, date(2026, 9, 1), Date::MIN(), Date::MAX(), &dates, &any, true);
    assert_eq!(ignored, KeyResponse::Ignored);
}

#[test]
fn arrow_past_the_month_shows_the_next_one() {
    let dates = month_dates(2026, 9);
    let response = navigate(date(2026, 9, 30), CalendarKey::ArrowRight, false, date(2026, 9, 1), Date::MIN(), Date::MAX(), &dates, &any, true);
    assert_eq!(response, KeyResponse::ShowMonth(date(2026, 10, 1)));
    let without = navigate(date(2026, 9, 30), CalendarKey::ArrowRight, false, date(2026, 9, 1), Date::MIN(), Date::MAX(), &dates, &any, false);
    assert_eq!(without, KeyResponse::Captured);
}

#[test]
fn disabled_days_are_skipped_toward_the_direction_of_travel() {
    let weekdays = |d: Date| d.weekday() != 0 && d.weekday() != 6;
    let dates: Vec<Date> = month_dates(2026, 9).into_iter().filter(|d| weekdays(*d)).collect();
    // Friday 11th, ArrowRight to Saturday 12th: the nearest weekday ahead is Monday 14th
    let response = navigate(date(2026, 9, 11), CalendarKey::ArrowRight, false, date(2026, 9, 1), Date::MIN(), Date::MAX(), &dates, &weekdays, true);
    let index = position_of(&dates, date(2026, 9, 14)).unwrap();
    assert_eq!(response, KeyResponse::Focus(index));
    // Monday 14th, ArrowLeft to Sunday 13th: back to Friday 11th
    let back = navigate(date(2026, 9, 14), CalendarKey::ArrowLeft, false, date(2026, 9, 1), Date::MIN(), Date::MAX(), &dates, &weekdays, true);
    assert_eq!(back, KeyResponse::Focus(position_of(&dates, date(2026, 9, 11)).unwrap()));
}

#[test]
fn bounds_hold_focus_inside() {
    let dates = month_dates(2026, 9);
    let response = navigate(date(2026, 9, 28), CalendarKey::ArrowDown, false, date(2026, 9, 1), Date::MIN(), date(2026, 9, 29), &dates, &any, true);
    assert_eq!(response, KeyResponse::Focus(28));
    // at the last allowed day, the key keeps focus where it is
    let stuck = navigate(date(2026, 9, 29), CalendarKey::ArrowDown, false, date(2026, 9, 1), Date::MIN(), date(2026, 9, 29), &dates, &any, true);
    assert_eq!(stuck, KeyResponse::Focus(28));
    let gone = navigate(date(2026, 9, 29), CalendarKey::ArrowDown, false, date(2026, 9, 1), Date::MIN(), date(2026, 9, 29), &dates, &|d: Date| d.day() != 29, true);
    assert_eq!(gone, KeyResponse::Focus(27));
    let reversed = navigate(date(2026, 9, 13), CalendarKey::ArrowDown, false, date(2026, 9, 1), date(2026, 9, 29), date(2026, 9, 1), &dates, &any, true);
    assert_eq!(reversed, KeyResponse::Captured);
}

#[test]
fn nearest_allowed_day_in_a_month() {
    let evens = |d: Date| d.day() % 2 == 0;
    assert_eq!(nearest_enabled(date(2026, 9, 1), date(2026, 9, 13), Date::MIN(), Date::MAX(), &evens), Some(date(2026, 9, 14)));
    assert_eq!(nearest_enabled(date(2026, 9, 30), date(2026, 9, 13), Date::MIN(), Date::MAX(), &evens), Some(date(2026, 9, 12)));
    let never = |_: Date| false;
    assert_eq!(nearest_enabled(date(2026, 9, 1), date(2026, 9, 13), Date::MIN(), Date::MAX(), &never), None);
    assert_eq!(position_of(&month_dates(2026, 9), date(2026, 10, 1)), None);
}
