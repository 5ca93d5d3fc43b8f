use iced_m3::{Date, DatePicker, DateSelection, Submission, date_input, date_picker};

fn date(year: u16, month: u8, day: u8) -> Date {
    Date::new(year, month, day).unwrap()
}

fn single(d: Option<Date>) -> DatePicker<u8> {
    date_picker(date(2026, 9, 13), DateSelection::Single(d))
}

fn range(start: Option<Date>, end: Option<Date>) -> DatePicker<u8> {
    date_picker(date(2026, 9, 13), DateSelection::Range { start, end })
}

fn any(_: Date) -> bool {
    true
}

#[test]
fn selection_completes_and_reports_endpoints() {
    let a = date(2026, 9, 10);
    let b = date(2026, 9, 20);
    assert!(!DateSelection::Single(None).complete());
    assert!(DateSelection::Single(Some(a)).complete());
    assert_eq!(DateSelection::Single(None).select(a), DateSelection::Single(Some(a)));
    assert_eq!(DateSelection::Single(Some(b)).select(a), DateSelection::Single(Some(a)));
    let half = DateSelection::Range { start: None, end: None }.select(a);
    assert_eq!(half, DateSelection::Range { start: Some(a), end: None });
    assert!(!half.complete());
    let full = half.select(b);
    assert!(full.complete());
    assert_eq!(full.endpoints(), (Some(a), Some(b)));
    assert_eq!(DateSelection::Single(Some(a)).endpoints(), (Some(a), None));
    assert_eq!(DateSelection::default(), DateSelection::Single(None));
}

#[test]
fn picking_the_same_day_twice_gives_a_one_day_range() {
    let a = date(2026, 9, 10);
    let picked = DateSelection::Range { start: None, end: None }.select(a).select(a);
    assert_eq!(picked, DateSelection::Range { start: Some(a), end: Some(a) });
}

#[test]
fn headlines_of_each_selection() {
    assert_eq!(single(Some(date(2026, 9, 3))).headline(), "September 3, 2026");
    assert_eq!(single(Some(date(2026, 9, 3))).on_toggle_input(1).headline(), "Sep 3, 2026");
    assert_eq!(single(None).headline(), "Select date");
    assert_eq!(range(Some(date(2026, 9, 10)), Some(date(2026, 9, 20))).headline(), "2026-09-10 \u{2013} 2026-09-20");
    assert_eq!(range(Some(date(2026, 9, 10)), None).headline(), "2026-09-10 \u{2013} End date");
    assert_eq!(range(None, None).headline(), "Start date \u{2013} End date");
    assert_eq!(single(None).input_mode(true).headline(), "Enter date");
    assert_eq!(range(None, None).input_mode(true).headline(), "Enter dates");
}

#[test]
fn navigation_labels_for_months_and_year_pages() {
    assert_eq!(single(None).navigation_label(), "September 2026");
    assert_eq!(single(None).years(true).year_base(), 2017);
    assert_eq!(single(None).years(true).navigation_label(), "2017\u{2013}2028");
    let last = date_picker::<u8>(date(9999, 5, 1), DateSelection::Single(None)).years(true);
    assert_eq!(last.year_base(), 9997);
    assert_eq!(last.navigation_label(), "9997\u{2013}9999");
    assert_eq!(single(None).page_step(), 1);
    assert_eq!(single(None).years(true).page_step(), 144);
}

#[test]
fn month_navigation_stays_within_bounds() {
    let picker = single(None).bounds(date(2026, 8, 15), date(2026, 10, 2));
    assert_eq!(picker.month_target(1), Some(date(2026, 10, 1)));
    assert_eq!(picker.month_target(-1), Some(date(2026, 8, 1)));
    assert_eq!(picker.month_target(2), None);
    assert_eq!(picker.month_target(-2), None);
    let reversed = single(None).bounds(date(2026, 10, 2), date(2026, 8, 15));
    assert_eq!(reversed.month_target(1), None);
    let open = single(None);
    assert_eq!(open.month_target(12), Some(date(2027, 9, 1)));
    let pages = single(None).years(true).bounds(date(2010, 3, 9), date(2040, 6, 1));
    assert_eq!(pages.month_target(144), Some(date(2029, 9, 1)));
    assert_eq!(pages.month_target(-144), Some(date(2010, 9, 1)));
    let narrow = single(None).years(true).bounds(date(2020, 3, 9), date(2030, 6, 1));
    assert_eq!(narrow.month_target(-144), None);
    assert_eq!(narrow.month_target(144), Some(date(2029, 9, 1)));
}

#[test]
fn year_cells_cover_a_page_of_twelve() {
    let picker = single(None).years(true).bounds(date(2020, 3, 9), date(2026, 6, 1));
    let (cells, active) = picker.year_cells(true);
    assert_eq!(cells.len(), 12);
    assert_eq!(cells[0].year, 2017);
    assert_eq!(cells[0].target, None);
    assert_eq!(cells[3].year, 2020);
    assert_eq!(cells[3].target, Some(date(2020, 9, 1)));
    assert_eq!(cells[9].year, 2026);
    assert!(cells[9].current);
    assert_eq!(cells[9].target, Some(date(2026, 6, 1)));
    assert_eq!(cells[10].target, None);
    assert_eq!(cells[9].label(), "2026");
    // pickable cells are 2020..=2026; 2026 is the seventh of them
    assert_eq!(active, 6);
    let (_, inactive) = picker.year_cells(false);
    assert_eq!(inactive, 0);
}

#[test]
fn day_cells_lay_out_the_month() {
    let a = date(2026, 9, 10);
    let b = date(2026, 9, 12);
    let picker = range(Some(a), Some(b)).today(date(2026, 9, 3)).bounds(date(2026, 9, 2), date(2026, 9, 29));
    let odd = |d: Date| d.day() != 5;
    let (cells, active, dates) = picker.day_cells(&odd, true);
    assert_eq!(cells.len(), 42);
    // September 1, 2026 is a Tuesday; the week starts on Sunday
    assert_eq!(cells[1].date, None);
    assert_eq!(cells[2].date, Some(date(2026, 9, 1)));
    assert!(!cells[2].enabled);
    assert_eq!(cells[2].pick, None);
    assert!(cells[3].enabled);
    assert!(cells[4].today);
    assert!(!cells[6].enabled);
    assert!(cells[11].endpoint);
    assert!(cells[12].inside && !cells[12].endpoint);
    assert!(cells[13].endpoint && cells[13].inside);
    assert_eq!(cells[31].date, Some(date(2026, 9, 30)));
    assert!(!cells[31].enabled);
    assert_eq!(cells[32].date, None);
    assert_eq!(
        cells[3].pick,
        Some(DateSelection::Range { start: Some(date(2026, 9, 2)), end: None })
    );
    // allowed: 2..=29 but not 5, so 27 pickable dates; the start (10th) is the 8th
    assert_eq!(dates.len(), 27);
    assert_eq!(dates[0], date(2026, 9, 2));
    assert_eq!(active, 7);
    assert_eq!(dates[active], a);
    let monday = picker.first_weekday(8);
    let (shifted, _, _) = monday.day_cells(&odd, false);
    assert_eq!(shifted[1].date, Some(date(2026, 9, 1)));
    assert_eq!(shifted[1].pick, None);
    assert_eq!(monday.column_weekday(0), 1);
    assert_eq!(monday.column_initial(6), 'S');
    assert_eq!(single(None).column_initial(3), 'W');
}

#[test]
fn typed_single_date_is_validated() {
    let picker = || single(None).bounds(date(2026, 1, 1), date(2026, 12, 31)).input_mode(true);
    assert_eq!(
        picker().input("2026-09-13").input_selection(&any),
        Ok(DateSelection::Single(Some(date(2026, 9, 13))))
    );
    assert_eq!(
        picker().input("2026-9-13").input_selection(&any),
        Err("Enter a valid date as YYYY-MM-DD".to_string())
    );
    assert_eq!(
        picker().input("2027-01-01").input_selection(&any),
        Err("Choose a date from 2026-01-01 to 2026-12-31".to_string())
    );
    let weekdays = |d: Date| d.weekday() != 0;
    assert_eq!(
        picker().input("2026-09-13").input_selection(&weekdays),
        Err("This date is unavailable".to_string())
    );
}

#[test]
fn typed_range_needs_ordered_valid_ends() {
    let picker = range(None, None).input_mode(true);
    assert_eq!(
        picker.input("2026-09-10").end_input("2026-09-20").input_selection(&any),
        Ok(DateSelection::Range { start: Some(date(2026, 9, 10)), end: Some(date(2026, 9, 20)) })
    );
    assert_eq!(
        range(None, None).input("2026-09-20").end_input("2026-09-10").input_selection(&any),
        Err("End date must be on or after start date".to_string())
    );
    assert_eq!(
        range(None, None).input("2026-09-20").end_input("").input_selection(&any),
        Err("Enter a valid date as YYYY-MM-DD".to_string())
    );
    assert_eq!(
        range(None, None).input("nope").end_input("2026-09-10").input_selection(&any),
        Err("Enter a valid date as YYYY-MM-DD".to_string())
    );
}

#[test]
fn field_errors_while_typing() {
    let empty = range(None, None).input_mode(true);
    assert_eq!(empty.input_errors(&any), (None, None));
    let backwards = range(None, None).input("2026-09-20").end_input("2026-09-10");
    assert_eq!(
        backwards.input_errors(&any),
        (None, Some("End date must be on or after start date".to_string()))
    );
    let bad_start = range(None, None).input("2026-13-01").end_input("2026-09-10");
    assert_eq!(
        bad_start.input_errors(&any),
        (Some("Enter a valid date as YYYY-MM-DD".to_string()), None)
    );
    let bad_end = range(None, None).input("2026-09-01").end_input("x");
    assert_eq!(
        bad_end.input_errors(&any),
        (None, Some("Enter a valid date as YYYY-MM-DD".to_string()))
    );
}

#[test]
fn calendar_confirmation_and_submission() {
    let a = date(2026, 9, 10);
    let b = date(2026, 9, 20);
    let complete = range(Some(a), Some(b));
    assert_eq!(complete.confirmed(&any), Some(DateSelection::Range { start: Some(a), end: Some(b) }));
    assert_eq!(range(Some(a), None).confirmed(&any), None);
    assert_eq!(single(None).confirmed(&any), None);
    let outside = range(Some(a), Some(b)).bounds(date(2026, 9, 12), date(2026, 12, 31));
    assert_eq!(outside.confirmed(&any), None);
    let no_tenth = |d: Date| d.day() != 10;
    assert_eq!(complete.confirmed(&no_tenth), None);
    let chosen = complete.confirmed(&any);
    assert_eq!(complete.submission(chosen, true, true), Some(Submission::Confirm(DateSelection::Range { start: Some(a), end: Some(b) })));
    assert_eq!(complete.submission(chosen, false, true), None);
    assert_eq!(complete.submission(None, true, true), None);
    let typed = single(None).input_mode(true).input("2026-09-13");
    let value = typed.confirmed(&any);
    assert_eq!(value, Some(DateSelection::Single(Some(date(2026, 9, 13)))));
    assert_eq!(typed.submission(value, false, true), Some(Submission::Select(DateSelection::Single(Some(date(2026, 9, 13))))));
    assert_eq!(typed.submission(value, false, false), None);
}

#[test]
fn date_fields_flag_malformed_text() {
    let field = date_input("Date", "2026-09-13");
    assert_eq!(field.label, "Date");
    assert_eq!(field.value, "2026-09-13");
    assert_eq!(field.supporting_text, "YYYY-MM-DD");
    assert_eq!(field.error, None);
    assert_eq!(date_input("Date", "").error, None);
    assert_eq!(date_input("End date", "2026-02-30").error, Some("Enter a valid date as YYYY-MM-DD".to_string()));
}

#[test]
fn docked_popup_closes_on_a_complete_pick() {
    let a = date(2026, 9, 10);
    let half = DateSelection::Range { start: Some(a), end: None };
    let full = DateSelection::Range { start: Some(a), end: Some(a) };
    assert!(iced_m3::docked_closes(iced_m3::DockedSource::Select(DateSelection::Single(Some(a))), false));
    assert!(!iced_m3::docked_closes(iced_m3::DockedSource::Select(half), false));
    assert!(iced_m3::docked_closes(iced_m3::DockedSource::Select(full), false));
    assert!(!iced_m3::docked_closes(iced_m3::DockedSource::Select(full), true));
    assert!(iced_m3::docked_closes(iced_m3::DockedSource::Confirm, true));
    assert!(iced_m3::docked_closes(iced_m3::DockedSource::Cancel, false));
    assert!(!iced_m3::docked_closes(iced_m3::DockedSource::Navigate, false));
}
