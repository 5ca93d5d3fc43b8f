//! Controlled Gregorian calendar and ISO date input. No timezone conversion occurs.
use vstd::prelude::*;
use crate::date::{Date, DateView, InvalidDate, add_months_view, iso_text, max_view, min_view, month_length, parse_iso, weekday_of};
use vstd::string::*;
use crate::text::{decimal, push_decimal};

verus! {

#[derive(Clone, Copy, Debug, PartialEq, Eq, Structural)]
pub enum DateSelection {
    Single(Option<Date>),
    Range { start: Option<Date>, end: Option<Date> },
}

impl Default for DateSelection {
    fn default() -> (selection: Self)
        ensures
            selection == DateSelection::Single(None),
    {
        DateSelection::Single(None)
    }
}

impl DateSelection {
    /// The selection after picking `date`: a single date is replaced; a range
    /// with only a start gains its other endpoint, ordered; otherwise the range
    /// restarts at `date`.
    pub open spec fn picking(self, date: Date) -> DateSelection {
        match self {
            DateSelection::Single(_) => DateSelection::Single(Some(date)),
            DateSelection::Range { start: Some(start), end: None } => DateSelection::Range {
                start: Some(if start@.le(date@) { start } else { date }),
                end: Some(if start@.le(date@) { date } else { start }),
            },
            DateSelection::Range { .. } => DateSelection::Range { start: Some(date), end: None },
        }
    }

    pub open spec fn is_complete(self) -> bool {
        match self {
            DateSelection::Single(Some(_)) => true,
            DateSelection::Range { start: Some(_), end: Some(_) } => true,
            _ => false,
        }
    }

    pub open spec fn endpoint_pair(self) -> (Option<Date>, Option<Date>) {
        match self {
            DateSelection::Single(date) => (date, None),
            DateSelection::Range { start, end } => (start, end),
        }
    }

    /// A range's end never precedes its start, and never exists without it.
    pub open spec fn ordered(self) -> bool {
        match self {
            DateSelection::Single(_) => true,
            DateSelection::Range { start, end } => match (start, end) {
                (Some(s), Some(e)) => s@.le(e@),
                (None, Some(_)) => false,
                _ => true,
            },
        }
    }

    pub fn select(self, date: Date) -> (selection: Self)
        ensures
            selection == self.picking(date),
    {
        match self {
            DateSelection::Single(_) => DateSelection::Single(Some(date)),
            DateSelection::Range { start: Some(start), end: None } => DateSelection::Range {
                start: Some(start.earlier(date)),
                end: Some(start.later(date)),
            },
            DateSelection::Range { .. } => DateSelection::Range { start: Some(date), end: None },
        }
    }

    pub fn complete(self) -> (complete: bool)
        ensures
            complete == self.is_complete(),
    {
        match self {
            DateSelection::Single(Some(_)) => true,
            DateSelection::Range { start: Some(_), end: Some(_) } => true,
            _ => false,
        }
    }

    pub fn endpoints(self) -> (pair: (Option<Date>, Option<Date>))
        ensures
            pair == self.endpoint_pair(),
    {
        match self {
            DateSelection::Single(date) => (date, None),
            DateSelection::Range { start, end } => (start, end),
        }
    }
}

/// Everything a date picker shows and decides, as plain values. The
/// callbacks that turn its decisions into application messages are held by
/// the widget that renders it.
pub struct PickerModel<Message> {
    pub month: Date,
    pub selection: DateSelection,
    pub today: Option<Date>,
    pub min: Date,
    pub max: Date,
    pub first_weekday: int,
    pub title: Seq<char>,
    pub years: bool,
    pub compact: bool,
    pub input_mode: bool,
    pub input: Seq<char>,
    pub end_input: Seq<char>,
    pub on_cancel: Option<Message>,
    pub on_toggle_years: Option<Message>,
    pub on_toggle_input: Option<Message>,
}

pub open spec fn month_name(month: int) -> Seq<char> {
    if month == 1 {
        "January"@
    } else if month == 2 {
        "February"@
    } else if month == 3 {
        "March"@
    } else if month == 4 {
        "April"@
    } else if month == 5 {
        "May"@
    } else if month == 6 {
        "June"@
    } else if month == 7 {
        "July"@
    } else if month == 8 {
        "August"@
    } else if month == 9 {
        "September"@
    } else if month == 10 {
        "October"@
    } else if month == 11 {
        "November"@
    } else {
        "December"@
    }
}

pub open spec fn month_abbreviation(month: int) -> Seq<char> {
    if month == 1 {
        "Jan"@
    } else if month == 2 {
        "Feb"@
    } else if month == 3 {
        "Mar"@
    } else if month == 4 {
        "Apr"@
    } else if month == 5 {
        "May"@
    } else if month == 6 {
        "Jun"@
    } else if month == 7 {
        "Jul"@
    } else if month == 8 {
        "Aug"@
    } else if month == 9 {
        "Sep"@
    } else if month == 10 {
        "Oct"@
    } else if month == 11 {
        "Nov"@
    } else {
        "Dec"@
    }
}

fn month_name_text(month: u8, short: bool) -> (name: &'static str)
    ensures
        name@ == if short { month_abbreviation(month as int) } else { month_name(month as int) },
{
    match (month, short) {
        (1, false) => "January",
        (2, false) => "February",
        (3, false) => "March",
        (4, false) => "April",
        (5, false) => "May",
        (6, false) => "June",
        (7, false) => "July",
        (8, false) => "August",
        (9, false) => "September",
        (10, false) => "October",
        (11, false) => "November",
        (_, false) => "December",
        (1, true) => "Jan",
        (2, true) => "Feb",
        (3, true) => "Mar",
        (4, true) => "Apr",
        (5, true) => "May",
        (6, true) => "Jun",
        (7, true) => "Jul",
        (8, true) => "Aug",
        (9, true) => "Sep",
        (10, true) => "Oct",
        (11, true) => "Nov",
        (_, true) => "Dec",
    }
}

/// The en dash between the ends of a range, with a space on each side.
pub open spec fn range_dash() -> Seq<char> {
    " \u{2013} "@
}

impl<Message> PickerModel<Message> {
    /// The headline above the calendar.
    pub open spec fn headline_text(self) -> Seq<char> {
        if self.input_mode {
            if self.selection is Range { "Enter dates"@ } else { "Enter date"@ }
        } else {
            match self.selection {
                DateSelection::Single(Some(date)) =>
                    (if self.on_toggle_input is Some { month_abbreviation(date@.month) } else { month_name(date@.month) })
                    + " "@ + decimal(date@.day as nat) + ", "@ + decimal(date@.year as nat),
                DateSelection::Single(None) => "Select date"@,
                DateSelection::Range { start: Some(start), end: Some(end) } =>
                    iso_text(start@) + range_dash() + iso_text(end@),
                DateSelection::Range { start: Some(start), end: None } =>
                    iso_text(start@) + range_dash() + "End date"@,
                _ => "Start date"@ + range_dash() + "End date"@,
            }
        }
    }

    /// The first year of the twelve-year page holding the displayed month.
    pub open spec fn year_base(self) -> int {
        ((self.month@.year - 1) / 12) * 12 + 1
    }

    /// The label above the grid: the month and year, or the year page.
    pub open spec fn navigation_text(self) -> Seq<char> {
        if self.years {
            let last = if self.year_base() + 11 < 9999 { self.year_base() + 11 } else { 9999 };
            decimal(self.year_base() as nat) + "\u{2013}"@ + decimal(last as nat)
        } else {
            month_name(self.month@.month) + " "@ + decimal(self.month@.year as nat)
        }
    }
}

impl<Message> PickerModel<Message> {
    /// The typed text validates to `selection`: one accepted date for a single
    /// selection, or an ordered pair of accepted dates for a range.
    pub open spec fn typed<E: Fn(Date) -> bool>(self, enabled: E, selection: DateSelection) -> bool {
        match selection {
            DateSelection::Single(Some(date)) => {
                &&& self.selection is Single
                &&& self.accepted(enabled, self.input, date)
            },
            DateSelection::Range { start: Some(start), end: Some(end) } => {
                &&& self.selection is Range
                &&& self.accepted(enabled, self.input, start)
                &&& self.accepted(enabled, self.end_input, end)
                &&& start@.le(end@)
            },
            _ => false,
        }
    }

    /// The typed text is refused with `message`: the start text is rejected, or
    /// for a range the end text is rejected or names an earlier date.
    pub open spec fn typed_error<E: Fn(Date) -> bool>(self, enabled: E, message: Seq<char>) -> bool {
        ||| self.rejected(enabled, self.input, message)
        ||| exists|start: Date| {
            &&& self.selection is Range
            &&& #[trigger] self.accepted(enabled, self.input, start)
            &&& {
                ||| self.rejected(enabled, self.end_input, message)
                ||| exists|end: Date| {
                    &&& #[trigger] self.accepted(enabled, self.end_input, end)
                    &&& end@.lt(start@)
                    &&& message == order_text()
                }
            }
        }
    }
}

pub open spec fn clamp_view(date: DateView, low: DateView, high: DateView) -> DateView {
    if date.lt(low) {
        low
    } else if high.lt(date) {
        high
    } else {
        date
    }
}

impl<Message> PickerModel<Message> {
    /// The month the previous/next control shows, if it may move there: by
    /// `months` in the month view, or a twelve-year page in the year view
    /// (the sign of `months` choosing the direction). Targets stay within the
    /// months of the bounds.
    pub open spec fn month_target(self, months: int) -> Option<DateView> {
        let low = self.min@.first_of_month();
        let high = self.max@.first_of_month();
        if self.max@.lt(self.min@) {
            None
        } else if self.years {
            let page = self.year_base() + if months < 0 { -12int } else { 12int };
            if page > self.max@.year || page + 11 < self.min@.year || !(1 <= page <= 9999) {
                None
            } else {
                let year = if page < self.min@.year { self.min@.year } else { page };
                Some(clamp_view(DateView { year, month: self.month@.month, day: 1 }, low, high))
            }
        } else {
            match add_months_view(self.month@, months) {
                Some(d) => if d.first_of_month().le(high) && low.le(d.first_of_month()) { Some(d) } else { None },
                None => None,
            }
        }
    }
}

/// The focus entry point among enabled cells: the position, among the cells
/// whose `enabled` flag is set, of the last one whose `chosen` flag is set.
pub open spec fn active_among(enabled: Seq<bool>, chosen: Seq<bool>) -> (int, int)
    decreases enabled.len(),
{
    if enabled.len() == 0 || chosen.len() != enabled.len() {
        (0, 0)
    } else {
        let n = enabled.len() - 1;
        let (active, count) = active_among(enabled.take(n), chosen.take(n));
        if enabled[n] {
            (if chosen[n] { count } else { active }, count + 1)
        } else {
            (active, count)
        }
    }
}

/// One year of the year grid.
#[derive(Clone, Copy, Debug, PartialEq, Eq, Structural)]
pub struct YearCell {
    pub year: u16,
    /// The month to show when the year is picked, if it may be picked.
    pub target: Option<Date>,
    /// The displayed month is in this year.
    pub current: bool,
}

impl YearCell {
    /// The cell's text; years past 9999 are blank.
    pub fn label(&self) -> (text: String)
        ensures
            text@ == if self.year <= 9999 { decimal(self.year as nat) } else { Seq::<char>::empty() },
    {
        let mut text = String::new();
        if self.year <= 9999 {
            push_decimal(&mut text, self.year as u32);
        }
        text
    }
}

impl<Message> PickerModel<Message> {
    /// The month a year cell leads to: that year's displayed month, clamped
    /// to the months of the bounds, for years within the bounds.
    pub open spec fn year_target(self, year: int) -> Option<DateView> {
        let low = self.min@.first_of_month();
        let high = self.max@.first_of_month();
        if year <= 9999 && self.min@.le(self.max@) && self.min@.year <= year <= self.max@.year {
            Some(clamp_view(DateView { year, month: self.month@.month, day: 1 }, low, high))
        } else {
            None
        }
    }

    pub open spec fn year_cell_ok(self, cell: YearCell, i: int) -> bool {
        &&& cell.year == self.year_base() + i
        &&& cell.current == (cell.year == self.month@.year)
        &&& (cell.target matches Some(d) ==> self.year_target(cell.year as int) == Some(d@))
        &&& (cell.target is None ==> self.year_target(cell.year as int) is None)
    }
}

/// One cell of the six-week day grid.
#[derive(Clone, Copy, Debug, PartialEq, Eq, Structural)]
pub struct DayCell {
    /// The day shown, or `None` for a blank cell outside the month.
    pub date: Option<Date>,
    /// The date is the start or end of the selection.
    pub endpoint: bool,
    /// The date lies within a complete range, ends included.
    pub inside: bool,
    pub today: bool,
    /// The bounds and the date filter allow the date.
    pub enabled: bool,
    /// The selection that picking this date produces, when it can be picked.
    pub pick: Option<DateSelection>,
}

pub open spec fn blank_cell() -> DayCell {
    DayCell { date: None, endpoint: false, inside: false, today: false, enabled: false, pick: None }
}

/// The dates of the cells that can be picked, in grid order.
pub open spec fn pick_dates(cells: Seq<DayCell>) -> Seq<Date>
    decreases cells.len(),
{
    if cells.len() == 0 {
        Seq::empty()
    } else {
        let n = cells.len() - 1;
        let rest = pick_dates(cells.take(n));
        if cells[n].pick is Some && cells[n].date is Some {
            rest.push(cells[n].date->0)
        } else {
            rest
        }
    }
}

impl<Message> PickerModel<Message> {
    /// Blank cells before the first day, so that columns follow the first weekday.
    pub open spec fn grid_offset(self) -> int {
        (weekday_of(self.month@) + 7 - self.first_weekday) % 7
    }

    /// The day of the month shown in cell `i` (row-major), when in range.
    pub open spec fn cell_day(self, i: int) -> int {
        i - self.grid_offset() + 1
    }

    pub open spec fn day_cell_ok<E: Fn(Date) -> bool>(self, enabled: E, has_select: bool, cell: DayCell, i: int) -> bool {
        let n = self.cell_day(i);
        let (start, end) = self.selection.endpoint_pair();
        if 1 <= n <= month_length(self.month@.year, self.month@.month) {
            &&& cell.date is Some
            &&& cell.date->0@ == (DateView { year: self.month@.year, month: self.month@.month, day: n })
            &&& cell.endpoint == (start == cell.date || end == cell.date)
            &&& cell.inside == (start is Some && end is Some && start->0@.le(cell.date->0@)
                && cell.date->0@.le(end->0@))
            &&& cell.today == (self.today == cell.date)
            &&& (cell.enabled ==> self.allows(enabled, cell.date->0))
            &&& (!cell.enabled ==> !self.admits(cell.date->0@) || call_ensures(enabled, (cell.date->0,), false))
            &&& cell.pick == if cell.enabled && has_select {
                Some(self.selection.picking(cell.date->0))
            } else {
                None
            }
        } else {
            cell == blank_cell()
        }
    }

    /// The cell that receives focus first: the selection start, else today.
    pub open spec fn focus_anchor(self, cell: DayCell) -> bool {
        cell.date is Some && (if self.selection.endpoint_pair().0 is Some {
            self.selection.endpoint_pair().0 == cell.date
        } else {
            self.today == cell.date
        })
    }
}

/// Which callback receives a confirmed selection.
#[derive(Clone, Copy, Debug, PartialEq, Eq, Structural)]
pub enum Submission {
    Confirm(DateSelection),
    Select(DateSelection),
}

impl<Message> PickerModel<Message> {
    /// Both bounds and the date filter allow the date.
    pub open spec fn allows<E: Fn(Date) -> bool>(self, enabled: E, date: Date) -> bool {
        self.admits(date@) && call_ensures(enabled, (date,), true)
    }

    /// A complete calendar selection the picker can confirm: each endpoint is
    /// allowed and the range is ordered.
    pub open spec fn confirmable<E: Fn(Date) -> bool>(self, enabled: E) -> bool {
        &&& self.selection.is_complete()
        &&& (self.selection.endpoint_pair().0 matches Some(d) ==> self.allows(enabled, d))
        &&& (self.selection.endpoint_pair().1 matches Some(d) ==> self.allows(enabled, d))
        &&& (self.selection.endpoint_pair() matches (Some(a), Some(b)) ==> a@.le(b@))
    }

    /// A calendar selection that cannot be confirmed: incomplete, misordered,
    /// outside the bounds, or with an endpoint the filter returned `false` for.
    pub open spec fn unconfirmable<E: Fn(Date) -> bool>(self, enabled: E) -> bool {
        ||| !self.selection.is_complete()
        ||| (self.selection.endpoint_pair() matches (Some(a), Some(b)) && b@.lt(a@))
        ||| exists|d: Date| {
            &&& (self.selection.endpoint_pair().0 == Some(d) || self.selection.endpoint_pair().1 == Some(d))
            &&& (!self.admits(d@) || call_ensures(enabled, (d,), false))
        }
    }
}

pub open spec fn range_text(min: DateView, max: DateView) -> Seq<char> {
    "Choose a date from "@ + iso_text(min) + " to "@ + iso_text(max)
}

pub open spec fn unavailable_text() -> Seq<char> {
    "This date is unavailable"@
}

pub open spec fn order_text() -> Seq<char> {
    "End date must be on or after start date"@
}

pub open spec fn invalid_text() -> Seq<char> {
    "Enter a valid date as YYYY-MM-DD"@
}

impl<Message> PickerModel<Message> {
    /// The bounds admit the date.
    pub open spec fn admits(self, date: DateView) -> bool {
        self.min@.le(date) && date.le(self.max@)
    }

    /// The text names `date`, which the bounds admit and the date filter returned `true` for.
    pub open spec fn accepted<E: Fn(Date) -> bool>(self, enabled: E, text: Seq<char>, date: Date) -> bool {
        &&& parse_iso(text) == Some(date@)
        &&& self.admits(date@)
        &&& call_ensures(enabled, (date,), true)
    }

    /// The text is refused with `message`: it names no date, a date outside the
    /// bounds, or a date the filter returned `false` for.
    pub open spec fn rejected<E: Fn(Date) -> bool>(self, enabled: E, text: Seq<char>, message: Seq<char>) -> bool {
        match parse_iso(text) {
            None => message == invalid_text(),
            Some(v) => if !self.admits(v) {
                message == range_text(self.min@, self.max@)
            } else {
                message == unavailable_text() && exists|d: Date| d@ == v && call_ensures(enabled, (d,), false)
            },
        }
    }
}

pub struct DatePicker<Message> {
    month: Date,
    selection: DateSelection,
    today: Option<Date>,
    min: Date,
    max: Date,
    first_weekday: u8,
    title: String,
    years: bool,
    compact: bool,
    input_mode: bool,
    input: String,
    end_input: String,
    on_cancel: Option<Message>,
    on_toggle_years: Option<Message>,
    on_toggle_input: Option<Message>,
}

impl<Message> View for DatePicker<Message> {
    type V = PickerModel<Message>;

    closed spec fn view(&self) -> PickerModel<Message> {
        PickerModel {
            month: self.month,
            selection: self.selection,
            today: self.today,
            min: self.min,
            max: self.max,
            first_weekday: self.first_weekday as int,
            title: self.title@,
            years: self.years,
            compact: self.compact,
            input_mode: self.input_mode,
            input: self.input@,
            end_input: self.end_input@,
            on_cancel: self.on_cancel,
            on_toggle_years: self.on_toggle_years,
            on_toggle_input: self.on_toggle_input,
        }
    }
}

impl<Message> DatePicker<Message> {
    /// The displayed month is always its first day; the week starts on a weekday.
    #[verifier::type_invariant]
    pub open spec fn well_formed(self) -> bool {
        self@.month@.day == 1 && 0 <= self@.first_weekday < 7
    }
}

/// A calendar showing the month of `month`, with the given selection.
pub fn date_picker<Message>(month: Date, selection: DateSelection) -> (picker: DatePicker<Message>)
    ensures
        picker@.month@ == month@.first_of_month(),
        picker@.selection == selection,
        picker@.today is None,
        picker@.min@ == min_view(),
        picker@.max@ == max_view(),
        picker@.first_weekday == 0,
        picker@.title == "Select date"@,
        !picker@.years,
        !picker@.compact,
        !picker@.input_mode,
        picker@.input.len() == 0,
        picker@.end_input.len() == 0,
        picker@.on_cancel is None,
        picker@.on_toggle_years is None,
        picker@.on_toggle_input is None,
{
    DatePicker {
        month: month.first_of_month(),
        selection,
        today: None,
        min: Date::MIN(),
        max: Date::MAX(),
        first_weekday: 0,
        title: String::from_str("Select date"),
        years: false,
        compact: false,
        input_mode: false,
        input: String::new(),
        end_input: String::new(),
        on_cancel: None,
        on_toggle_years: None,
        on_toggle_input: None,
    }
}

impl<Message> DatePicker<Message> {
    /// Add a Cancel action. The application owns discarding its draft.
    pub fn on_cancel(self, message: Message) -> (picker: Self)
        ensures
            picker@ == (PickerModel { on_cancel: Some(message), ..self@ }),
    {
        proof {
            use_type_invariant(&self);
        }
        DatePicker { on_cancel: Some(message), ..self }
    }

    pub fn title(self, title: &str) -> (picker: Self)
        ensures
            picker@ == (PickerModel { title: title@, ..self@ }),
    {
        proof {
            use_type_invariant(&self);
        }
        DatePicker { title: String::from_str(title), ..self }
    }

    pub fn today(self, today: Date) -> (picker: Self)
        ensures
            picker@ == (PickerModel { today: Some(today), ..self@ }),
    {
        proof {
            use_type_invariant(&self);
        }
        DatePicker { today: Some(today), ..self }
    }

    pub fn bounds(self, min: Date, max: Date) -> (picker: Self)
        ensures
            picker@ == (PickerModel { min, max, ..self@ }),
    {
        proof {
            use_type_invariant(&self);
        }
        DatePicker { min, max, ..self }
    }

    pub fn first_weekday(self, weekday: u8) -> (picker: Self)
        ensures
            picker@ == (PickerModel { first_weekday: (weekday % 7) as int, ..self@ }),
    {
        proof {
            use_type_invariant(&self);
        }
        DatePicker { first_weekday: weekday % 7, ..self }
    }

    /// The year grid follows the displayed month, with previous/next twelve-year pages.
    pub fn years(self, shown: bool) -> (picker: Self)
        ensures
            picker@ == (PickerModel { years: shown, ..self@ }),
    {
        proof {
            use_type_invariant(&self);
        }
        DatePicker { years: shown, ..self }
    }

    pub fn on_toggle_years(self, message: Message) -> (picker: Self)
        ensures
            picker@ == (PickerModel { on_toggle_years: Some(message), ..self@ }),
    {
        proof {
            use_type_invariant(&self);
        }
        DatePicker { on_toggle_years: Some(message), ..self }
    }

    /// A compact desktop calendar without the modal title and selected-date headline.
    pub fn compact(self, compact: bool) -> (picker: Self)
        ensures
            picker@ == (PickerModel { compact, ..self@ }),
    {
        proof {
            use_type_invariant(&self);
        }
        DatePicker { compact, ..self }
    }

    /// Switch between calendar and ISO text entry. Raw text stays in application
    /// state so incomplete edits survive switching modes.
    pub fn input_mode(self, input_mode: bool) -> (picker: Self)
        ensures
            picker@ == (PickerModel { input_mode, ..self@ }),
    {
        proof {
            use_type_invariant(&self);
        }
        DatePicker { input_mode, ..self }
    }

    pub fn on_toggle_input(self, message: Message) -> (picker: Self)
        ensures
            picker@ == (PickerModel { on_toggle_input: Some(message), ..self@ }),
    {
        proof {
            use_type_invariant(&self);
        }
        DatePicker { on_toggle_input: Some(message), ..self }
    }

    /// The raw text of the (start) date field.
    pub fn input(self, value: &str) -> (picker: Self)
        ensures
            picker@ == (PickerModel { input: value@, ..self@ }),
    {
        proof {
            use_type_invariant(&self);
        }
        DatePicker { input: String::from_str(value), ..self }
    }

    /// The raw text of the end date field of a range.
    pub fn end_input(self, value: &str) -> (picker: Self)
        ensures
            picker@ == (PickerModel { end_input: value@, ..self@ }),
    {
        proof {
            use_type_invariant(&self);
        }
        DatePicker { end_input: String::from_str(value), ..self }
    }
}

impl<Message> DatePicker<Message> {
    fn parse_input<E: Fn(Date) -> bool>(&self, value: &str, enabled: &E) -> (result: Result<Date, String>)
        requires
            forall|d: Date| call_requires(*enabled, (d,)),
        ensures
            match result {
                Ok(date) => self@.accepted(*enabled, value@, date),
                Err(message) => self@.rejected(*enabled, value@, message@),
            },
    {
        let date = match Date::from_iso(value) {
            Ok(date) => date,
            Err(e) => {
                return Err(e.message());
            },
        };
        if date.is_before(self.min) || self.max.is_before(date) {
            let mut message = String::from_str("Choose a date from ");
            let low = self.min.to_iso_string();
            message.append(low.as_str());
            message.append(" to ");
            let high = self.max.to_iso_string();
            message.append(high.as_str());
            return Err(message);
        }
        if !enabled(date) {
            return Err(String::from_str("This date is unavailable"));
        }
        Ok(date)
    }

    fn allows<E: Fn(Date) -> bool>(&self, date: Date, enabled: &E) -> (allowed: bool)
        requires
            forall|d: Date| call_requires(*enabled, (d,)),
        ensures
            allowed ==> self@.allows(*enabled, date),
            !allowed ==> !self@.admits(date@) || call_ensures(*enabled, (date,), false),
    {
        date.is_on_or_before(self.max) && self.min.is_on_or_before(date) && enabled(date)
    }

    /// The selection an OK action or Enter would submit, if any: typed input
    /// that passes validation, or a complete calendar selection whose endpoints
    /// are allowed and ordered.
    pub fn confirmed<E: Fn(Date) -> bool>(&self, enabled: &E) -> (confirmed: Option<DateSelection>)
        requires
            forall|d: Date| call_requires(*enabled, (d,)),
        ensures
            self@.input_mode ==> match confirmed {
                Some(selection) => self@.typed(*enabled, selection),
                None => exists|message: Seq<char>| self@.typed_error(*enabled, message),
            },
            !self@.input_mode ==> match confirmed {
                Some(selection) => selection == self@.selection && self@.confirmable(*enabled),
                None => self@.unconfirmable(*enabled),
            },
    {
        if self.input_mode {
            return match self.input_selection(enabled) {
                Ok(selection) => Some(selection),
                Err(_) => None,
            };
        }
        if !self.selection.complete() {
            return None;
        }
        let (start, end) = self.selection.endpoints();
        if let Some(date) = start {
            if !self.allows(date, enabled) {
                return None;
            }
        }
        if let Some(date) = end {
            if !self.allows(date, enabled) {
                return None;
            }
        }
        if let (Some(a), Some(b)) = (start, end) {
            if b.is_before(a) {
                return None;
            }
        }
        Some(self.selection)
    }

    /// The messages shown under the typed start and end fields while editing.
    /// Empty fields show none; the end field also reports an end before the start.
    pub fn input_errors<E: Fn(Date) -> bool>(&self, enabled: &E) -> (errors: (Option<String>, Option<String>))
        requires
            forall|d: Date| call_requires(*enabled, (d,)),
        ensures
            self@.input.len() == 0 ==> errors.0 is None,
            self@.input.len() != 0 ==> match errors.0 {
                Some(message) => self@.rejected(*enabled, self@.input, message@),
                None => exists|d: Date| self@.accepted(*enabled, self@.input, d),
            },
            self@.end_input.len() == 0 ==> errors.1 is None,
            self@.end_input.len() != 0 ==> match errors.1 {
                Some(message) => {
                    ||| self@.rejected(*enabled, self@.end_input, message@)
                    ||| exists|start: Date, end: Date| {
                        &&& self@.accepted(*enabled, self@.end_input, end)
                        &&& self@.accepted(*enabled, self@.input, start)
                        &&& end@.lt(start@)
                        &&& message@ == order_text()
                    }
                },
                None => exists|end: Date| {
                    &&& self@.accepted(*enabled, self@.end_input, end)
                    &&& {
                        ||| exists|message: Seq<char>| self@.rejected(*enabled, self@.input, message)
                        ||| exists|start: Date| self@.accepted(*enabled, self@.input, start) && start@.le(end@)
                    }
                },
            },
    {
        let start_error = if self.input.as_str().is_empty() {
            None
        } else {
            match self.parse_input(self.input.as_str(), enabled) {
                Ok(_) => None,
                Err(message) => Some(message),
            }
        };
        let end_error = if self.end_input.as_str().is_empty() {
            None
        } else {
            match self.parse_input(self.end_input.as_str(), enabled) {
                Err(message) => Some(message),
                Ok(end) => match self.parse_input(self.input.as_str(), enabled) {
                    Ok(start) => if end.is_before(start) {
                        let message = String::from_str("End date must be on or after start date");
                        assert(self@.accepted(*enabled, self@.end_input, end)
                            && self@.accepted(*enabled, self@.input, start) && end@.lt(start@)
                            && message@ == order_text());
                        Some(message)
                    } else {
                        assert(self@.accepted(*enabled, self@.input, start) && start@.le(end@));
                        None
                    },
                    Err(message) => {
                        assert(self@.rejected(*enabled, self@.input, message@));
                        None
                    },
                },
            }
        };
        (start_error, end_error)
    }

    /// Where a confirmed selection goes: to the OK callback when there is one,
    /// otherwise, for typed input only, to the select callback.
    pub fn submission(&self, confirmed: Option<DateSelection>, has_confirm: bool, has_select: bool) -> (submission: Option<Submission>)
        ensures
            submission == match confirmed {
                None => None,
                Some(selection) => if has_confirm {
                    Some(Submission::Confirm(selection))
                } else if self@.input_mode && has_select {
                    Some(Submission::Select(selection))
                } else {
                    None
                },
            },
    {
        match confirmed {
            None => None,
            Some(selection) => if has_confirm {
                Some(Submission::Confirm(selection))
            } else if self.input_mode && has_select {
                Some(Submission::Select(selection))
            } else {
                None
            },
        }
    }

    /// How far the previous/next controls move: a month, or in the year view a
    /// twelve-year page.
    pub fn page_step(&self) -> (step: i32)
        ensures
            step == if self@.years { 144int } else { 1int },
    {
        if self.years { 144 } else { 1 }
    }

    /// The month the previous/next control moves to, if it may move.
    pub fn month_target(&self, months: i32) -> (target: Option<Date>)
        ensures
            target matches Some(d) ==> self@.month_target(months as int) == Some(d@),
            target is None ==> self@.month_target(months as int) is None,
    {
        proof {
            use_type_invariant(self);
            use_type_invariant(&self.month);
            use_type_invariant(&self.min);
            use_type_invariant(&self.max);
        }
        if self.max.is_before(self.min) {
            return None;
        }
        let low = self.min.first_of_month();
        let high = self.max.first_of_month();
        if self.years {
            let base = self.year_base() as i32;
            let page: i32 = base + if months < 0 { -12i32 } else { 12i32 };
            if page > self.max.year() as i32 || page + 11 < self.min.year() as i32 || !(1 <= page && page <= 9999) {
                return None;
            }
            let year: u16 = if page < self.min.year() as i32 { self.min.year() } else { page as u16 };
            match Date::new(year, self.month.month(), 1) {
                Ok(date) => Some(date.clamp_between(low, high)),
                Err(_) => None,
            }
        } else {
            match self.month.add_months(months) {
                Some(d) => {
                    let first = d.first_of_month();
                    if first.is_on_or_before(high) && low.is_on_or_before(first) {
                        Some(d)
                    } else {
                        None
                    }
                },
                None => None,
            }
        }
    }

    /// The twelve cells of the year grid, with the focus entry point among the
    /// cells that can be picked (a cell can be picked when it has a target and
    /// the widget has a month callback).
    pub fn year_cells(&self, has_month: bool) -> (result: (Vec<YearCell>, usize))
        ensures
            result.0@.len() == 12,
            forall|i: int| 0 <= i < 12 ==> self@.year_cell_ok(#[trigger] result.0@[i], i),
            result.1 == active_among(
                result.0@.map_values(|c: YearCell| has_month && c.target is Some),
                result.0@.map_values(|c: YearCell| c.current),
            ).0,
    {
        proof {
            use_type_invariant(self);
            use_type_invariant(&self.month);
            use_type_invariant(&self.min);
            use_type_invariant(&self.max);
        }
        let base = self.year_base();
        let low = self.min.first_of_month();
        let high = self.max.first_of_month();
        let ordered = self.min.is_on_or_before(self.max);
        let mut cells: Vec<YearCell> = Vec::new();
        let mut active: usize = 0;
        let mut count: usize = 0;
        let mut i: u16 = 0;
        while i < 12
            invariant
                0 <= i <= 12,
                base == self@.year_base(),
                1 <= base <= 9997,
                low@ == self@.min@.first_of_month(),
                high@ == self@.max@.first_of_month(),
                ordered == self@.min@.le(self@.max@),
                self@.month@.valid(),
                self@.min@.valid(),
                self@.max@.valid(),
                cells@.len() == i,
                forall|j: int| 0 <= j < i ==> self@.year_cell_ok(#[trigger] cells@[j], j),
                (active as int, count as int) == active_among(
                    cells@.map_values(|c: YearCell| has_month && c.target is Some),
                    cells@.map_values(|c: YearCell| c.current),
                ),
                count <= i,
            decreases 12 - i,
        {
            let year = base + i;
            let target = if ordered && self.min.year() <= year && year <= self.max.year() {
                match Date::new(year, self.month.month(), 1) {
                    Ok(date) => Some(date.clamp_between(low, high)),
                    Err(_) => None,
                }
            } else {
                None
            };
            let cell = YearCell { year, target, current: year == self.month.year() };
            let ghost before = cells@;
            cells.push(cell);
            proof {
                let flags = cells@.map_values(|c: YearCell| has_month && c.target is Some);
                let chosen = cells@.map_values(|c: YearCell| c.current);
                assert(flags.take(i as int) =~= before.map_values(|c: YearCell| has_month && c.target is Some));
                assert(chosen.take(i as int) =~= before.map_values(|c: YearCell| c.current));
            }
            if has_month && cell.target.is_some() {
                if cell.current {
                    active = count;
                }
                count = count + 1;
            }
            i = i + 1;
        }
        (cells, active)
    }

    /// The forty-two cells of the day grid, the focus entry point among the
    /// cells that can be picked, and the dates of those cells. A date can be
    /// picked when it is allowed and the widget has a select callback.
    pub fn day_cells<E: Fn(Date) -> bool>(&self, enabled: &E, has_select: bool) -> (result: (Vec<DayCell>, usize, Vec<Date>))
        requires
            forall|d: Date| call_requires(*enabled, (d,)),
        ensures
            result.0@.len() == 42,
            forall|i: int| 0 <= i < 42 ==> self@.day_cell_ok(*enabled, has_select, #[trigger] result.0@[i], i),
            result.1 == active_among(
                result.0@.map_values(|c: DayCell| c.pick is Some),
                result.0@.map_values(|c: DayCell| self@.focus_anchor(c)),
            ).0,
            result.2@ == pick_dates(result.0@),
    {
        proof {
            use_type_invariant(self);
            use_type_invariant(&self.month);
        }
        let offset: u8 = (self.month.weekday() + 7 - self.first_weekday) % 7;
        let length = self.month.days_in_month();
        let (start, end) = self.selection.endpoints();
        let anchor = match start {
            Some(d) => Some(d),
            None => self.today,
        };
        let mut cells: Vec<DayCell> = Vec::new();
        let mut dates: Vec<Date> = Vec::new();
        let mut active: usize = 0;
        let mut count: usize = 0;
        let mut i: u8 = 0;
        while i < 42
            invariant
                0 <= i <= 42,
                offset == self@.grid_offset(),
                length == month_length(self@.month@.year, self@.month@.month),
                (start, end) == self@.selection.endpoint_pair(),
                anchor == if start is Some { start } else { self@.today },
                self@.month@.valid(),
                forall|d: Date| call_requires(*enabled, (d,)),
                cells@.len() == i,
                forall|j: int| 0 <= j < i ==> self@.day_cell_ok(*enabled, has_select, #[trigger] cells@[j], j),
                (active as int, count as int) == active_among(
                    cells@.map_values(|c: DayCell| c.pick is Some),
                    cells@.map_values(|c: DayCell| self@.focus_anchor(c)),
                ),
                count <= i,
                dates@ == pick_dates(cells@),
            decreases 42 - i,
        {
            let cell = if i + 1 < offset + 1 || i + 1 - offset > length {
                DayCell { date: None, endpoint: false, inside: false, today: false, enabled: false, pick: None }
            } else {
                let n: u8 = i + 1 - offset;
                match Date::new(self.month.year(), self.month.month(), n) {
                    Ok(date) => {
                        let endpoint = start == Some(date) || end == Some(date);
                        let inside = match (start, end) {
                            (Some(a), Some(b)) => a.is_on_or_before(date) && date.is_on_or_before(b),
                            _ => false,
                        };
                        let allowed = self.allows(date, enabled);
                        DayCell {
                            date: Some(date),
                            endpoint,
                            inside,
                            today: self.today == Some(date),
                            enabled: allowed,
                            pick: if allowed && has_select { Some(self.selection.select(date)) } else { None },
                        }
                    },
                    Err(_) => DayCell { date: None, endpoint: false, inside: false, today: false, enabled: false, pick: None },
                }
            };
            let ghost before = cells@;
            cells.push(cell);
            proof {
                assert(cells@.take(i as int) =~= before);
                assert(cells@.map_values(|c: DayCell| c.pick is Some).take(i as int)
                    =~= before.map_values(|c: DayCell| c.pick is Some));
                assert(cells@.map_values(|c: DayCell| self@.focus_anchor(c)).take(i as int)
                    =~= before.map_values(|c: DayCell| self@.focus_anchor(c)));
            }
            if cell.pick.is_some() {
                if cell.date == anchor {
                    active = count;
                }
                count = count + 1;
                match cell.date {
                    Some(d) => dates.push(d),
                    None => {},
                }
            }
            i = i + 1;
        }
        (cells, active, dates)
    }

    /// The headline above the calendar.
    pub fn headline(&self) -> (text: String)
        ensures
            text@ == self@.headline_text(),
    {
        proof {
            use_type_invariant(self);
        }
        if self.input_mode {
            return match self.selection {
                DateSelection::Range { .. } => String::from_str("Enter dates"),
                DateSelection::Single(_) => String::from_str("Enter date"),
            };
        }
        match self.selection {
            DateSelection::Single(Some(date)) => {
                let mut text = String::from_str(month_name_text(date.month(), self.on_toggle_input.is_some()));
                text.append(" ");
                push_decimal(&mut text, date.day() as u32);
                text.append(", ");
                push_decimal(&mut text, date.year() as u32);
                text
            },
            DateSelection::Single(None) => String::from_str("Select date"),
            DateSelection::Range { start: Some(start), end: Some(end) } => {
                let mut text = start.to_iso_string();
                text.append(" \u{2013} ");
                let tail = end.to_iso_string();
                text.append(tail.as_str());
                text
            },
            DateSelection::Range { start: Some(start), end: None } => {
                let mut text = start.to_iso_string();
                text.append(" \u{2013} ");
                text.append("End date");
                text
            },
            _ => {
                let mut text = String::from_str("Start date");
                text.append(" \u{2013} ");
                text.append("End date");
                text
            },
        }
    }

    /// The first year of the twelve-year page holding the displayed month.
    pub fn year_base(&self) -> (year: u16)
        ensures
            year == self@.year_base(),
            1 <= year <= 9997,
    {
        proof {
            use_type_invariant(self);
            use_type_invariant(&self.month);
        }
        ((self.month.year() - 1) / 12) * 12 + 1
    }

    /// The label above the grid: the month and year, or the year page.
    pub fn navigation_label(&self) -> (text: String)
        ensures
            text@ == self@.navigation_text(),
    {
        proof {
            use_type_invariant(&self.month);
        }
        if self.years {
            let base = self.year_base();
            let last: u16 = if base + 11 < 9999 { base + 11 } else { 9999 };
            let mut text = String::new();
            push_decimal(&mut text, base as u32);
            text.append("\u{2013}");
            push_decimal(&mut text, last as u32);
            text
        } else {
            let mut text = String::from_str(month_name_text(self.month.month(), false));
            text.append(" ");
            push_decimal(&mut text, self.month.year() as u32);
            text
        }
    }

    /// Validate complete typed input with the same endpoint restrictions as the
    /// calendar. Range interiors remain application-owned.
    pub fn input_selection<E: Fn(Date) -> bool>(&self, enabled: &E) -> (result: Result<DateSelection, String>)
        requires
            forall|d: Date| call_requires(*enabled, (d,)),
        ensures
            match result {
                Ok(selection) => self@.typed(*enabled, selection),
                Err(message) => self@.typed_error(*enabled, message@),
            },
    {
        let start = match self.parse_input(self.input.as_str(), enabled) {
            Ok(date) => date,
            Err(message) => {
                return Err(message);
            },
        };
        match self.selection {
            DateSelection::Range { .. } => {
                let end = match self.parse_input(self.end_input.as_str(), enabled) {
                    Ok(date) => date,
                    Err(message) => {
                        return Err(message);
                    },
                };
                if end.is_before(start) {
                    return Err(String::from_str("End date must be on or after start date"));
                }
                Ok(DateSelection::Range { start: Some(start), end: Some(end) })
            },
            DateSelection::Single(_) => Ok(DateSelection::Single(Some(start))),
        }
    }
}

/// Picking a date keeps a range ordered: its end never precedes its start.
pub proof fn law_range_stays_ordered(selection: DateSelection, date: Date)
    requires
        selection.ordered(),
    ensures
        selection.picking(date).ordered(),
{
}

/// Picking twice in a fresh range completes it with the two dates, in order.
pub proof fn law_two_picks_complete_a_range(first: Date, second: Date)
    ensures
        ({
            let range = (DateSelection::Range { start: None, end: None }).picking(first).picking(second);
            &&& range.is_complete()
            &&& range.ordered()
            &&& range == if first@.le(second@) {
                DateSelection::Range { start: Some(first), end: Some(second) }
            } else {
                DateSelection::Range { start: Some(second), end: Some(first) }
            }
        }),
{
}

/// Picking in a complete range starts a new range at the picked date; in a
/// single selection it replaces the date.
pub proof fn law_pick_restarts_complete_range(start: Date, end: Date, date: Date)
    ensures
        (DateSelection::Range { start: Some(start), end: Some(end) }).picking(date)
            == (DateSelection::Range { start: Some(date), end: None }),
        DateSelection::Single(Some(start)).picking(date) == DateSelection::Single(Some(date)),
        DateSelection::Single(Some(start)).picking(date).is_complete(),
{
}

/// The previous/next controls never lead outside the months of the bounds.
pub proof fn law_navigation_stays_in_bounds<Message>(model: PickerModel<Message>, months: int)
    requires
        model.min@.valid(),
        model.max@.valid(),
    ensures
        (model.month_target(months) matches Some(d) ==> {
            &&& model.min@.first_of_month().le(d.first_of_month())
            &&& d.first_of_month().le(model.max@.first_of_month())
        }),
{
}

/// An ISO date text field: its label, raw text, format hint and error.
pub struct DateField {
    pub label: String,
    pub value: String,
    pub supporting_text: String,
    pub error: Option<String>,
}

/// ISO input retains incomplete text in application state; nonempty text
/// that names no date shows the invalid-date message.
pub fn date_input(label: &str, value: &str) -> (field: DateField)
    ensures
        field.label@ == label@,
        field.value@ == value@,
        field.supporting_text@ == "YYYY-MM-DD"@,
        field.error matches Some(e) ==> e@ == invalid_text(),
        field.error is Some <==> value@.len() != 0 && parse_iso(value@) is None,
{
    let error = if !value.is_empty() && Date::from_iso(value).is_err() {
        Some(InvalidDate.message())
    } else {
        None
    };
    DateField {
        label: String::from_str(label),
        value: String::from_str(value),
        supporting_text: String::from_str("YYYY-MM-DD"),
        error,
    }
}

/// The single-letter weekday names, Sunday first.
pub open spec fn weekday_initial(weekday: int) -> char {
    if weekday == 0 || weekday == 6 {
        'S'
    } else if weekday == 1 {
        'M'
    } else if weekday == 2 || weekday == 4 {
        'T'
    } else if weekday == 3 {
        'W'
    } else {
        'F'
    }
}

impl<Message> DatePicker<Message> {
    /// The weekday shown in a column of the day grid.
    pub fn column_weekday(&self, column: u8) -> (weekday: u8)
        requires
            column < 7,
        ensures
            weekday == (column + self@.first_weekday) % 7,
    {
        proof {
            use_type_invariant(self);
        }
        (column + self.first_weekday) % 7
    }

    /// The letter heading a column of the day grid.
    pub fn column_initial(&self, column: u8) -> (initial: char)
        requires
            column < 7,
        ensures
            initial == weekday_initial((column + self@.first_weekday) % 7),
    {
        match self.column_weekday(column) {
            0 | 6 => 'S',
            1 => 'M',
            2 | 4 => 'T',
            3 => 'W',
            _ => 'F',
        }
    }
}

impl<Message> DatePicker<Message> {
    /// The first day of the displayed month.
    pub fn displayed_month(&self) -> (month: Date)
        ensures
            month == self@.month,
    {
        self.month
    }

    pub fn selection(&self) -> (selection: DateSelection)
        ensures
            selection == self@.selection,
    {
        self.selection
    }

    /// The earliest and latest dates that may be picked.
    pub fn date_bounds(&self) -> (bounds: (Date, Date))
        ensures
            bounds == (self@.min, self@.max),
    {
        (self.min, self.max)
    }

    pub fn shows_years(&self) -> (years: bool)
        ensures
            years == self@.years,
    {
        self.years
    }

    pub fn is_compact(&self) -> (compact: bool)
        ensures
            compact == self@.compact,
    {
        self.compact
    }

    pub fn is_input_mode(&self) -> (input_mode: bool)
        ensures
            input_mode == self@.input_mode,
    {
        self.input_mode
    }

    pub fn title_text(&self) -> (title: &str)
        ensures
            title@ == self@.title,
    {
        self.title.as_str()
    }

    pub fn input_text(&self) -> (input: &str)
        ensures
            input@ == self@.input,
    {
        self.input.as_str()
    }

    pub fn end_input_text(&self) -> (input: &str)
        ensures
            input@ == self@.end_input,
    {
        self.end_input.as_str()
    }

    pub fn cancel_message(&self) -> (message: Option<&Message>)
        ensures
            message is Some <==> self@.on_cancel is Some,
            message matches Some(m) ==> *m == self@.on_cancel->0,
    {
        match &self.on_cancel {
            Some(m) => Some(m),
            None => None,
        }
    }

    pub fn toggle_years_message(&self) -> (message: Option<&Message>)
        ensures
            message is Some <==> self@.on_toggle_years is Some,
            message matches Some(m) ==> *m == self@.on_toggle_years->0,
    {
        match &self.on_toggle_years {
            Some(m) => Some(m),
            None => None,
        }
    }

    pub fn toggle_input_message(&self) -> (message: Option<&Message>)
        ensures
            message is Some <==> self@.on_toggle_input is Some,
            message matches Some(m) ==> *m == self@.on_toggle_input->0,
    {
        match &self.on_toggle_input {
            Some(m) => Some(m),
            None => None,
        }
    }
}

/// Where a message of a picker docked under a field comes from.
#[derive(Clone, Copy, Debug, PartialEq, Eq, Structural)]
pub enum DockedSource {
    /// A day or typed date was picked, giving this selection.
    Select(DateSelection),
    Confirm,
    Cancel,
    /// Month paging, the year view or input toggles, or typing.
    Navigate,
}

/// Whether a docked picker's popup closes after a message: OK and Cancel
/// close it; a pick closes it when no OK is required and the selection is
/// complete; navigation keeps it open.
pub fn docked_closes(source: DockedSource, confirm_required: bool) -> (closes: bool)
    ensures
        closes == match source {
            DockedSource::Select(selection) => !confirm_required && selection.is_complete(),
            DockedSource::Confirm | DockedSource::Cancel => true,
            DockedSource::Navigate => false,
        },
{
    match source {
        DockedSource::Select(selection) => !confirm_required && selection.complete(),
        DockedSource::Confirm | DockedSource::Cancel => true,
        DockedSource::Navigate => false,
    }
}

/// Each year cell of the year grid leads to a month that can be shown: its
/// target is the first day of that year's month, inside the months of the
/// bounds, and it is the displayed month when the bounds allow that month.
/// A cell has a target exactly when the bounds are ordered and its year lies
/// between theirs.
pub proof fn law_year_targets_within_bounds<Message>(model: PickerModel<Message>, cell: YearCell, i: int)
    requires
        model.min@.valid(),
        model.max@.valid(),
        model.month@.valid(),
        model.year_cell_ok(cell, i),
    ensures
        cell.target matches Some(d) ==> {
            let wanted = DateView { year: cell.year as int, month: model.month@.month, day: 1 };
            &&& d@.year == cell.year
            &&& d@.day == 1
            &&& model.min@.first_of_month().le(d@)
            &&& d@.le(model.max@.first_of_month())
            &&& (model.min@.first_of_month().le(wanted) && wanted.le(model.max@.first_of_month())
                ==> d@.month == model.month@.month)
        },
        cell.target is None <==> !(model.min@.le(model.max@) && model.min@.year <= cell.year <= model.max@.year),
{
}

} // verus!
