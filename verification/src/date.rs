//! A valid proleptic Gregorian date in years 1 to 9999.
use vstd::prelude::*;
use crate::text::{chars_of, digit, push_char};

verus! {

/// The mathematical value of a date.
pub struct DateView {
    pub year: int,
    pub month: int,
    pub day: int,
}

pub open spec fn is_leap(year: int) -> bool {
    year % 4 == 0 && (year % 100 != 0 || year % 400 == 0)
}

pub open spec fn month_length(year: int, month: int) -> int {
    if month == 4 || month == 6 || month == 9 || month == 11 {
        30
    } else if month == 2 {
        if is_leap(year) { 29 } else { 28 }
    } else {
        31
    }
}

pub open spec fn valid_ymd(year: int, month: int, day: int) -> bool {
    &&& 1 <= year <= 9999
    &&& 1 <= month <= 12
    &&& 1 <= day <= month_length(year, month)
}

impl DateView {
    pub open spec fn valid(self) -> bool {
        valid_ymd(self.year, self.month, self.day)
    }

    /// Days elapsed since 0001-01-01.
    pub open spec fn ordinal(self) -> int {
        days_before_year(self.year) + days_before_month(self.year, self.month) + self.day - 1
    }

    /// Chronological order.
    pub open spec fn le(self, other: DateView) -> bool {
        ||| self.year < other.year
        ||| self.year == other.year && self.month < other.month
        ||| self.year == other.year && self.month == other.month && self.day <= other.day
    }

    pub open spec fn lt(self, other: DateView) -> bool {
        self.le(other) && self != other
    }

    pub open spec fn first_of_month(self) -> DateView {
        DateView { day: 1, ..self }
    }
}

pub open spec fn days_before_year(year: int) -> int {
    let p = year - 1;
    365 * p + p / 4 - p / 100 + p / 400
}

pub open spec fn days_before_month(year: int, month: int) -> int {
    let common: int = if month == 1 {
        0
    } else if month == 2 {
        31
    } else if month == 3 {
        59
    } else if month == 4 {
        90
    } else if month == 5 {
        120
    } else if month == 6 {
        151
    } else if month == 7 {
        181
    } else if month == 8 {
        212
    } else if month == 9 {
        243
    } else if month == 10 {
        273
    } else if month == 11 {
        304
    } else {
        334
    };
    common + if month > 2 && is_leap(year) { 1int } else { 0int }
}

pub open spec fn month_offset(month: int) -> int {
    if month == 1 {
        0
    } else if month == 2 {
        3
    } else if month == 3 {
        2
    } else if month == 4 {
        5
    } else if month == 5 {
        0
    } else if month == 6 {
        3
    } else if month == 7 {
        5
    } else if month == 8 {
        1
    } else if month == 9 {
        4
    } else if month == 10 {
        6
    } else if month == 11 {
        2
    } else {
        4
    }
}

/// Sunday = 0, Saturday = 6.
pub open spec fn weekday_of(v: DateView) -> int {
    let y = v.year - if v.month < 3 { 1int } else { 0int };
    (y + y / 4 - y / 100 + y / 400 + month_offset(v.month) + v.day) % 7
}

/// Moving by calendar months, with the day clamped to the destination month.
pub open spec fn add_months_view(v: DateView, months: int) -> Option<DateView> {
    let n = month_index(v) + months;
    if 0 <= n < 9999 * 12 {
        let year = n / 12 + 1;
        let month = n % 12 + 1;
        let length = month_length(year, month);
        Some(DateView { year, month, day: if v.day < length { v.day } else { length } })
    } else {
        None
    }
}

/// The date a number of days away, when it lies in years 1 to 9999.
pub open spec fn add_days_in_range(v: DateView, days: int) -> bool {
    0 <= v.ordinal() + days <= max_view().ordinal()
}

pub open spec fn is_digit(c: char) -> bool {
    48 <= c as int <= 57
}

pub open spec fn digit_value(c: char) -> int {
    c as int - 48
}

/// The ISO 8601 calendar text `YYYY-MM-DD`.
pub open spec fn iso_text(v: DateView) -> Seq<char> {
    seq![
        digit(v.year / 1000), digit(v.year / 100 % 10), digit(v.year / 10 % 10), digit(v.year % 10),
        '-', digit(v.month / 10), digit(v.month % 10),
        '-', digit(v.day / 10), digit(v.day % 10),
    ]
}

/// Exactly ten characters: four digits, a hyphen, two digits, a hyphen, two digits.
pub open spec fn iso_shape(s: Seq<char>) -> bool {
    &&& s.len() == 10
    &&& s[4] == '-'
    &&& s[7] == '-'
    &&& forall|i: int| 0 <= i < 10 && i != 4 && i != 7 ==> is_digit(#[trigger] s[i])
}

pub open spec fn iso_fields(s: Seq<char>) -> DateView {
    DateView {
        year: 1000 * digit_value(s[0]) + 100 * digit_value(s[1]) + 10 * digit_value(s[2]) + digit_value(s[3]),
        month: 10 * digit_value(s[5]) + digit_value(s[6]),
        day: 10 * digit_value(s[8]) + digit_value(s[9]),
    }
}

/// The date that strict ISO text names, if any.
pub open spec fn parse_iso(s: Seq<char>) -> Option<DateView> {
    if iso_shape(s) && iso_fields(s).valid() {
        Some(iso_fields(s))
    } else {
        None
    }
}

/// The last representable day, 9999-12-31.
pub open spec fn max_view() -> DateView {
    DateView { year: 9999, month: 12, day: 31 }
}

pub open spec fn min_view() -> DateView {
    DateView { year: 1, month: 1, day: 1 }
}

/// The count of months since January of year 1.
pub open spec fn month_index(v: DateView) -> int {
    (v.year - 1) * 12 + v.month - 1
}

proof fn lemma_year_length(year: int)
    requires
        1 <= year,
    ensures
        days_before_year(year + 1) == days_before_year(year) + 365 + if is_leap(year) { 1int } else { 0int },
{
    let p = year - 1;
    assert(year / 4 - p / 4 == if year % 4 == 0 { 1int } else { 0int }) by (nonlinear_arith)
        requires p == year - 1, year >= 1;
    assert(year / 100 - p / 100 == if year % 100 == 0 { 1int } else { 0int }) by (nonlinear_arith)
        requires p == year - 1, year >= 1;
    assert(year / 400 - p / 400 == if year % 400 == 0 { 1int } else { 0int }) by (nonlinear_arith)
        requires p == year - 1, year >= 1;
    assert(year % 400 == 0 ==> year % 100 == 0) by (nonlinear_arith)
        requires year >= 1;
    assert(year % 100 == 0 ==> year % 4 == 0) by (nonlinear_arith)
        requires year >= 1;
}

proof fn lemma_days_before_year_monotonic(a: int, b: int)
    requires
        1 <= a <= b,
    ensures
        days_before_year(a) + 365 * (b - a) <= days_before_year(b),
    decreases b - a,
{
    if a < b {
        lemma_days_before_year_monotonic(a, b - 1);
        lemma_year_length(b - 1);
    }
}

/// Every valid date lies between day zero and the last day.
pub proof fn lemma_ordinal_bounds(v: DateView)
    requires
        v.valid(),
    ensures
        0 <= v.ordinal() <= max_view().ordinal(),
        v.ordinal() < days_before_year(v.year + 1),
        days_before_year(v.year) <= v.ordinal(),
{
    lemma_max_ordinal();
    lemma_year_length(v.year);
    lemma_days_before_year_monotonic(1, v.year);
    lemma_days_before_year_monotonic(v.year + 1, 10000);
    lemma_year_length(9999);
}

proof fn lemma_days_before_month_step(year: int, a: int, b: int)
    requires
        1 <= a < b <= 12,
    ensures
        days_before_month(year, a) + month_length(year, a) <= days_before_month(year, b),
{
}

/// Chronological order agrees with the day count.
pub proof fn lemma_ordinal_order(a: DateView, b: DateView)
    requires
        a.valid(),
        b.valid(),
    ensures
        a.lt(b) ==> a.ordinal() < b.ordinal(),
        a.le(b) <==> a.ordinal() <= b.ordinal(),
        a == b <==> a.ordinal() == b.ordinal(),
{
    lemma_ordinal_bounds(a);
    lemma_ordinal_bounds(b);
    if a.year < b.year {
        lemma_days_before_year_monotonic(a.year + 1, b.year);
    } else if b.year < a.year {
        lemma_days_before_year_monotonic(b.year + 1, a.year);
    } else if a.month < b.month {
        lemma_days_before_month_step(a.year, a.month, b.month);
    } else if b.month < a.month {
        lemma_days_before_month_step(a.year, b.month, a.month);
    }
}

pub proof fn lemma_max_ordinal()
    ensures
        max_view().ordinal() == 3_652_058,
        days_before_year(10000) == 3_652_059,
{
    assert(days_before_year(9999) == 3651694);
    assert(days_before_year(10000) == 3_652_059);
}

/// The first day of the next month follows the last day of this one.
pub proof fn lemma_next_month(v: DateView)
    requires
        v.valid(),
        v.month < 12 || v.year < 9999,
    ensures
        ({
            let next = if v.month == 12 {
                DateView { year: v.year + 1, month: 1, day: 1 }
            } else {
                DateView { year: v.year, month: v.month + 1, day: 1 }
            };
            next.valid() && next.ordinal() == v.first_of_month().ordinal() + month_length(v.year, v.month)
        }),
{
    if v.month == 12 {
        lemma_year_length(v.year);
    }
}

#[derive(Clone, Copy, Debug, PartialEq, Eq, Structural, PartialOrd, Ord, Hash)]
pub struct Date {
    year: u16,
    month: u8,
    day: u8,
}

#[derive(Clone, Copy, Debug, PartialEq, Eq, Structural)]
pub struct InvalidDate;

impl Date {
    /// Every date is a valid calendar date.
    #[verifier::type_invariant]
    pub open spec fn well_formed(self) -> bool {
        self@.valid()
    }
}

impl View for Date {
    type V = DateView;

    closed spec fn view(&self) -> DateView {
        DateView { year: self.year as int, month: self.month as int, day: self.day as int }
    }
}

pub fn days_in_month(year: u16, month: u8) -> (days: u8)
    ensures
        days == month_length(year as int, month as int),
{
    match month {
        4 | 6 | 9 | 11 => 30,
        2 => {
            if year % 4 == 0 && (year % 100 != 0 || year % 400 == 0) {
                29
            } else {
                28
            }
        }
        _ => 31,
    }
}

impl Date {
    /// The first representable day, 0001-01-01.
    #[allow(non_snake_case)]
    pub fn MIN() -> (date: Date)
        ensures
            date@ == min_view(),
    {
        Date { year: 1, month: 1, day: 1 }
    }

    /// The last representable day, 9999-12-31.
    #[allow(non_snake_case)]
    pub fn MAX() -> (date: Date)
        ensures
            date@ == max_view(),
    {
        Date { year: 9999, month: 12, day: 31 }
    }

    pub fn new(year: u16, month: u8, day: u8) -> (result: Result<Date, InvalidDate>)
        ensures
            result is Ok <==> valid_ymd(year as int, month as int, day as int),
            result matches Ok(date) ==> date@ == (DateView { year: year as int, month: month as int, day: day as int }),
    {
        if 1 <= year && year <= 9999 && 1 <= month && month <= 12 && day > 0
            && day <= days_in_month(year, month) {
            Ok(Date { year, month, day })
        } else {
            Err(InvalidDate)
        }
    }

    pub fn year(self) -> (year: u16)
        ensures
            year == self@.year,
    {
        self.year
    }

    pub fn month(self) -> (month: u8)
        ensures
            month == self@.month,
    {
        self.month
    }

    pub fn day(self) -> (day: u8)
        ensures
            day == self@.day,
    {
        self.day
    }

    pub fn first_of_month(self) -> (first: Self)
        ensures
            first@ == self@.first_of_month(),
    {
        proof {
            use_type_invariant(&self);
        }
        Date { day: 1, ..self }
    }

    pub fn days_in_month(self) -> (days: u8)
        ensures
            days == month_length(self@.year, self@.month),
    {
        days_in_month(self.year, self.month)
    }

    /// Sunday = 0, Saturday = 6.
    pub fn weekday(self) -> (weekday: u8)
        ensures
            weekday == weekday_of(self@),
            weekday < 7,
    {
        proof {
            use_type_invariant(&self);
        }
        let offset: u32 = match self.month {
            1 => 0,
            2 => 3,
            3 => 2,
            4 => 5,
            5 => 0,
            6 => 3,
            7 => 5,
            8 => 1,
            9 => 4,
            10 => 6,
            11 => 2,
            _ => 4,
        };
        let y: u32 = self.year as u32 - if self.month < 3 { 1u32 } else { 0u32 };
        ((y + y / 4 - y / 100 + y / 400 + offset + self.day as u32) % 7) as u8
    }

    /// Move by calendar months, clamping the day at the destination month end.
    pub fn add_months(self, months: i32) -> (result: Option<Self>)
        ensures
            result matches Some(date) ==> add_months_view(self@, months as int) == Some(date@),
            result is None ==> add_months_view(self@, months as int) is None,
    {
        proof {
            use_type_invariant(&self);
        }
        let n: i64 = (self.year as i64 - 1) * 12 + self.month as i64 - 1 + months as i64;
        if !(0 <= n && n < 9999 * 12) {
            return None;
        }
        let n: u32 = n as u32;
        let year: u16 = (n / 12 + 1) as u16;
        let month: u8 = (n % 12 + 1) as u8;
        let length = days_in_month(year, month);
        Some(Date { year, month, day: if self.day < length { self.day } else { length } })
    }

    /// Whether this date comes strictly before `other`.
    pub fn is_before(self, other: Date) -> (before: bool)
        ensures
            before == self@.lt(other@),
    {
        self.year < other.year || self.year == other.year && (self.month < other.month
            || self.month == other.month && self.day < other.day)
    }

    /// Whether this date comes on or before `other`.
    pub fn is_on_or_before(self, other: Date) -> (result: bool)
        ensures
            result == self@.le(other@),
    {
        !other.is_before(self)
    }

    /// The earlier of two dates.
    pub fn earlier(self, other: Date) -> (date: Date)
        ensures
            date == if self@.le(other@) { self } else { other },
    {
        if self.is_on_or_before(other) {
            self
        } else {
            other
        }
    }

    /// The later of two dates.
    pub fn later(self, other: Date) -> (date: Date)
        ensures
            date == if self@.le(other@) { other } else { self },
    {
        if self.is_on_or_before(other) {
            other
        } else {
            self
        }
    }

    /// Restrict to `[low, high]`; requires `low <= high`.
    pub fn clamp_between(self, low: Date, high: Date) -> (date: Date)
        requires
            low@.le(high@),
        ensures
            date == if self@.lt(low@) { low } else if high@.lt(self@) { high } else { self },
    {
        if self.is_before(low) {
            low
        } else if high.is_before(self) {
            high
        } else {
            self
        }
    }

    /// Read strict ISO text `YYYY-MM-DD`.
    pub fn from_iso(value: &str) -> (result: Result<Date, InvalidDate>)
        ensures
            result is Ok <==> parse_iso(value@) is Some,
            result matches Ok(date) ==> parse_iso(value@) == Some(date@),
    {
        let chars = chars_of(value);
        if chars.len() != 10 {
            return Err(InvalidDate);
        }
        let mut i: usize = 0;
        while i < 10
            invariant
                chars@ == value@,
                chars@.len() == 10,
                0 <= i <= 10,
                chars@[4] == '-' && chars@[7] == '-' || i <= 7,
                i > 4 ==> chars@[4] == '-',
                i > 7 ==> chars@[7] == '-',
                forall|j: int| 0 <= j < i && j != 4 && j != 7 ==> is_digit(#[trigger] chars@[j]),
            decreases 10 - i,
        {
            let c = chars[i];
            if i == 4 || i == 7 {
                if c != '-' {
                    return Err(InvalidDate);
                }
            } else if !('0' <= c && c <= '9') {
                return Err(InvalidDate);
            }
            i = i + 1;
        }
        let year: u16 = (chars[0] as u16 - 48) * 1000 + (chars[1] as u16 - 48) * 100
            + (chars[2] as u16 - 48) * 10 + (chars[3] as u16 - 48);
        let month: u8 = (chars[5] as u8 - 48) * 10 + (chars[6] as u8 - 48);
        let day: u8 = (chars[8] as u8 - 48) * 10 + (chars[9] as u8 - 48);
        Date::new(year, month, day)
    }

    /// The ISO text of this date.
    pub fn to_iso_string(&self) -> (text: String)
        ensures
            text@ == iso_text(self@),
    {
        proof {
            use_type_invariant(self);
        }
        let mut text = String::new();
        push_char(&mut text, ((self.year / 1000) as u8 + 48) as char);
        push_char(&mut text, ((self.year / 100 % 10) as u8 + 48) as char);
        push_char(&mut text, ((self.year / 10 % 10) as u8 + 48) as char);
        push_char(&mut text, ((self.year % 10) as u8 + 48) as char);
        push_char(&mut text, '-');
        push_char(&mut text, (self.month / 10 + 48) as char);
        push_char(&mut text, (self.month % 10 + 48) as char);
        push_char(&mut text, '-');
        push_char(&mut text, (self.day / 10 + 48) as char);
        push_char(&mut text, (self.day % 10 + 48) as char);
        assert(text@ =~= iso_text(self@));
        text
    }

    /// Move by days across month and year boundaries.
    pub fn add_days(self, days: i32) -> (result: Option<Self>)
        ensures
            result is Some <==> add_days_in_range(self@, days as int),
            result matches Some(date) ==> date@.ordinal() == self@.ordinal() + days,
    {
        proof {
            use_type_invariant(&self);
            lemma_max_ordinal();
            lemma_ordinal_bounds(self@);
        }
        if !(-3_652_059 <= days && days <= 3_652_059) {
            return None;
        }
        let mut day: i64 = self.day as i64 + days as i64;
        let mut month = self.first_of_month();
        let ghost target = self@.ordinal() + days;
        while day < 1
            invariant
                month@.valid(),
                month@.day == 1,
                month@.ordinal() + day - 1 == target,
                -3_652_059 <= day <= 3_652_059 + 31,
                target == self@.ordinal() + days,
                days <= 3_652_059,
            decreases 3_652_100 - day,
        {
            proof {
                use_type_invariant(&month);
            }
            let previous = month.add_months(-1);
            match previous {
                None => {
                    proof {
                        lemma_ordinal_bounds(month@);
                    }
                    return None;
                },
                Some(p) => {
                    proof {
                        use_type_invariant(&p);
                        lemma_next_month(p@);
                    }
                    month = p;
                    day = day + month.days_in_month() as i64;
                },
            }
        }
        while day > month.days_in_month() as i64
            invariant
                month@.valid(),
                month@.day == 1,
                month@.ordinal() + day - 1 == target,
                1 <= day <= 3_652_059 + 31,
                0 <= target,
                target == self@.ordinal() + days,
            decreases day,
        {
            proof {
                use_type_invariant(&month);
                lemma_max_ordinal();
            }
            let ghost before = month@;
            day = day - month.days_in_month() as i64;
            let next = month.add_months(1);
            match next {
                None => {
                    return None;
                },
                Some(n) => {
                    proof {
                        lemma_next_month(before);
                    }
                    month = n;
                },
            }
        }
        proof {
            use_type_invariant(&month);
        }
        Some(Date { day: day as u8, ..month })
    }
}

impl core::str::FromStr for Date {
    type Err = InvalidDate;

    fn from_str(value: &str) -> (result: Result<Self, Self::Err>)
        ensures
            result is Ok <==> parse_iso(value@) is Some,
            result matches Ok(date) ==> parse_iso(value@) == Some(date@),
    {
        Date::from_iso(value)
    }
}

impl InvalidDate {
    /// The message shown for text that names no date.
    pub fn message(&self) -> (text: String)
        ensures
            text@ == "Enter a valid date as YYYY-MM-DD"@,
    {
        String::from_str("Enter a valid date as YYYY-MM-DD")
    }
}

proof fn lemma_mod_shift(a: int, k: int)
    ensures
        (a + 7 * k) % 7 == a % 7,
{
    assert((a + 7 * k) % 7 == a % 7) by (nonlinear_arith);
}

/// The weekday formula counts days from 0001-01-01, a Monday.
pub proof fn lemma_weekday_ordinal(v: DateView)
    requires
        v.valid(),
    ensures
        weekday_of(v) == (v.ordinal() + 1) % 7,
{
    let y = v.year;
    let p = y - 1;
    if v.month >= 3 {
        assert(y / 4 - p / 4 == if y % 4 == 0 { 1int } else { 0int }) by (nonlinear_arith)
            requires p == y - 1, y >= 1;
        assert(y / 100 - p / 100 == if y % 100 == 0 { 1int } else { 0int }) by (nonlinear_arith)
            requires p == y - 1, y >= 1;
        assert(y / 400 - p / 400 == if y % 400 == 0 { 1int } else { 0int }) by (nonlinear_arith)
            requires p == y - 1, y >= 1;
        assert(y % 400 == 0 ==> y % 100 == 0) by (nonlinear_arith) requires y >= 1;
        assert(y % 100 == 0 ==> y % 4 == 0) by (nonlinear_arith) requires y >= 1;
        let raw = y + y / 4 - y / 100 + y / 400 + month_offset(v.month) + v.day;
        let cum = days_before_month(y, v.month) - if is_leap(y) { 1int } else { 0int };
        assert((cum - 1 - month_offset(v.month)) % 7 == 0);
        let q = (cum - 1 - month_offset(v.month)) / 7;
        assert(cum - 1 - month_offset(v.month) == 7 * q);
        assert(v.ordinal() + 1 == raw + 7 * (52 * p + q));
        lemma_mod_shift(raw, 52 * p + q);
    } else {
        let raw = p + p / 4 - p / 100 + p / 400 + month_offset(v.month) + v.day;
        assert(days_before_month(y, v.month) - month_offset(v.month) == 0
            || days_before_month(y, v.month) - month_offset(v.month) == 28);
        let q = (days_before_month(y, v.month) - month_offset(v.month)) / 7;
        assert(days_before_month(y, v.month) - month_offset(v.month) == 7 * q);
        assert(v.ordinal() + 1 == raw + 7 * (52 * p + q));
        lemma_mod_shift(raw, 52 * p + q);
    }
}

/// The day after a date falls on the next weekday.
pub proof fn law_weekday_advances(v: DateView, next: DateView)
    requires
        v.valid(),
        next.valid(),
        next.ordinal() == v.ordinal() + 1,
    ensures
        weekday_of(next) == (weekday_of(v) + 1) % 7,
{
    lemma_weekday_ordinal(v);
    lemma_weekday_ordinal(next);
    lemma_ordinal_bounds(v);
    assert((v.ordinal() + 2) % 7 == ((v.ordinal() + 1) % 7 + 1) % 7) by (nonlinear_arith)
        requires v.ordinal() >= 0;
}

/// Two dates are equal exactly when their calendar values are.
pub proof fn lemma_view_injective(a: Date, b: Date)
    ensures
        a@ == b@ <==> a == b,
{
}

/// Formatting a date and reading the text back gives the same date.
pub proof fn law_iso_round_trip(v: DateView)
    requires
        v.valid(),
    ensures
        iso_shape(iso_text(v)),
        parse_iso(iso_text(v)) == Some(v),
{
    let s = iso_text(v);
    assert(0 <= v.year / 1000 <= 9) by (nonlinear_arith) requires 1 <= v.year <= 9999;
    assert(1000 * (v.year / 1000) + 100 * (v.year / 100 % 10) + 10 * (v.year / 10 % 10) + v.year % 10 == v.year)
        by (nonlinear_arith) requires 1 <= v.year <= 9999;
    assert(10 * (v.month / 10) + v.month % 10 == v.month) by (nonlinear_arith) requires 1 <= v.month;
    assert(10 * (v.day / 10) + v.day % 10 == v.day) by (nonlinear_arith) requires 1 <= v.day;
    assert(iso_shape(s));
    assert(iso_fields(s) == v);
}

/// Moving back by the same number of days returns to the starting date.
pub proof fn law_add_days_round_trip(start: DateView, moved: DateView, back: DateView, days: int)
    requires
        start.valid(),
        moved.valid(),
        back.valid(),
        moved.ordinal() == start.ordinal() + days,
        back.ordinal() == moved.ordinal() + (-days),
    ensures
        add_days_in_range(moved, -days),
        back == start,
{
    lemma_ordinal_bounds(start);
    lemma_ordinal_order(back, start);
}

} // verus!
