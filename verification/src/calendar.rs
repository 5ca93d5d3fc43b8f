//! Keyboard movement in the day grid. Focus moves separately from the
//! application-owned selection.
use vstd::prelude::*;
use crate::date::{Date, DateView, add_days_in_range, add_months_view, lemma_view_injective, month_index, month_length};

verus! {

/// The keys the day grid handles itself.
#[derive(Clone, Copy, Debug, PartialEq, Eq, Structural)]
pub enum CalendarKey {
    ArrowLeft,
    ArrowRight,
    ArrowUp,
    ArrowDown,
    PageUp,
    PageDown,
    Other,
}

/// Arrow keys without Shift move by days; Page Up/Down move by a month, or a
/// year with Shift. Other keys go to the focused control.
pub open spec fn day_step(key: CalendarKey, shift: bool) -> Option<int> {
    if shift {
        None
    } else {
        match key {
            CalendarKey::ArrowLeft => Some(-1),
            CalendarKey::ArrowRight => Some(1),
            CalendarKey::ArrowUp => Some(-7),
            CalendarKey::ArrowDown => Some(7),
            _ => None,
        }
    }
}

pub open spec fn month_step(key: CalendarKey, shift: bool) -> Option<int> {
    match key {
        CalendarKey::PageUp => Some(if shift { -12int } else { -1int }),
        CalendarKey::PageDown => Some(if shift { 12int } else { 1int }),
        _ => None,
    }
}

pub open spec fn handles(key: CalendarKey, shift: bool) -> bool {
    day_step(key, shift) is Some || month_step(key, shift) is Some
}

/// `target` is where the key moves from `from`, or `None` past year 9999 or before year 1.
pub open spec fn stepped(from: DateView, key: CalendarKey, shift: bool, target: Option<DateView>) -> bool {
    match day_step(key, shift) {
        Some(days) => match target {
            Some(t) => add_days_in_range(from, days) && t.valid() && t.ordinal() == from.ordinal() + days,
            None => !add_days_in_range(from, days),
        },
        None => match month_step(key, shift) {
            Some(months) => target == add_months_view(from, months),
            None => false,
        },
    }
}

/// The destination of a key press from the focused date: `None` when the key
/// is not handled here, `Some(None)` when it leads outside the calendar.
pub fn key_target(from: Date, key: CalendarKey, shift: bool) -> (target: Option<Option<Date>>)
    ensures
        target is None <==> !handles(key, shift),
        target matches Some(t) ==> stepped(from@, key, shift, match t { Some(d) => Some(d@), None => None }),
{
    let days: i32 = match key {
        CalendarKey::ArrowLeft => -1,
        CalendarKey::ArrowRight => 1,
        CalendarKey::ArrowUp => -7,
        CalendarKey::ArrowDown => 7,
        _ => 0,
    };
    if days != 0 {
        if shift {
            return None;
        }
        let moved = from.add_days(days);
        proof {
            if let Some(d) = moved {
                use_type_invariant(&d);
            }
        }
        return Some(moved);
    }
    match key {
        CalendarKey::PageUp => Some(from.add_months(if shift { -12 } else { -1 })),
        CalendarKey::PageDown => Some(from.add_months(if shift { 12 } else { 1 })),
        _ => None,
    }
}

/// Distance of day `k` from the target day, then a tie-break toward the
/// direction of travel.
pub open spec fn nearness(target: DateView, forward: bool, k: int) -> (int, int) {
    (if k < target.day { target.day - k } else { k - target.day }, if forward { 32 - k } else { k })
}

pub open spec fn nearer(a: (int, int), b: (int, int)) -> bool {
    a.0 < b.0 || (a.0 == b.0 && a.1 < b.1)
}

/// Day `k` of the target's month is within the bounds and lies on the side of
/// `from` that the target does.
pub open spec fn reachable(from: DateView, target: DateView, min: DateView, max: DateView, k: int) -> bool {
    let c = DateView { day: k, ..target };
    &&& 1 <= k <= month_length(target.year, target.month)
    &&& min.le(c)
    &&& c.le(max)
    &&& if from.lt(target) {
        from.lt(c)
    } else if target.lt(from) {
        c.lt(from)
    } else {
        true
    }
}

/// `c` is an allowed day of the target's month, and every nearer reachable
/// day was refused by the date filter.
pub open spec fn nearest<E: Fn(Date) -> bool>(from: DateView, target: DateView, min: DateView, max: DateView, enabled: E, c: Date) -> bool {
    &&& c@.year == target.year && c@.month == target.month
    &&& reachable(from, target, min, max, c@.day)
    &&& call_ensures(enabled, (c,), true)
    &&& forall|k: int| #[trigger] reachable(from, target, min, max, k)
        && nearer(nearness(target, !target.lt(from), k), nearness(target, !target.lt(from), c@.day))
        ==> exists|d: Date| d@ == (DateView { day: k, ..target }) && call_ensures(enabled, (d,), false)
}

/// The date filter refused every reachable day of the target's month.
pub open spec fn none_reachable<E: Fn(Date) -> bool>(from: DateView, target: DateView, min: DateView, max: DateView, enabled: E) -> bool {
    forall|k: int| #[trigger] reachable(from, target, min, max, k)
        ==> exists|d: Date| d@ == (DateView { day: k, ..target }) && call_ensures(enabled, (d,), false)
}

pub open spec fn clamped(date: DateView, low: DateView, high: DateView) -> DateView {
    if date.lt(low) {
        low
    } else if high.lt(date) {
        high
    } else {
        date
    }
}

/// `c` is where a key press from `from` lands: the key's destination, kept
/// within the bounds, then the nearest allowed day of that month.
pub open spec fn lands<E: Fn(Date) -> bool>(from: DateView, key: CalendarKey, shift: bool, min: DateView, max: DateView, enabled: E, c: Date) -> bool {
    exists|t: DateView| #[trigger] stepped(from, key, shift, Some(t))
        && nearest(from, clamped(t, min, max), min, max, enabled, c)
}

/// A handled key press that lands nowhere.
pub open spec fn lands_nowhere<E: Fn(Date) -> bool>(from: DateView, key: CalendarKey, shift: bool, min: DateView, max: DateView, enabled: E) -> bool {
    ||| max.lt(min)
    ||| stepped(from, key, shift, None)
    ||| exists|t: DateView| #[trigger] stepped(from, key, shift, Some(t))
        && none_reachable(from, clamped(t, min, max), min, max, enabled)
}

/// What the day grid does with a key press.
#[derive(Clone, Copy, Debug, PartialEq, Eq, Structural)]
pub enum KeyResponse {
    /// The key goes to the focused control.
    Ignored,
    /// The key is consumed without moving focus.
    Captured,
    /// Focus moves to the grid's picked date at this index.
    Focus(usize),
    /// The grid shows the month of this date, then focuses it.
    ShowMonth(Date),
}

/// The response to a key pressed while `from` has focus in the grid showing
/// `month`, whose pickable dates are `dates`.
pub fn navigate<E: Fn(Date) -> bool>(
    from: Date,
    key: CalendarKey,
    shift: bool,
    month: Date,
    min: Date,
    max: Date,
    dates: &Vec<Date>,
    enabled: &E,
    has_month: bool,
) -> (response: KeyResponse)
    requires
        forall|d: Date| call_requires(*enabled, (d,)),
    ensures
        response is Ignored <==> !handles(key, shift),
        response matches KeyResponse::Focus(i) ==> {
            &&& i < dates@.len()
            &&& lands(from@, key, shift, min@, max@, *enabled, dates@[i as int])
            &&& dates@[i as int]@.first_of_month() == month@.first_of_month()
            &&& forall|j: int| 0 <= j < i ==> dates@[j] != dates@[i as int]
        },
        response matches KeyResponse::ShowMonth(c) ==> {
            &&& has_month
            &&& lands(from@, key, shift, min@, max@, *enabled, c)
            &&& c@.first_of_month() != month@.first_of_month()
        },
        response is Captured ==> handles(key, shift) && {
            ||| lands_nowhere(from@, key, shift, min@, max@, *enabled)
            ||| exists|c: Date| #[trigger] lands(from@, key, shift, min@, max@, *enabled, c) && {
                ||| (c@.first_of_month() == month@.first_of_month() && !dates@.contains(c))
                ||| (c@.first_of_month() != month@.first_of_month() && !has_month)
            }
        },
{
    let target = match key_target(from, key, shift) {
        None => {
            return KeyResponse::Ignored;
        },
        Some(t) => t,
    };
    if max.is_before(min) {
        return KeyResponse::Captured;
    }
    let t = match target {
        None => {
            return KeyResponse::Captured;
        },
        Some(t) => t,
    };
    proof {
        use_type_invariant(&t);
    }
    let aim = t.clamp_between(min, max);
    let found = nearest_enabled(from, aim, min, max, enabled);
    let c = match found {
        None => {
            assert(stepped(from@, key, shift, Some(t@)));
            return KeyResponse::Captured;
        },
        Some(c) => c,
    };
    assert(stepped(from@, key, shift, Some(t@)) && nearest(from@, clamped(t@, min@, max@), min@, max@, *enabled, c));
    let first = c.first_of_month();
    let shown = month.first_of_month();
    proof {
        lemma_view_injective(first, shown);
    }
    if first == shown {
        let mut i: usize = 0;
        while i < dates.len()
            invariant
                0 <= i <= dates@.len(),
                forall|j: int| 0 <= j < i ==> dates@[j] != c,
                handles(key, shift),
                lands(from@, key, shift, min@, max@, *enabled, c),
                c@.first_of_month() == month@.first_of_month(),
            decreases dates@.len() - i,
        {
            if dates[i] == c {
                return KeyResponse::Focus(i);
            }
            i = i + 1;
        }
        assert(!dates@.contains(c));
        assert(lands(from@, key, shift, min@, max@, *enabled, c) && c@.first_of_month() == month@.first_of_month()
            && !dates@.contains(c));
        KeyResponse::Captured
    } else if has_month {
        KeyResponse::ShowMonth(c)
    } else {
        assert(lands(from@, key, shift, min@, max@, *enabled, c) && c@.first_of_month() != month@.first_of_month()
            && !has_month);
        KeyResponse::Captured
    }
}

/// Where a date sits among the grid's pickable dates.
pub fn position_of(dates: &Vec<Date>, date: Date) -> (index: Option<usize>)
    ensures
        index matches Some(i) ==> i < dates@.len() && dates@[i as int] == date
            && forall|j: int| 0 <= j < i ==> dates@[j] != date,
        index is None ==> !dates@.contains(date),
{
    let mut i: usize = 0;
    while i < dates.len()
        invariant
            0 <= i <= dates@.len(),
            forall|j: int| 0 <= j < i ==> dates@[j] != date,
        decreases dates@.len() - i,
    {
        if dates[i] == date {
            return Some(i);
        }
        i = i + 1;
    }
    None
}

/// Search only the target's month for the allowed day nearest the target day.
/// An entirely disabled month gives `None` rather than scanning further.
pub fn nearest_enabled<E: Fn(Date) -> bool>(from: Date, target: Date, min: Date, max: Date, enabled: &E) -> (found: Option<Date>)
    requires
        forall|d: Date| call_requires(*enabled, (d,)),
    ensures
        found matches Some(c) ==> {
            &&& c@.year == target@.year && c@.month == target@.month
            &&& reachable(from@, target@, min@, max@, c@.day)
            &&& call_ensures(*enabled, (c,), true)
            &&& forall|k: int| #[trigger] reachable(from@, target@, min@, max@, k)
                && nearer(nearness(target@, !target@.lt(from@), k), nearness(target@, !target@.lt(from@), c@.day))
                ==> exists|d: Date| d@ == (DateView { day: k, ..target@ }) && call_ensures(*enabled, (d,), false)
        },
        found is None ==> forall|k: int| #[trigger] reachable(from@, target@, min@, max@, k)
            ==> exists|d: Date| d@ == (DateView { day: k, ..target@ }) && call_ensures(*enabled, (d,), false),
{
    proof {
        use_type_invariant(&target);
    }
    let forward = !target.is_before(from);
    let length = target.days_in_month();
    let mut best: Option<Date> = None;
    let mut k: u8 = 1;
    while k <= length
        invariant
            1 <= k <= length + 1,
            length == month_length(target@.year, target@.month),
            28 <= length <= 31,
            target@.valid(),
            forward == !target@.lt(from@),
            forall|d: Date| call_requires(*enabled, (d,)),
            best matches Some(c) ==> {
                &&& c@.year == target@.year && c@.month == target@.month
                &&& c@.day < k
                &&& reachable(from@, target@, min@, max@, c@.day)
                &&& call_ensures(*enabled, (c,), true)
            },
            forall|j: int| 1 <= j < k && #[trigger] reachable(from@, target@, min@, max@, j) ==> {
                ||| exists|d: Date| d@ == (DateView { day: j, ..target@ }) && call_ensures(*enabled, (d,), false)
                ||| (best matches Some(c) && !nearer(nearness(target@, forward, j), nearness(target@, forward, c@.day)))
            },
        decreases length + 1 - k,
    {
        match Date::new(target.year(), target.month(), k) {
            Ok(c) => {
                let in_range = min.is_on_or_before(c) && c.is_on_or_before(max);
                let side = if from.is_before(target) {
                    from.is_before(c)
                } else if target.is_before(from) {
                    c.is_before(from)
                } else {
                    true
                };
                if in_range && side {
                    let ok = enabled(c);
                    if ok {
                        let better = match best {
                            None => true,
                            Some(b) => {
                                let dk: u8 = if k < target.day() { target.day() - k } else { k - target.day() };
                                let db: u8 = if b.day() < target.day() { target.day() - b.day() } else { b.day() - target.day() };
                                let tk: u8 = if forward { 32 - k } else { k };
                                let tb: u8 = if forward { 32 - b.day() } else { b.day() };
                                dk < db || (dk == db && tk < tb)
                            },
                        };
                        if better {
                            best = Some(c);
                        }
                    }
                }
            },
            Err(_) => {},
        }
        k = k + 1;
    }
    best
}

/// Keyboard movement in the grid never lands outside the bounds or on a day
/// the date filter refused.
pub proof fn law_keys_land_on_allowed_days<E: Fn(Date) -> bool>(
    from: DateView,
    key: CalendarKey,
    shift: bool,
    min: DateView,
    max: DateView,
    enabled: E,
    c: Date,
)
    requires
        lands(from, key, shift, min, max, enabled, c),
    ensures
        min.le(c@),
        c@.le(max),
        call_ensures(enabled, (c,), true),
{
    let t = choose|t: DateView| #[trigger] stepped(from, key, shift, Some(t))
        && nearest(from, clamped(t, min, max), min, max, enabled, c);
    let target = clamped(t, min, max);
    assert(reachable(from, target, min, max, c@.day));
    assert(c@ == (DateView { day: c@.day, ..target }));
}

/// `n` counted in months: `q` whole years and `r` months more.
proof fn lemma_month_count(n: int, q: int, r: int)
    requires
        0 <= r < 12,
        n == q * 12 + r,
    ensures
        n / 12 == q,
        n % 12 == r,
{
    vstd::arithmetic::div_mod::lemma_fundamental_div_mod_converse(n, 12, q, r);
}

/// The day of the month `v.day` lands on in a month of the given length.
pub open spec fn day_within(day: int, year: int, month: int) -> int {
    if day < month_length(year, month) { day } else { month_length(year, month) }
}

/// The keys move focus by calendar amounts: Left and Right by one day, Up
/// and Down by a week, Page Up and Page Down by one month, and with Shift by
/// a year, keeping the day where the destination month has it (otherwise its
/// last day); no move leaves years 1 to 9999. Shift with an arrow key is not
/// handled here.
pub proof fn law_keys_move_by_calendar_steps(v: DateView, target: Option<DateView>)
    requires
        v.valid(),
    ensures
        stepped(v, CalendarKey::ArrowLeft, false, target) ==> (target matches Some(t) ==> t.valid() && t.ordinal() == v.ordinal() - 1),
        stepped(v, CalendarKey::ArrowRight, false, target) ==> (target matches Some(t) ==> t.valid() && t.ordinal() == v.ordinal() + 1),
        stepped(v, CalendarKey::ArrowUp, false, target) ==> (target matches Some(t) ==> t.valid() && t.ordinal() == v.ordinal() - 7),
        stepped(v, CalendarKey::ArrowDown, false, target) ==> (target matches Some(t) ==> t.valid() && t.ordinal() == v.ordinal() + 7),
        !handles(CalendarKey::ArrowLeft, true) && !handles(CalendarKey::ArrowRight, true),
        !handles(CalendarKey::ArrowUp, true) && !handles(CalendarKey::ArrowDown, true),
        handles(CalendarKey::PageUp, true) && handles(CalendarKey::PageDown, true),
        stepped(v, CalendarKey::PageUp, true, target) ==> target == if v.year > 1 {
            Some(DateView { year: v.year - 1, month: v.month, day: day_within(v.day, v.year - 1, v.month) })
        } else {
            None
        },
        stepped(v, CalendarKey::PageDown, true, target) ==> target == if v.year < 9999 {
            Some(DateView { year: v.year + 1, month: v.month, day: day_within(v.day, v.year + 1, v.month) })
        } else {
            None
        },
        stepped(v, CalendarKey::PageUp, false, target) ==> target == if v.month > 1 {
            Some(DateView { year: v.year, month: v.month - 1, day: day_within(v.day, v.year, v.month - 1) })
        } else if v.year > 1 {
            Some(DateView { year: v.year - 1, month: 12, day: day_within(v.day, v.year - 1, 12) })
        } else {
            None
        },
        stepped(v, CalendarKey::PageDown, false, target) ==> target == if v.month < 12 {
            Some(DateView { year: v.year, month: v.month + 1, day: day_within(v.day, v.year, v.month + 1) })
        } else if v.year < 9999 {
            Some(DateView { year: v.year + 1, month: 1, day: day_within(v.day, v.year + 1, 1) })
        } else {
            None
        },
{
    let i = month_index(v);
    if v.year > 1 {
        lemma_month_count(i - 12, v.year - 2, v.month - 1);
    }
    if v.year < 9999 {
        lemma_month_count(i + 12, v.year, v.month - 1);
    }
    if v.month > 1 {
        lemma_month_count(i - 1, v.year - 1, v.month - 2);
    } else if v.year > 1 {
        lemma_month_count(i - 1, v.year - 2, 11);
    }
    if v.month < 12 {
        lemma_month_count(i + 1, v.year - 1, v.month);
    } else if v.year < 9999 {
        lemma_month_count(i + 1, v.year, 0);
    }
}

} // verus!
