//! Which carousel item keys and wheel steps select. A carousel selects
//! nothing unless it has a select handler and at least one item.
use vstd::prelude::*;

verus! {

/// Keys a focused carousel handles.
#[derive(Clone, Copy, Debug, PartialEq, Eq, Structural)]
pub enum CarouselKey {
    ArrowLeft,
    ArrowRight,
    Home,
    End,
    Other,
}

/// The index of the last item (zero when there are none).
pub open spec fn last_index(count: int) -> int {
    if count <= 0 { 0 } else { count - 1 }
}

/// A proposed index, kept at or before the last item.
pub open spec fn published(proposal: int, count: int) -> int {
    if proposal <= last_index(count) { proposal } else { last_index(count) }
}

/// One item back, stopping at the first.
pub open spec fn step_back(selected: int) -> int {
    if selected <= 0 { 0 } else { selected - 1 }
}

/// One item forward, stopping at the last.
pub open spec fn step_forward(selected: int, count: int) -> int {
    if selected + 1 < last_index(count) { selected + 1 } else { last_index(count) }
}

/// The carousel takes selection input at all: it has a handler and items.
pub open spec fn selectable(has_handler: bool, count: int) -> bool {
    has_handler && count > 0
}

/// The item a key selects: Left and Right step one item without wrapping,
/// Home and End jump to the ends; other keys, and a carousel that is not
/// focused or not selectable, select nothing.
pub open spec fn key_outcome(selected: int, count: int, has_handler: bool, focused: bool, key: CarouselKey) -> Option<int> {
    if !selectable(has_handler, count) || !focused {
        None
    } else {
        match key {
            CarouselKey::ArrowLeft => Some(published(step_back(selected), count)),
            CarouselKey::ArrowRight => Some(step_forward(selected, count)),
            CarouselKey::Home => Some(0),
            CarouselKey::End => Some(last_index(count)),
            CarouselKey::Other => None,
        }
    }
}

/// The item a full wheel notch selects: back for a positive scroll, else forward.
pub open spec fn wheel_outcome(selected: int, count: int, has_handler: bool, back: bool) -> Option<int> {
    if !selectable(has_handler, count) {
        None
    } else if back {
        Some(published(step_back(selected), count))
    } else {
        Some(step_forward(selected, count))
    }
}

/// What a carousel does with a key press.
#[derive(Clone, Copy, Debug, PartialEq, Eq, Structural)]
pub struct CarouselResponse {
    /// The item to send to the select handler.
    pub select: Option<usize>,
    /// Keep the key from other widgets.
    pub capture: bool,
}

fn last(count: usize) -> (index: usize)
    ensures
        index == last_index(count as int),
{
    if count == 0 { 0 } else { count - 1 }
}

fn back_one(selected: usize, count: usize) -> (index: usize)
    ensures
        index == published(step_back(selected as int), count as int),
{
    let end = last(count);
    let back = if selected == 0 { 0 } else { selected - 1 };
    if back <= end { back } else { end }
}

fn forward_one(selected: usize, count: usize) -> (index: usize)
    ensures
        index == step_forward(selected as int, count as int),
{
    let end = last(count);
    if selected < end && selected + 1 < end { selected + 1 } else { end }
}

/// The response to a key press: the selected item, if any, and the key is
/// kept from other widgets exactly when it selects one.
pub fn key_response(selected: usize, count: usize, has_handler: bool, focused: bool, key: CarouselKey) -> (response: CarouselResponse)
    ensures
        response.select == match key_outcome(selected as int, count as int, has_handler, focused, key) {
            Some(i) => Some(i as usize),
            None => None,
        },
        response.capture == response.select is Some,
{
    if !has_handler || count == 0 || !focused {
        return CarouselResponse { select: None, capture: false };
    }
    let select = match key {
        CarouselKey::ArrowLeft => Some(back_one(selected, count)),
        CarouselKey::ArrowRight => Some(forward_one(selected, count)),
        CarouselKey::Home => Some(0),
        CarouselKey::End => Some(last(count)),
        CarouselKey::Other => None,
    };
    CarouselResponse { select, capture: select.is_some() }
}

/// The item a full wheel notch selects.
pub fn wheel_step(selected: usize, count: usize, has_handler: bool, back: bool) -> (select: Option<usize>)
    ensures
        select == match wheel_outcome(selected as int, count as int, has_handler, back) {
            Some(i) => Some(i as usize),
            None => None,
        },
{
    if !has_handler || count == 0 {
        None
    } else if back {
        Some(back_one(selected, count))
    } else {
        Some(forward_one(selected, count))
    }
}

/// The item a drag proposes once it settles, kept at or before the last
/// item; an empty carousel selects nothing.
pub fn selected_index(proposal: usize, count: usize) -> (select: Option<usize>)
    ensures
        select == if count == 0 { None } else { Some(published(proposal as int, count as int) as usize) },
{
    if count == 0 {
        None
    } else {
        let end = last(count);
        Some(if proposal <= end { proposal } else { end })
    }
}

/// A carousel without a handler or without items selects nothing, and every
/// selection names one of its items.
pub proof fn law_selection_stays_in_range(selected: int, count: int, has_handler: bool, focused: bool, key: CarouselKey, back: bool)
    requires
        selected >= 0,
    ensures
        !selectable(has_handler, count) ==> key_outcome(selected, count, has_handler, focused, key) is None
            && wheel_outcome(selected, count, has_handler, back) is None,
        key_outcome(selected, count, has_handler, focused, key) matches Some(i) ==> 0 <= i < count,
        wheel_outcome(selected, count, has_handler, back) matches Some(i) ==> 0 <= i < count,
{
}

/// In a focused carousel of `n` items with a handler, Right selects the next
/// item and Left the previous one, stopping at the ends rather than wrapping
/// (a selection past the end comes back to the last item); Home selects the
/// first and End the last; a wheel notch back or forward steps like Left or
/// Right.
pub proof fn law_keys_step_one_item(i: int, n: int)
    requires
        n > 0,
        i >= 0,
    ensures
        key_outcome(i, n, true, true, CarouselKey::ArrowRight) == Some(if i + 1 <= n - 1 { i + 1 } else { n - 1 }),
        key_outcome(i, n, true, true, CarouselKey::ArrowLeft) == Some(
            if i == 0 { 0 } else if i - 1 <= n - 1 { i - 1 } else { n - 1 },
        ),
        key_outcome(i, n, true, true, CarouselKey::Home) == Some(0int),
        key_outcome(i, n, true, true, CarouselKey::End) == Some(n - 1),
        key_outcome(i, n, true, true, CarouselKey::Other) is None,
        wheel_outcome(i, n, true, false) == key_outcome(i, n, true, true, CarouselKey::ArrowRight),
        wheel_outcome(i, n, true, true) == key_outcome(i, n, true, true, CarouselKey::ArrowLeft),
{
}

} // verus!
