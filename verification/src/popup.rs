//! The open/closed state of a menu popup and how outside input dismisses it.
//! Menus of one cascade share a dismissal signal: dismissing the tree bumps
//! the signal, and every menu that sees a new signal closes.
use vstd::prelude::*;
use crate::menu::TypeAhead;

verus! {

/// Input reaching an open menu that type-ahead, the arrow keys and Tab left alone.
#[derive(Clone, Copy, Debug, PartialEq, Eq, Structural)]
pub enum PopupEvent {
    Escape,
    ArrowLeft,
    WindowUnfocused,
    WheelScrolled,
    /// A mouse button went down; `primary` for the left or right button.
    Pressed { primary: bool },
    /// A mouse button went up; `primary` for the left or right button.
    Released { primary: bool },
    CursorLeft,
    /// Any other mouse input.
    PointerOther,
    /// Touch input.
    Touch,
    /// A window event other than losing focus.
    WindowOther,
    /// Any other input, such as other keys.
    Other,
}

/// What the menu does after an event.
#[derive(Clone, Copy, Debug, PartialEq, Eq, Structural)]
pub enum PopupAction {
    /// The event belongs to an ancestor panel of the cascade: leave it alone.
    Skip,
    /// Pass the event on to the menu's content.
    Forward,
    /// Close this menu only.
    Close,
    /// Close the whole cascade.
    DismissTree,
}

pub open spec fn is_mouse(event: PopupEvent) -> bool {
    event is WheelScrolled || event is Pressed || event is Released || event is CursorLeft || event is PointerOther
}

/// The decision for an event, and whether a press outside is pending after it.
/// `outside` tells that the pointer is in the window but off the menu panel;
/// `over_ancestor` that it is over an ancestor panel instead; `nested` that the
/// menu has ancestors.
pub open spec fn popup_outcome(pressed: bool, event: PopupEvent, outside: bool, over_ancestor: bool, nested: bool) -> (bool, PopupAction) {
    if is_mouse(event) && over_ancestor {
        (if event is Pressed || event is Released { false } else { pressed }, PopupAction::Skip)
    } else {
        match event {
            PopupEvent::ArrowLeft => if nested { (false, PopupAction::Close) } else { (pressed, PopupAction::Forward) },
            PopupEvent::Escape => (false, PopupAction::Close),
            PopupEvent::WindowUnfocused => (false, PopupAction::DismissTree),
            PopupEvent::WheelScrolled => if outside { (false, PopupAction::DismissTree) } else { (pressed, PopupAction::Forward) },
            PopupEvent::Pressed { primary } => (if primary { outside } else { pressed }, PopupAction::Forward),
            PopupEvent::Released { primary } => if !primary {
                (pressed, PopupAction::Forward)
            } else if pressed && outside {
                (false, PopupAction::DismissTree)
            } else {
                (false, PopupAction::Forward)
            },
            PopupEvent::CursorLeft => (false, PopupAction::Forward),
            _ => (pressed, PopupAction::Forward),
        }
    }
}

/// The signal after a tree dismissal (it counts round).
pub open spec fn bumped(signal: u64) -> u64 {
    if signal == u64::MAX { 0 } else { (signal + 1) as u64 }
}

/// Whether a menu stays open when it synchronizes with `signal`, having last
/// seen `generation`.
pub open spec fn stays_open(open: bool, generation: u64, signal: u64) -> bool {
    open && generation == signal
}

pub struct Popup {
    pub open: bool,
    pub outside_pressed: bool,
    /// The dismissal signal this menu last saw.
    pub generation: u64,
    pub typeahead: TypeAhead,
}

impl Popup {
    pub fn new() -> (popup: Self)
        ensures
            !popup.open,
            !popup.outside_pressed,
            popup.generation == 0,
            popup.typeahead.typed@.len() == 0,
    {
        Popup { open: false, outside_pressed: false, generation: 0, typeahead: TypeAhead::new() }
    }

    /// Open the menu; opening a closed menu forgets earlier typing.
    pub fn show(&mut self)
        ensures
            final(self).open,
            final(self).outside_pressed == old(self).outside_pressed,
            final(self).generation == old(self).generation,
            !old(self).open ==> final(self).typeahead.typed@.len() == 0,
            old(self).open ==> final(self).typeahead.typed@ == old(self).typeahead.typed@,
    {
        if !self.open {
            self.typeahead.clear();
        }
        self.open = true;
    }

    /// Close this menu.
    pub fn close(&mut self)
        ensures
            !final(self).open,
            !final(self).outside_pressed,
            final(self).generation == old(self).generation,
            final(self).typeahead.typed@.len() == 0,
    {
        self.open = false;
        self.outside_pressed = false;
        self.typeahead.clear();
    }

    /// Close the whole cascade: returns the new shared signal, and closes this menu.
    pub fn dismiss_tree(&mut self, signal: u64) -> (next: u64)
        ensures
            next == bumped(signal),
            !final(self).open,
            !final(self).outside_pressed,
            final(self).generation == old(self).generation,
            final(self).typeahead.typed@.len() == 0,
    {
        self.close();
        signal.wrapping_add(1)
    }

    /// Follow the shared signal: a new signal means the cascade was dismissed.
    pub fn synchronize(&mut self, signal: u64)
        ensures
            final(self).generation == signal,
            final(self).open == stays_open(old(self).open, old(self).generation, signal),
            old(self).generation != signal ==> !final(self).outside_pressed,
            old(self).generation == signal ==> final(self).outside_pressed == old(self).outside_pressed,
            final(self).typeahead.typed@ == old(self).typeahead.typed@,
    {
        if self.generation != signal {
            self.open = false;
            self.outside_pressed = false;
            self.generation = signal;
        }
    }

    /// Handle an event while the menu is open. A `Close` or `DismissTree`
    /// result has already closed this menu; for `DismissTree` the caller
    /// bumps the shared signal.
    pub fn handle(&mut self, event: PopupEvent, outside: bool, over_ancestor: bool, nested: bool) -> (action: PopupAction)
        ensures
            (final(self).outside_pressed, action)
                == popup_outcome(old(self).outside_pressed, event, outside, over_ancestor, nested),
            final(self).generation == old(self).generation,
            (action is Close || action is DismissTree) ==> !final(self).open && final(self).typeahead.typed@.len() == 0,
            !(action is Close || action is DismissTree) ==> final(self).open == old(self).open
                && final(self).typeahead.typed@ == old(self).typeahead.typed@,
    {
        let mouse = match event {
            PopupEvent::WheelScrolled | PopupEvent::Pressed { .. } | PopupEvent::Released { .. }
            | PopupEvent::CursorLeft | PopupEvent::PointerOther => true,
            _ => false,
        };
        if mouse && over_ancestor {
            match event {
                PopupEvent::Pressed { .. } | PopupEvent::Released { .. } => self.outside_pressed = false,
                _ => {},
            }
            return PopupAction::Skip;
        }
        match event {
            PopupEvent::ArrowLeft => {
                if nested {
                    self.close();
                    PopupAction::Close
                } else {
                    PopupAction::Forward
                }
            },
            PopupEvent::Escape => {
                self.close();
                PopupAction::Close
            },
            PopupEvent::WindowUnfocused => {
                self.close();
                PopupAction::DismissTree
            },
            PopupEvent::WheelScrolled => {
                if outside {
                    self.close();
                    PopupAction::DismissTree
                } else {
                    PopupAction::Forward
                }
            },
            PopupEvent::Pressed { primary } => {
                if primary {
                    self.outside_pressed = outside;
                }
                PopupAction::Forward
            },
            PopupEvent::Released { primary } => {
                if !primary {
                    PopupAction::Forward
                } else if self.outside_pressed && outside {
                    self.close();
                    PopupAction::DismissTree
                } else {
                    self.outside_pressed = false;
                    PopupAction::Forward
                }
            },
            PopupEvent::CursorLeft => {
                self.outside_pressed = false;
                PopupAction::Forward
            },
            _ => PopupAction::Forward,
        }
    }
}

/// An open menu keeps from other widgets every event it handles, except
/// window events, which everything sees.
pub open spec fn captured(event: PopupEvent, action: PopupAction) -> bool {
    action != PopupAction::Skip && !(event is WindowUnfocused || event is WindowOther)
}

/// Whether an open menu keeps an event from other widgets.
pub fn captures(event: PopupEvent, action: PopupAction) -> (capture: bool)
    ensures
        capture == captured(event, action),
{
    match action {
        PopupAction::Skip => false,
        _ => match event {
            PopupEvent::WindowUnfocused | PopupEvent::WindowOther => false,
            _ => true,
        },
    }
}

/// Whether a closed menu whose panel is still on screen (closing) keeps an
/// event from other widgets: pointer and touch input over that panel.
pub fn closed_captures(event: PopupEvent, over_panel: bool) -> (capture: bool)
    ensures
        capture == ((is_mouse(event) || event is Touch) && over_panel),
{
    let pointer = match event {
        PopupEvent::WheelScrolled | PopupEvent::Pressed { .. } | PopupEvent::Released { .. }
        | PopupEvent::CursorLeft | PopupEvent::PointerOther | PopupEvent::Touch => true,
        _ => false,
    };
    pointer && over_panel
}

/// The filter accepted the `i`-th message, having refused every earlier one.
pub open spec fn first_accepted<M, F: Fn(&M) -> bool>(filter: F, messages: Seq<M>, i: int) -> bool {
    &&& 0 <= i < messages.len()
    &&& call_ensures(filter, (&messages[i],), true)
    &&& forall|j: int| 0 <= j < i ==> call_ensures(filter, (&messages[j],), false)
}

/// Whether the messages a menu's content produced close the cascade. Without
/// a filter (`filtered` false) any message does. With one, the first message
/// that `filter` accepts does; it is asked about the messages in order until then.
pub fn closes_on_messages<M, F: Fn(&M) -> bool>(messages: &Vec<M>, filtered: bool, filter: &F) -> (closes: bool)
    requires
        filtered ==> forall|m: &M| call_requires(*filter, (m,)),
    ensures
        !filtered ==> closes == (messages@.len() > 0),
        filtered && closes ==> exists|i: int| first_accepted(*filter, messages@, i),
        filtered && !closes ==> forall|i: int| 0 <= i < messages@.len() ==> call_ensures(*filter, (&messages@[i],), false),
{
    if !filtered {
        return messages.len() > 0;
    }
    let mut i: usize = 0;
    while i < messages.len()
        invariant
            0 <= i <= messages@.len(),
            forall|m: &M| call_requires(*filter, (m,)),
            forall|j: int| 0 <= j < i ==> call_ensures(*filter, (&messages@[j],), false),
        decreases messages@.len() - i,
    {
        let accepted = filter(&messages[i]);
        if accepted {
            assert(first_accepted(*filter, messages@, i as int));
            return true;
        }
        i = i + 1;
    }
    false
}

/// A click that both starts and ends off the menu dismisses the whole cascade.
pub proof fn law_outside_click_dismisses_tree(pressed: bool, nested: bool)
    ensures
        ({
            let (p, a) = popup_outcome(pressed, PopupEvent::Pressed { primary: true }, true, false, nested);
            let (q, b) = popup_outcome(p, PopupEvent::Released { primary: true }, true, false, nested);
            a == PopupAction::Forward && b == PopupAction::DismissTree && !q
        }),
{
}

/// A press on the menu that is released off it dismisses nothing.
pub proof fn law_press_inside_keeps_menu(pressed: bool, nested: bool, released_outside: bool)
    ensures
        ({
            let (p, _) = popup_outcome(pressed, PopupEvent::Pressed { primary: true }, false, false, nested);
            popup_outcome(p, PopupEvent::Released { primary: true }, released_outside, false, nested).1 == PopupAction::Forward
        }),
{
}

/// Escape closes only the innermost menu, never the whole cascade, and
/// does not reach widgets underneath; losing the window focus dismisses the
/// cascade and is still seen by everything else; a wheel off the menu
/// dismisses the cascade and is kept.
pub proof fn law_escape_closes_one_level(pressed: bool, outside: bool, over_ancestor: bool, nested: bool)
    ensures
        popup_outcome(pressed, PopupEvent::Escape, outside, over_ancestor, nested) == (false, PopupAction::Close),
        captured(PopupEvent::Escape, PopupAction::Close),
        popup_outcome(pressed, PopupEvent::WindowUnfocused, outside, over_ancestor, nested) == (false, PopupAction::DismissTree),
        !captured(PopupEvent::WindowUnfocused, PopupAction::DismissTree),
        !over_ancestor ==> popup_outcome(pressed, PopupEvent::WheelScrolled, true, over_ancestor, nested) == (false, PopupAction::DismissTree),
        captured(PopupEvent::WheelScrolled, PopupAction::DismissTree),
{
}

/// After a tree dismissal every menu that saw the previous signal closes when
/// it next synchronizes.
pub proof fn law_dismissal_reaches_the_cascade(open: bool, signal: u64)
    ensures
        !stays_open(open, signal, bumped(signal)),
{
}

} // verus!
