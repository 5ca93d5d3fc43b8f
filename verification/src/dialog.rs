//! Modal dialog decisions: which layer of a stack is on top, when a dialog
//! is dismissed, and how a stack hands input between its layers.
use vstd::prelude::*;

verus! {

/// The topmost visible layer of a stack (layers are bottom to top).
pub fn top_visible(visible: &Vec<bool>) -> (top: Option<usize>)
    ensures
        top matches Some(i) ==> i < visible@.len() && visible@[i as int]
            && forall|j: int| i < j < visible@.len() ==> !visible@[j],
        top is None ==> forall|j: int| 0 <= j < visible@.len() ==> !visible@[j],
{
    let mut i = visible.len();
    while i > 0
        invariant
            0 <= i <= visible@.len(),
            forall|j: int| i <= j < visible@.len() ==> !visible@[j],
        decreases i,
    {
        if visible[i - 1] {
            return Some(i - 1);
        }
        i = i - 1;
    }
    None
}

/// The events an open dialog reacts to when deciding dismissal.
#[derive(Clone, Copy, Debug, PartialEq, Eq, Structural)]
pub enum DialogEvent {
    Escape,
    LeftPressed,
    LeftReleased,
    WindowUnfocused,
    Other,
}

/// How an open dialog may be dismissed.
#[derive(Clone, Copy, Debug, PartialEq, Eq, Structural)]
pub struct DismissRules {
    /// Escape dismisses.
    pub escape: bool,
    /// A click outside the dialog dismisses.
    pub outside: bool,
    /// The dialog has a dismiss message.
    pub has_dismiss: bool,
}

/// Whether the current left press began outside the dialog.
#[derive(Clone, Copy, Debug, PartialEq, Eq, Structural)]
pub struct OutsidePress {
    pub pressed: bool,
}

pub open spec fn dismissed_by(press: OutsidePress, event: DialogEvent, outside: bool, rules: DismissRules) -> bool {
    match event {
        DialogEvent::Escape => rules.escape && rules.has_dismiss,
        DialogEvent::LeftReleased => press.pressed && outside && rules.outside && rules.has_dismiss,
        _ => false,
    }
}

pub open spec fn press_after(press: OutsidePress, event: DialogEvent, outside: bool) -> OutsidePress {
    match event {
        DialogEvent::LeftPressed => OutsidePress { pressed: outside },
        DialogEvent::LeftReleased | DialogEvent::WindowUnfocused => OutsidePress { pressed: false },
        _ => press,
    }
}

impl OutsidePress {
    pub fn new() -> (press: Self)
        ensures
            !press.pressed,
    {
        OutsidePress { pressed: false }
    }

    /// Handle an event while the dialog is open; `outside` tells whether the
    /// pointer is outside the dialog. Returns whether to send the dismiss
    /// message. Escape dismisses at once; a click dismisses only when both
    /// its press and its release are outside.
    pub fn handle(&mut self, event: DialogEvent, outside: bool, rules: DismissRules) -> (dismiss: bool)
        ensures
            dismiss == dismissed_by(*old(self), event, outside, rules),
            *final(self) == press_after(*old(self), event, outside),
    {
        match event {
            DialogEvent::Escape => rules.escape && rules.has_dismiss,
            DialogEvent::LeftPressed => {
                self.pressed = outside;
                false
            },
            DialogEvent::LeftReleased => {
                let dismiss = self.pressed && outside && rules.outside && rules.has_dismiss;
                self.pressed = false;
                dismiss
            },
            DialogEvent::WindowUnfocused => {
                self.pressed = false;
                false
            },
            DialogEvent::Other => false,
        }
    }
}

/// A press inside the dialog never dismisses it on release, wherever the
/// pointer is then.
pub proof fn law_inside_press_never_dismisses(press: OutsidePress, released_outside: bool, rules: DismissRules)
    ensures
        !dismissed_by(press_after(press, DialogEvent::LeftPressed, false), DialogEvent::LeftReleased, released_outside, rules),
{
}

/// A click outside a dialog that allows it dismisses it.
pub proof fn law_outside_click_dismisses(press: OutsidePress, rules: DismissRules)
    requires
        rules.outside,
        rules.has_dismiss,
    ensures
        dismissed_by(press_after(press, DialogEvent::LeftPressed, true), DialogEvent::LeftReleased, true, rules),
{
}

/// Per-layer bookkeeping of a dialog stack, refreshed when the application
/// opens or closes a layer.
#[derive(Clone, Copy, Debug, PartialEq, Eq, Structural)]
pub struct LayerFlags {
    pub was_open: bool,
    /// Focus the initial control on the next update.
    pub focus_pending: bool,
    /// Cancel the layer's pointer and key gestures on the next update.
    pub cancel: bool,
    pub outside_pressed: bool,
}

impl LayerFlags {
    pub fn new(open: bool) -> (flags: Self)
        ensures
            flags == (LayerFlags { was_open: open, focus_pending: open, cancel: false, outside_pressed: false }),
    {
        LayerFlags { was_open: open, focus_pending: open, cancel: false, outside_pressed: false }
    }

    /// Follow the application's open flag. Returns whether the layer just
    /// opened (its remembered focus is then forgotten).
    pub fn sync(&mut self, open: bool) -> (opened: bool)
        ensures
            old(self).was_open != open ==> *final(self) == (LayerFlags {
                was_open: open,
                focus_pending: open,
                cancel: !open,
                outside_pressed: false,
            }),
            old(self).was_open == open ==> *final(self) == *old(self),
            opened == (old(self).was_open != open && open),
    {
        if self.was_open != open {
            self.was_open = open;
            self.focus_pending = open;
            self.cancel = !open;
            self.outside_pressed = false;
            open
        } else {
            false
        }
    }
}

/// What a stack does to its background on an update.
#[derive(Clone, Copy, Debug, PartialEq, Eq, Structural)]
pub struct BackgroundActions {
    /// Remember the background's focus and cancel its gestures.
    pub suspend: bool,
    /// Give the background its focus back.
    pub resume: bool,
}

/// The stack's background state across updates.
#[derive(Clone, Copy, Debug, PartialEq, Eq, Structural)]
pub struct Background {
    pub covered: bool,
    pub resume_pending: bool,
    pub inactive: bool,
}

impl Background {
    pub fn new() -> (background: Self)
        ensures
            background == (Background { covered: false, resume_pending: false, inactive: false }),
    {
        Background { covered: false, resume_pending: false, inactive: false }
    }

    /// One update: `covered` tells whether any layer is visible, `focus` is the
    /// window focus change seen by the stack, and `outer_covered` whether the
    /// stack itself is covered by an outer host. The background is suspended
    /// when it becomes covered and resumed once uncovered while the window is
    /// active and nothing outside covers it.
    pub fn step(&mut self, covered: bool, focus: Option<bool>, outer_covered: bool) -> (actions: BackgroundActions)
        ensures
            final(self).inactive == match focus {
                Some(f) => !f,
                None => old(self).inactive,
            },
            actions.suspend == (covered && !old(self).covered),
            ({
                let pending = if !covered && old(self).covered { true } else { old(self).resume_pending };
                &&& actions.resume == (!covered && pending && !final(self).inactive && !outer_covered)
                &&& final(self).resume_pending == (pending && !actions.resume)
            }),
            final(self).covered == covered,
            actions.suspend ==> !actions.resume,
    {
        if let Some(f) = focus {
            self.inactive = !f;
        }
        let suspend = covered && !self.covered;
        if !covered && self.covered {
            self.resume_pending = true;
        }
        let resume = !covered && self.resume_pending && !self.inactive && !outer_covered;
        if resume {
            self.resume_pending = false;
        }
        self.covered = covered;
        BackgroundActions { suspend, resume }
    }
}

/// Which layer of a stack holds input, and which one still waits to get its
/// focus back.
#[derive(Clone, Copy, Debug, PartialEq, Eq, Structural)]
pub struct ActiveLayer {
    pub active: Option<usize>,
    pub resume_layer: Option<usize>,
}

/// What a stack does to its layers on an update.
#[derive(Clone, Copy, Debug, PartialEq, Eq, Structural)]
pub struct LayerSwitch {
    /// The layer that lost the top: remember its focus and cancel its gestures.
    pub suspend: Option<usize>,
    /// Give the top layer its focus back.
    pub resume: bool,
}

pub open spec fn switched(a: ActiveLayer, top: usize, inactive: bool, outer_covered: bool) -> (ActiveLayer, LayerSwitch) {
    let (suspend, pending) = if a.active != Some(top) { (a.active, Some(top)) } else { (None, a.resume_layer) };
    let resume = pending == Some(top) && !inactive && !outer_covered;
    (
        ActiveLayer { active: Some(top), resume_layer: if resume { None } else { pending } },
        LayerSwitch { suspend, resume },
    )
}

impl ActiveLayer {
    pub fn new() -> (layer: Self)
        ensures
            layer == (ActiveLayer { active: None, resume_layer: None }),
    {
        ActiveLayer { active: None, resume_layer: None }
    }

    /// The stack was uncovered: no layer holds input any more.
    pub fn reset(&mut self)
        ensures
            *final(self) == (ActiveLayer { active: None, resume_layer: None }),
    {
        self.active = None;
        self.resume_layer = None;
    }

    /// One update with `top` the topmost visible layer. When the top changes,
    /// the previous top is suspended and the new one waits to be resumed,
    /// which happens once the window is active and nothing outside covers
    /// the stack.
    pub fn switch(&mut self, top: usize, inactive: bool, outer_covered: bool) -> (actions: LayerSwitch)
        ensures
            (*final(self), actions) == switched(*old(self), top, inactive, outer_covered),
    {
        let mut suspend = None;
        if self.active != Some(top) {
            suspend = self.active;
            self.resume_layer = Some(top);
            self.active = Some(top);
        }
        let resume = self.resume_layer == Some(top) && !inactive && !outer_covered;
        if resume {
            self.resume_layer = None;
        }
        LayerSwitch { suspend, resume }
    }
}

/// A layer that comes to the top gets its focus back exactly once: at once
/// when the window is active, and not again while it stays on top.
pub proof fn law_new_top_resumes_once(a: ActiveLayer, top: usize)
    requires
        a.active != Some(top),
    ensures
        ({
            let (b, first) = switched(a, top, false, false);
            let (_, second) = switched(b, top, false, false);
            first.suspend == a.active && first.resume && second.suspend is None && !second.resume
        }),
{
}

/// A layer that comes to the top while the window is inactive is resumed on
/// the first update after the window is active again.
pub proof fn law_resume_waits_for_activity(a: ActiveLayer, top: usize)
    requires
        a.active != Some(top),
    ensures
        ({
            let (b, first) = switched(a, top, true, false);
            let (_, second) = switched(b, top, false, false);
            !first.resume && second.resume
        }),
{
}

} // verus!
