//! The press gesture shared by buttons and selection controls: pointer
//! clicks and Enter/Space activation.
use vstd::prelude::*;

verus! {

/// Named keys as the press gesture sees them.
#[derive(Clone, Copy, Debug, PartialEq, Eq, Structural)]
pub enum NamedKey {
    Enter,
    Space,
    Other,
}

/// The input a pressable control reacts to.
#[derive(Clone, Copy, Debug, PartialEq, Eq, Structural)]
pub enum PressEvent {
    KeyPressed { key: NamedKey, repeat: bool },
    KeyReleased { key: NamedKey },
    LeftPressed,
    LeftReleased,
    WindowUnfocused,
    WindowFocused,
    CursorLeft,
    /// Any other pointer input.
    PointerOther,
    Other,
}

/// Press state of a button.
#[derive(Clone, Copy, Debug, PartialEq, Eq, Structural)]
pub struct Press {
    pub pressed: bool,
    pub keyboard_pressed: bool,
    /// The activation key held down, if any.
    pub key: Option<NamedKey>,
    pub focused: bool,
}

pub open spec fn is_activation(key: NamedKey) -> bool {
    key is Enter || key is Space
}

/// One event of a button. A button without an action (`enabled` false) ignores
/// input, unless it is a chip whose content is interactive (`tracking`): such a
/// chip still follows key releases and window changes but never activates.
pub open spec fn button_step(p: Press, event: PressEvent, over: bool, enabled: bool, tracking: bool) -> (Press, bool) {
    if !enabled && !tracking {
        (p, false)
    } else {
        let p = if p.keyboard_pressed && p.key is None { Press { pressed: false, keyboard_pressed: false, ..p } } else { p };
        match event {
            PressEvent::KeyPressed { key, repeat } => if p.focused && enabled && is_activation(key) {
                if repeat { (p, false) } else { (Press { keyboard_pressed: true, key: Some(key), pressed: true, ..p }, false) }
            } else {
                (p, false)
            },
            PressEvent::KeyReleased { key } => if p.key == Some(key) {
                (Press { key: None, keyboard_pressed: false, pressed: false, ..p }, p.focused && enabled)
            } else {
                (p, false)
            },
            PressEvent::LeftPressed => if over && enabled {
                (Press { pressed: true, focused: true, ..p }, false)
            } else {
                (p, false)
            },
            PressEvent::LeftReleased => if p.pressed && !p.keyboard_pressed {
                (Press { pressed: false, ..p }, over)
            } else {
                (p, false)
            },
            PressEvent::WindowUnfocused | PressEvent::CursorLeft => (Press { pressed: false, key: None, ..p }, false),
            _ => (p, false),
        }
    }
}

/// A press state with a keyboard press whose key is gone settled back to rest.
pub open spec fn settled(p: Press) -> Press {
    if p.keyboard_pressed && p.key is None { Press { pressed: false, keyboard_pressed: false, ..p } } else { p }
}

/// Whether a button keeps an event from other widgets: an activation key
/// pressed while it is focused and has an action, the release of the key it
/// holds, a left press over it while it has an action, and the left release
/// of a pointer press it holds.
pub open spec fn button_capture(p: Press, event: PressEvent, over: bool, enabled: bool, tracking: bool) -> bool {
    if !enabled && !tracking {
        false
    } else {
        let p = settled(p);
        match event {
            PressEvent::KeyPressed { key, .. } => p.focused && enabled && is_activation(key),
            PressEvent::KeyReleased { key } => p.key == Some(key),
            PressEvent::LeftPressed => over && enabled,
            PressEvent::LeftReleased => p.pressed && !p.keyboard_pressed,
            _ => false,
        }
    }
}

/// The release that a chip without an action cannot handle: a pointer press
/// it still holds, released over it.
pub open spec fn unhandled_release(p: Press, event: PressEvent, over: bool, enabled: bool, tracking: bool) -> bool {
    &&& event is LeftReleased
    &&& !enabled
    &&& tracking
    &&& over
    &&& p.pressed
    &&& !p.keyboard_pressed
}

impl Press {
    pub fn new() -> (press: Self)
        ensures
            press == (Press { pressed: false, keyboard_pressed: false, key: None, focused: false }),
    {
        Press { pressed: false, keyboard_pressed: false, key: None, focused: false }
    }

    /// Content inside the button handled the event: the button's own press ends.
    pub fn release_to_child(&mut self)
        ensures
            *final(self) == (Press { pressed: false, ..*old(self) }),
    {
        self.pressed = false;
    }

    /// Whether the button keeps `event` from other widgets, judged on its
    /// state before the event.
    pub fn captures(&self, event: PressEvent, over: bool, enabled: bool, tracking: bool) -> (capture: bool)
        ensures
            capture == button_capture(*self, event, over, enabled, tracking),
    {
        if !enabled && !tracking {
            return false;
        }
        let key_down = self.keyboard_pressed && self.key.is_some();
        let pressed = if self.keyboard_pressed && self.key.is_none() { false } else { self.pressed };
        match event {
            PressEvent::KeyPressed { key, .. } => self.focused && enabled && (key == NamedKey::Enter || key == NamedKey::Space),
            PressEvent::KeyReleased { key } => self.key == Some(key),
            PressEvent::LeftPressed => over && enabled,
            PressEvent::LeftReleased => pressed && !key_down,
            _ => false,
        }
    }

    /// Handle one event for a button; `enabled` tells that it has an action,
    /// `tracking` that it is a chip with interactive content, and `over` that
    /// the pointer is over the button itself. Returns whether it activates.
    pub fn button_event(&mut self, event: PressEvent, over: bool, enabled: bool, tracking: bool) -> (activate: bool)
        requires
            !unhandled_release(*old(self), event, over, enabled, tracking),
        ensures
            (*final(self), activate) == button_step(*old(self), event, over, enabled, tracking),
    {
        if !enabled && !tracking {
            return false;
        }
        if self.keyboard_pressed && self.key.is_none() {
            self.pressed = false;
            self.keyboard_pressed = false;
        }
        match event {
            PressEvent::KeyPressed { key, repeat } => {
                if self.focused && enabled && (key == NamedKey::Enter || key == NamedKey::Space) && !repeat {
                    self.keyboard_pressed = true;
                    self.key = Some(key);
                    self.pressed = true;
                }
                false
            },
            PressEvent::KeyReleased { key } => {
                if self.key == Some(key) {
                    self.key = None;
                    self.keyboard_pressed = false;
                    self.pressed = false;
                    self.focused && enabled
                } else {
                    false
                }
            },
            PressEvent::LeftPressed => {
                if over && enabled {
                    self.pressed = true;
                    self.focused = true;
                }
                false
            },
            PressEvent::LeftReleased => {
                if self.pressed && !self.keyboard_pressed {
                    self.pressed = false;
                    over
                } else {
                    false
                }
            },
            PressEvent::WindowUnfocused | PressEvent::CursorLeft => {
                self.pressed = false;
                self.key = None;
                false
            },
            _ => false,
        }
    }
}

/// A pointer click activates a button only when pressed and released over it.
pub proof fn law_click_needs_press_and_release_over(p: Press, over_press: bool, over_release: bool, enabled: bool, tracking: bool)
    requires
        !p.pressed || p.keyboard_pressed,
    ensures
        ({
            let (q, a) = button_step(p, PressEvent::LeftPressed, over_press, enabled, tracking);
            let (_, b) = button_step(q, PressEvent::LeftReleased, over_release, enabled, tracking);
            !a && (b <==> over_press && enabled && over_release && !(p.keyboard_pressed && p.key is Some))
        }),
{
}

/// Holding an activation key activates once, on its release; repeats do not
/// start another press.
pub proof fn law_key_activates_on_release(p: Press, key: NamedKey, tracking: bool)
    requires
        p.focused,
        is_activation(key),
        p.key is None,
    ensures
        ({
            let (q, a) = button_step(p, PressEvent::KeyPressed { key, repeat: false }, false, true, tracking);
            let (r, b) = button_step(q, PressEvent::KeyPressed { key, repeat: true }, false, true, tracking);
            let (s, c) = button_step(r, PressEvent::KeyReleased { key }, false, true, tracking);
            !a && !b && c && q.pressed && r == q && !s.pressed && s.key is None
        }),
{
}

/// Omitting a button's action disables it: nothing activates it.
pub proof fn law_no_action_never_activates(p: Press, event: PressEvent, over: bool, tracking: bool)
    requires
        !unhandled_release(p, event, over, false, tracking),
    ensures
        !button_step(p, event, over, false, tracking).1,
{
}

/// Press state of a checkbox, radio button or switch.
#[derive(Clone, Copy, Debug, PartialEq, Eq, Structural)]
pub struct Toggle {
    pub press: Press,
    /// Pointer input reached the control since the window last lost focus.
    pub window_active: bool,
}

/// What a selection control sends when it toggles.
#[derive(Clone, Copy, Debug, PartialEq, Eq, Structural)]
pub struct ToggleRules {
    pub checked: bool,
    /// Radio buttons stay checked when activated again.
    pub radio: bool,
}

/// One event of a selection control. A control without an action
/// (`enabled` false) ignores input altogether.
pub open spec fn toggle_step(t: Toggle, event: PressEvent, pointer_over: bool, rules: ToggleRules, enabled: bool) -> (Toggle, Option<bool>) {
    if enabled { active_toggle_step(t, event, pointer_over, rules) } else { (t, None) }
}

/// One event of a selection control that has an action.
pub open spec fn active_toggle_step(t: Toggle, event: PressEvent, pointer_over: bool, rules: ToggleRules) -> (Toggle, Option<bool>) {
    let p = if t.press.keyboard_pressed && t.press.key is None {
        Press { pressed: false, keyboard_pressed: false, ..t.press }
    } else {
        t.press
    };
    let (p, active) = match event {
        PressEvent::WindowUnfocused => (Press { key: None, pressed: false, ..p }, false),
        PressEvent::WindowFocused => (p, true),
        PressEvent::CursorLeft => (Press { pressed: false, ..p }, t.window_active),
        PressEvent::LeftPressed | PressEvent::LeftReleased | PressEvent::PointerOther => (p, true),
        _ => (p, t.window_active),
    };
    let over = active && pointer_over && !(event is CursorLeft);
    let sends = !(rules.radio && rules.checked);
    match event {
        PressEvent::KeyPressed { key, repeat } => if p.focused && is_activation(key) {
            if repeat {
                (Toggle { press: p, window_active: active }, None)
            } else {
                (Toggle { press: Press { keyboard_pressed: true, key: Some(key), pressed: true, ..p }, window_active: active }, None)
            }
        } else {
            (Toggle { press: p, window_active: active }, None)
        },
        PressEvent::KeyReleased { key } => if p.key == Some(key) {
            (
                Toggle { press: Press { key: None, keyboard_pressed: false, pressed: false, ..p }, window_active: active },
                if p.focused && sends { Some(!rules.checked) } else { None },
            )
        } else {
            (Toggle { press: p, window_active: active }, None)
        },
        PressEvent::LeftPressed => if over {
            (Toggle { press: Press { focused: true, pressed: true, ..p }, window_active: active }, None)
        } else {
            (Toggle { press: p, window_active: active }, None)
        },
        PressEvent::LeftReleased => if p.pressed && !p.keyboard_pressed {
            (
                Toggle { press: Press { pressed: false, ..p }, window_active: active },
                if over && sends { Some(!rules.checked) } else { None },
            )
        } else {
            (Toggle { press: p, window_active: active }, None)
        },
        _ => (Toggle { press: p, window_active: active }, None),
    }
}

/// Whether a selection control keeps an event from other widgets: an
/// activation key pressed while it is focused, the release of the key it
/// holds, a left press over it, and the left release of a pointer press it
/// holds. A control without an action keeps nothing.
pub open spec fn toggle_capture(t: Toggle, event: PressEvent, pointer_over: bool, enabled: bool) -> bool {
    if !enabled {
        false
    } else {
        let p = settled(t.press);
        let active = match event {
            PressEvent::WindowUnfocused => false,
            PressEvent::WindowFocused | PressEvent::LeftPressed | PressEvent::LeftReleased | PressEvent::PointerOther => true,
            _ => t.window_active,
        };
        let over = active && pointer_over && !(event is CursorLeft);
        match event {
            PressEvent::KeyPressed { key, .. } => p.focused && is_activation(key),
            PressEvent::KeyReleased { key } => p.key == Some(key),
            PressEvent::LeftPressed => over,
            PressEvent::LeftReleased => p.pressed && !p.keyboard_pressed,
            _ => false,
        }
    }
}

impl Toggle {
    pub fn new() -> (toggle: Self)
        ensures
            toggle == (Toggle { press: Press { pressed: false, keyboard_pressed: false, key: None, focused: false }, window_active: true }),
    {
        Toggle { press: Press::new(), window_active: true }
    }

    /// Whether the control keeps `event` from other widgets, judged on its
    /// state before the event.
    pub fn captures(&self, event: PressEvent, pointer_over: bool, enabled: bool) -> (capture: bool)
        ensures
            capture == toggle_capture(*self, event, pointer_over, enabled),
    {
        if !enabled {
            return false;
        }
        let key_down = self.press.keyboard_pressed && self.press.key.is_some();
        let pressed = if self.press.keyboard_pressed && self.press.key.is_none() { false } else { self.press.pressed };
        match event {
            PressEvent::KeyPressed { key, .. } => self.press.focused && (key == NamedKey::Enter || key == NamedKey::Space),
            PressEvent::KeyReleased { key } => self.press.key == Some(key),
            PressEvent::LeftPressed => pointer_over,
            PressEvent::LeftReleased => pressed && !key_down,
            _ => false,
        }
    }

    /// Handle one event of a selection control; `pointer_over` tells whether
    /// the cursor is over it and `enabled` that it has an action. Returns the
    /// new checked value to send.
    pub fn event(&mut self, event: PressEvent, pointer_over: bool, rules: ToggleRules, enabled: bool) -> (sent: Option<bool>)
        ensures
            (*final(self), sent) == toggle_step(*old(self), event, pointer_over, rules, enabled),
    {
        if !enabled {
            return None;
        }
        if self.press.keyboard_pressed && self.press.key.is_none() {
            self.press.pressed = false;
            self.press.keyboard_pressed = false;
        }
        match event {
            PressEvent::WindowUnfocused => {
                self.press.key = None;
                self.window_active = false;
                self.press.pressed = false;
            },
            PressEvent::WindowFocused => self.window_active = true,
            PressEvent::CursorLeft => self.press.pressed = false,
            PressEvent::LeftPressed | PressEvent::LeftReleased | PressEvent::PointerOther => self.window_active = true,
            _ => {},
        }
        let over = self.window_active && pointer_over && event != PressEvent::CursorLeft;
        let sends = !(rules.radio && rules.checked);
        match event {
            PressEvent::KeyPressed { key, repeat } => {
                if self.press.focused && (key == NamedKey::Enter || key == NamedKey::Space) && !repeat {
                    self.press.keyboard_pressed = true;
                    self.press.key = Some(key);
                    self.press.pressed = true;
                }
                None
            },
            PressEvent::KeyReleased { key } => {
                if self.press.key == Some(key) {
                    self.press.key = None;
                    self.press.keyboard_pressed = false;
                    self.press.pressed = false;
                    if self.press.focused && sends { Some(!rules.checked) } else { None }
                } else {
                    None
                }
            },
            PressEvent::LeftPressed => {
                if over {
                    self.press.focused = true;
                    self.press.pressed = true;
                }
                None
            },
            PressEvent::LeftReleased => {
                if self.press.pressed && !self.press.keyboard_pressed {
                    self.press.pressed = false;
                    if over && sends { Some(!rules.checked) } else { None }
                } else {
                    None
                }
            },
            _ => None,
        }
    }
}

/// A checked radio button sends nothing when activated again.
pub proof fn law_checked_radio_stays(t: Toggle, event: PressEvent, pointer_over: bool, enabled: bool)
    ensures
        toggle_step(t, event, pointer_over, ToggleRules { checked: true, radio: true }, enabled).1 is None,
{
}

/// Whatever a selection control sends is the opposite of its current value.
pub proof fn law_toggle_sends_opposite(t: Toggle, event: PressEvent, pointer_over: bool, rules: ToggleRules, enabled: bool)
    ensures
        toggle_step(t, event, pointer_over, rules, enabled).1 matches Some(v) ==> v == !rules.checked,
{
}

/// Omitting a selection control's action disables it: it sends nothing and
/// its state does not change.
pub proof fn law_no_action_toggle_is_inert(t: Toggle, event: PressEvent, pointer_over: bool, rules: ToggleRules)
    ensures
        toggle_step(t, event, pointer_over, rules, false) == (t, None::<bool>),
{
}

/// Every button activation and every value a selection control sends comes
/// with the event kept from other widgets.
pub proof fn law_activation_is_captured(p: Press, t: Toggle, event: PressEvent, over: bool, enabled: bool, tracking: bool, rules: ToggleRules)
    ensures
        button_step(p, event, over, enabled, tracking).1 ==> button_capture(p, event, over, enabled, tracking),
        toggle_step(t, event, over, rules, enabled).1 is Some ==> toggle_capture(t, event, over, enabled),
{
}

/// A focused selection control with an action, pressed with Enter or Space,
/// holds that key; releasing it sends the opposite of the current value, unless
/// the control is a checked radio button. A repeat of the held key changes
/// nothing.
pub proof fn law_toggle_key_press_and_release(t: Toggle, key: NamedKey, over: bool, rules: ToggleRules)
    requires
        t.press.focused,
        is_activation(key),
    ensures
        ({
            let (a, first) = toggle_step(t, PressEvent::KeyPressed { key, repeat: false }, over, rules, true);
            let (b, repeat) = toggle_step(a, PressEvent::KeyPressed { key, repeat: true }, over, rules, true);
            let (c, second) = toggle_step(b, PressEvent::KeyReleased { key }, over, rules, true);
            &&& first is None && repeat is None
            &&& a.press.key == Some(key) && a.press.pressed && a.press.keyboard_pressed
            &&& b == a
            &&& second == if rules.radio && rules.checked { None } else { Some(!rules.checked) }
            &&& c.press.key is None && !c.press.pressed
        }),
{
}

} // verus!
