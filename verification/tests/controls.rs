use iced_m3::{
    CarouselKey, CarouselResponse, key_response, selected_index, wheel_step,
    ActiveLayer, LayerSwitch, Activity, Background, BackgroundActions, ContextAction, ContextEvent, ContextPress, Context, DialogEvent, DismissRules,
    GroupKey, GroupMemory, InitialFocus, LayerFlags, Popup, PopupAction, PopupEvent, MenuKey, MenuRole, NamedKey, OutsidePress, Placement, Press,
    PressEvent, SelectOption, Toggle, ToggleRules, TypeAhead, WindowEvent, accepts_typed, covered_context,
    covered_event, cycle, group_target, interaction, is_covered, keyboard_open, menu_step, normalize_label,
    restore_index, top_visible, window_focus,
};

#[test]
fn tab_cycles_and_wraps() {
    assert_eq!(cycle(None, 3, false), Some(0));
    assert_eq!(cycle(None, 3, true), Some(2));
    assert_eq!(cycle(Some(2), 3, false), Some(0));
    assert_eq!(cycle(Some(0), 3, true), Some(2));
    assert_eq!(cycle(Some(1), 3, false), Some(2));
    assert_eq!(cycle(None, 0, false), None);
    for i in 0..5 {
        assert_eq!(cycle(cycle(Some(i), 5, false), 5, true), Some(i));
    }
}

#[test]
fn arrows_move_within_a_group() {
    assert_eq!(group_target(0, 4, GroupKey::ArrowLeft), 3);
    assert_eq!(group_target(3, 4, GroupKey::ArrowRight), 0);
    assert_eq!(group_target(1, 4, GroupKey::ArrowDown), 2);
    assert_eq!(group_target(1, 4, GroupKey::ArrowUp), 0);
    assert_eq!(group_target(2, 4, GroupKey::Home), 0);
    assert_eq!(group_target(0, 4, GroupKey::End), 3);
}

#[test]
fn focus_returns_to_the_remembered_control() {
    assert_eq!(restore_index(Some(4), 1, 6), 4);
    assert_eq!(restore_index(None, 1, 6), 1);
    assert_eq!(restore_index(None, 9, 6), 5);
    assert_eq!(restore_index(None, 9, 0), 0);
    let mut memory = GroupMemory::new(2);
    assert_eq!(memory.entry(5), 2);
    memory.observe(Some(4));
    assert_eq!(memory.entry(5), 4);
    assert_eq!(memory.entry(3), 2);
}

#[test]
fn menus_open_from_their_keys() {
    assert_eq!(keyboard_open(MenuRole::Trigger, MenuKey::ArrowDown, false, false, true, 3), Some(InitialFocus::Index(3)));
    assert_eq!(keyboard_open(MenuRole::Trigger, MenuKey::ArrowUp, false, false, true, 3), Some(InitialFocus::Last));
    assert_eq!(keyboard_open(MenuRole::Trigger, MenuKey::ArrowDown, false, true, true, 3), None);
    assert_eq!(keyboard_open(MenuRole::Trigger, MenuKey::ArrowDown, false, false, false, 3), None);
    assert_eq!(keyboard_open(MenuRole::Submenu, MenuKey::ArrowRight, false, false, true, 0), Some(InitialFocus::Index(0)));
    assert_eq!(keyboard_open(MenuRole::Submenu, MenuKey::ArrowDown, false, false, true, 0), None);
    assert_eq!(keyboard_open(MenuRole::Context, MenuKey::F10, true, false, true, 1), Some(InitialFocus::Index(1)));
    assert_eq!(keyboard_open(MenuRole::Context, MenuKey::F10, false, false, true, 1), None);
    assert_eq!(keyboard_open(MenuRole::Context, MenuKey::ContextMenu, false, false, true, 1), Some(InitialFocus::Index(1)));
    assert_eq!(keyboard_open(MenuRole::Item, MenuKey::ArrowDown, false, false, true, 1), None);
}

#[test]
fn menu_arrows_home_and_end() {
    assert_eq!(menu_step(Some(1), 4, MenuKey::Home), Some(0));
    assert_eq!(menu_step(Some(1), 4, MenuKey::End), Some(3));
    assert_eq!(menu_step(Some(0), 4, MenuKey::ArrowUp), Some(3));
    assert_eq!(menu_step(Some(3), 4, MenuKey::ArrowDown), Some(0));
    assert_eq!(menu_step(None, 4, MenuKey::ArrowDown), Some(0));
    assert_eq!(menu_step(None, 4, MenuKey::ArrowUp), Some(3));
    assert_eq!(menu_step(Some(1), 4, MenuKey::ArrowLeft), None);
    assert_eq!(menu_step(None, 0, MenuKey::Home), None);
}

#[test]
fn context_menu_opens_on_a_right_click_inside() {
    let mut press = ContextPress::new();
    assert_eq!(press.handle(ContextEvent::RightPressed, true, false), ContextAction::Capture);
    assert_eq!(press.handle(ContextEvent::RightReleased, true, false), ContextAction::Open);
    assert!(!press.right_pressed);
    assert_eq!(press.handle(ContextEvent::RightPressed, true, false), ContextAction::Capture);
    assert_eq!(press.handle(ContextEvent::RightReleased, false, false), ContextAction::Capture);
    assert_eq!(press.handle(ContextEvent::RightReleased, true, false), ContextAction::Ignore);
    assert_eq!(press.handle(ContextEvent::RightPressed, true, false), ContextAction::Capture);
    assert_eq!(press.handle(ContextEvent::CursorLeft, true, false), ContextAction::Ignore);
    assert_eq!(press.handle(ContextEvent::RightReleased, true, false), ContextAction::Ignore);
    assert_eq!(press.handle(ContextEvent::RightPressed, true, true), ContextAction::Ignore);
    assert_eq!(press.handle(ContextEvent::RightPressed, false, false), ContextAction::Ignore);
}

#[test]
fn labels_are_trimmed_and_lowercased() {
    assert_eq!(normalize_label("  Open File \n"), "open file");
    assert_eq!(normalize_label("ÉCOLE"), "école");
    assert_eq!(normalize_label("   "), "");
    let option = SelectOption::new(7u8, "Seven").disabled(true);
    assert_eq!(option.value, 7);
    assert_eq!(option.label, "Seven");
    assert!(option.disabled);
    assert!(!SelectOption::new(1u8, "One").disabled);
}

#[test]
fn type_ahead_finds_and_cycles_matches() {
    let labels: Vec<String> = ["apple", "banana", "blueberry", "cherry"].iter().map(|s| s.to_string()).collect();
    let mut typed = TypeAhead::new();
    assert_eq!(typed.type_text("b", false, &labels, None), Some(1));
    assert_eq!(typed.typed, "b");
    assert_eq!(typed.type_text("L", false, &labels, Some(1)), Some(2));
    assert_eq!(typed.typed, "bl");
    // the same key again after a pause moves on to the next match
    assert_eq!(typed.type_text("b", true, &labels, Some(1)), Some(2));
    assert_eq!(typed.type_text("b", false, &labels, Some(2)), Some(1));
    // a key that extends nothing starts over with just that key
    assert_eq!(typed.type_text("c", false, &labels, Some(1)), Some(3));
    assert_eq!(typed.typed, "c");
    assert_eq!(typed.type_text("z", true, &labels, Some(3)), None);
    typed.clear();
    assert_eq!(typed.typed, "");
    assert!(accepts_typed("a", true, false, false, false));
    assert!(!accepts_typed("a", false, false, false, false));
    assert!(!accepts_typed("a", true, true, false, false));
    assert!(!accepts_typed("\u{8}", true, false, false, false));
}

#[test]
fn topmost_visible_layer() {
    assert_eq!(top_visible(&vec![true, false, true, false]), Some(2));
    assert_eq!(top_visible(&vec![false, false]), None);
    assert_eq!(top_visible(&vec![]), None);
}

#[test]
fn dialogs_dismiss_on_escape_and_outside_clicks() {
    let rules = DismissRules { escape: true, outside: true, has_dismiss: true };
    let mut press = OutsidePress::new();
    assert!(press.handle(DialogEvent::Escape, false, rules));
    assert!(!press.handle(DialogEvent::LeftPressed, true, rules));
    assert!(press.handle(DialogEvent::LeftReleased, true, rules));
    // pressed inside, released outside: a drag, not a dismissal
    assert!(!press.handle(DialogEvent::LeftPressed, false, rules));
    assert!(!press.handle(DialogEvent::LeftReleased, true, rules));
    // losing the window forgets the press
    assert!(!press.handle(DialogEvent::LeftPressed, true, rules));
    assert!(!press.handle(DialogEvent::WindowUnfocused, true, rules));
    assert!(!press.handle(DialogEvent::LeftReleased, true, rules));
    let modal = DismissRules { escape: false, outside: false, has_dismiss: true };
    assert!(!press.handle(DialogEvent::Escape, false, modal));
    assert!(!press.handle(DialogEvent::LeftPressed, true, modal));
    assert!(!press.handle(DialogEvent::LeftReleased, true, modal));
    let silent = DismissRules { escape: true, outside: true, has_dismiss: false };
    assert!(!press.handle(DialogEvent::Escape, false, silent));
}

#[test]
fn layers_follow_the_open_flag() {
    let mut flags = LayerFlags::new(false);
    assert!(flags.sync(true));
    assert!(flags.focus_pending && !flags.cancel);
    assert!(!flags.sync(true));
    assert!(!flags.sync(false));
    assert!(flags.cancel && !flags.focus_pending && !flags.was_open);
}

#[test]
fn background_is_suspended_and_resumed() {
    let mut background = Background::new();
    assert_eq!(background.step(true, None, false), BackgroundActions { suspend: true, resume: false });
    assert_eq!(background.step(true, None, false), BackgroundActions { suspend: false, resume: false });
    // uncovered while the window is inactive: resume waits for focus
    assert_eq!(background.step(false, Some(false), false), BackgroundActions { suspend: false, resume: false });
    assert!(background.resume_pending);
    assert_eq!(background.step(false, Some(true), false), BackgroundActions { suspend: false, resume: true });
    assert!(!background.resume_pending);
    assert_eq!(background.step(true, None, false), BackgroundActions { suspend: true, resume: false });
    assert_eq!(background.step(false, None, true), BackgroundActions { suspend: false, resume: false });
    assert_eq!(background.step(false, None, false), BackgroundActions { suspend: false, resume: true });
}

#[test]
fn buttons_activate_on_click_and_key_release() {
    let mut press = Press::new();
    assert!(!press.button_event(PressEvent::LeftPressed, true, true, false));
    assert!(press.button_event(PressEvent::LeftReleased, true, true, false));
    assert!(!press.button_event(PressEvent::LeftPressed, true, true, false));
    assert!(!press.button_event(PressEvent::LeftReleased, false, true, false));
    assert!(!press.button_event(PressEvent::LeftPressed, true, false, false));
    assert!(!press.button_event(PressEvent::LeftReleased, true, false, false));
    // focused by the earlier click: Enter activates on release, once
    assert!(!press.button_event(PressEvent::KeyPressed { key: NamedKey::Enter, repeat: false }, false, true, false));
    assert!(!press.button_event(PressEvent::KeyPressed { key: NamedKey::Enter, repeat: true }, false, true, false));
    assert!(press.button_event(PressEvent::KeyReleased { key: NamedKey::Enter }, false, true, false));
    assert!(!press.button_event(PressEvent::KeyReleased { key: NamedKey::Enter }, false, true, false));
    assert!(!press.button_event(PressEvent::KeyPressed { key: NamedKey::Space, repeat: false }, false, true, false));
    assert!(!press.button_event(PressEvent::WindowUnfocused, false, true, false));
    assert!(!press.button_event(PressEvent::KeyReleased { key: NamedKey::Space }, false, true, false));
    press.release_to_child();
    assert!(!press.pressed);
}

#[test]
fn buttons_without_an_action_ignore_input() {
    let mut press = Press::new();
    assert!(!press.button_event(PressEvent::LeftPressed, true, false, false));
    assert!(!press.pressed);
    assert!(!press.button_event(PressEvent::LeftPressed, true, true, false));
    // the action is removed while the key is down: the release changes state but sends nothing
    assert!(!press.button_event(PressEvent::KeyPressed { key: NamedKey::Space, repeat: false }, true, true, false));
    assert!(!press.button_event(PressEvent::KeyReleased { key: NamedKey::Space }, true, false, false));
    assert!(press.key.is_some());
    assert!(!press.button_event(PressEvent::KeyReleased { key: NamedKey::Space }, true, false, true));
    assert!(press.key.is_none());
}

#[test]
fn selection_controls_send_the_opposite_value() {
    let unchecked = ToggleRules { checked: false, radio: false };
    let mut toggle = Toggle::new();
    assert_eq!(toggle.event(PressEvent::LeftPressed, true, unchecked, true), None);
    assert_eq!(toggle.event(PressEvent::LeftReleased, true, unchecked, true), Some(true));
    let checked = ToggleRules { checked: true, radio: false };
    assert_eq!(toggle.event(PressEvent::KeyPressed { key: NamedKey::Space, repeat: false }, true, checked, true), None);
    assert_eq!(toggle.event(PressEvent::KeyReleased { key: NamedKey::Space }, true, checked, true), Some(false));
    let radio = ToggleRules { checked: true, radio: true };
    assert_eq!(toggle.event(PressEvent::LeftPressed, true, radio, true), None);
    assert_eq!(toggle.event(PressEvent::LeftReleased, true, radio, true), None);
    assert_eq!(toggle.event(PressEvent::LeftPressed, true, unchecked, true), None);
    assert_eq!(toggle.event(PressEvent::CursorLeft, false, unchecked, true), None);
    assert_eq!(toggle.event(PressEvent::LeftReleased, true, unchecked, true), None);
}

#[test]
fn selection_controls_without_an_action_ignore_input() {
    let rules = ToggleRules { checked: false, radio: false };
    let mut toggle = Toggle::new();
    assert_eq!(toggle.event(PressEvent::LeftPressed, true, rules, false), None);
    assert_eq!(toggle.event(PressEvent::LeftReleased, true, rules, false), None);
    assert_eq!(toggle, Toggle::new());
    assert_eq!(toggle.event(PressEvent::LeftPressed, true, rules, true), None);
    // the action is removed before the release: nothing is sent
    assert_eq!(toggle.event(PressEvent::LeftReleased, true, rules, false), None);
    assert!(toggle.press.pressed);
}

#[test]
fn scopes_nest_and_restore() {
    let mut activity = Activity::new();
    assert_eq!(activity.current(), Context::Normal);
    let outer = activity.scoped(covered_context(activity.current(), true));
    assert_eq!(activity.current(), Context::Covered { focused: true });
    let inner = activity.scoped(covered_context(activity.current(), false));
    assert_eq!(activity.current(), Context::Covered { focused: true });
    assert_eq!(interaction(activity.current()), Context::Covered { focused: true });
    activity.restore(inner);
    activity.restore(outer);
    assert_eq!(activity.current(), Context::Normal);
    assert_eq!(interaction(Context::Normal), Context::Interaction);
    assert!(is_covered(Context::Covered { focused: false }));
    assert!(!is_covered(Context::Interaction));
}

#[test]
fn window_focus_seen_by_each_context() {
    assert_eq!(window_focus(Context::Normal, WindowEvent::Focused), Some(true));
    assert_eq!(window_focus(Context::Normal, WindowEvent::Unfocused), Some(false));
    assert_eq!(window_focus(Context::Normal, WindowEvent::Other), None);
    assert_eq!(window_focus(Context::Interaction, WindowEvent::Focused), None);
    assert_eq!(window_focus(Context::Covered { focused: false }, WindowEvent::Focused), Some(false));
    assert_eq!(covered_event(WindowEvent::Focused), Some(WindowEvent::Unfocused));
    assert_eq!(covered_event(WindowEvent::RedrawRequested), Some(WindowEvent::RedrawRequested));
    assert_eq!(covered_event(WindowEvent::Other), None);
}

#[test]
fn placements_above_and_beside() {
    assert!(Placement::TopStart.above());
    assert!(Placement::Top.above());
    assert!(!Placement::BottomEnd.above());
    assert!(Placement::Left.horizontal());
    assert!(Placement::RightStart.horizontal());
    assert!(!Placement::Bottom.horizontal());
}

#[test]
fn badge_counts_cap_at_ninety_nine() {
    assert_eq!(iced_m3::badge_label(0), "0");
    assert_eq!(iced_m3::badge_label(7), "7");
    assert_eq!(iced_m3::badge_label(99), "99");
    assert_eq!(iced_m3::badge_label(100), "99+");
    assert_eq!(iced_m3::badge_label(u32::MAX), "99+");
}

#[test]
fn menus_close_on_escape_and_outside_clicks() {
    let mut popup = Popup::new();
    popup.show();
    assert!(popup.open);
    assert_eq!(popup.handle(PopupEvent::Pressed { primary: true }, true, false, false), PopupAction::Forward);
    assert!(popup.outside_pressed);
    assert_eq!(popup.handle(PopupEvent::Released { primary: true }, true, false, false), PopupAction::DismissTree);
    assert!(!popup.open);
    popup.show();
    assert_eq!(popup.handle(PopupEvent::Pressed { primary: true }, false, false, false), PopupAction::Forward);
    assert_eq!(popup.handle(PopupEvent::Released { primary: true }, true, false, false), PopupAction::Forward);
    assert!(popup.open);
    assert_eq!(popup.handle(PopupEvent::ArrowLeft, false, false, false), PopupAction::Forward);
    assert_eq!(popup.handle(PopupEvent::ArrowLeft, false, false, true), PopupAction::Close);
    assert!(!popup.open);
    popup.show();
    assert_eq!(popup.handle(PopupEvent::WheelScrolled, false, false, false), PopupAction::Forward);
    assert_eq!(popup.handle(PopupEvent::Pressed { primary: true }, false, true, true), PopupAction::Skip);
    assert_eq!(popup.handle(PopupEvent::WheelScrolled, true, false, false), PopupAction::DismissTree);
    popup.show();
    assert_eq!(popup.handle(PopupEvent::Escape, true, false, true), PopupAction::Close);
    popup.show();
    assert_eq!(popup.handle(PopupEvent::WindowUnfocused, false, false, false), PopupAction::DismissTree);
}

#[test]
fn dismissing_a_cascade_closes_every_menu_in_it() {
    let mut parent = Popup::new();
    let mut child = Popup::new();
    parent.show();
    child.show();
    let labels: Vec<String> = vec!["alpha".to_string()];
    assert_eq!(child.typeahead.type_text("a", false, &labels, None), Some(0));
    let signal = child.dismiss_tree(0);
    assert_eq!(signal, 1);
    assert_eq!(child.typeahead.typed, "");
    parent.synchronize(signal);
    assert!(!parent.open);
    parent.show();
    parent.synchronize(signal);
    assert!(parent.open);
    let mut last = Popup::new();
    last.generation = u64::MAX;
    assert_eq!(last.dismiss_tree(u64::MAX), 0);
}

#[test]
fn stacked_dialogs_hand_input_to_the_top_layer() {
    let mut layers = ActiveLayer::new();
    assert_eq!(layers.switch(0, false, false), LayerSwitch { suspend: None, resume: true });
    assert_eq!(layers.switch(0, false, false), LayerSwitch { suspend: None, resume: false });
    // a second dialog opens while the window is inactive
    assert_eq!(layers.switch(1, true, false), LayerSwitch { suspend: Some(0), resume: false });
    assert_eq!(layers.switch(1, false, true), LayerSwitch { suspend: None, resume: false });
    assert_eq!(layers.switch(1, false, false), LayerSwitch { suspend: None, resume: true });
    assert_eq!(layers.switch(0, false, false), LayerSwitch { suspend: Some(1), resume: true });
    layers.reset();
    assert_eq!(layers, ActiveLayer { active: None, resume_layer: None });
}

#[test]
fn carousel_keys_and_wheel_step_without_wrapping() {
    let key = |selected: usize, key: CarouselKey| key_response(selected, 5, true, true, key);
    let selects = |i: usize| CarouselResponse { select: Some(i), capture: true };
    assert_eq!(key(0, CarouselKey::ArrowLeft), selects(0));
    assert_eq!(key(3, CarouselKey::ArrowLeft), selects(2));
    assert_eq!(key(9, CarouselKey::ArrowLeft), selects(4));
    assert_eq!(key(3, CarouselKey::ArrowRight), selects(4));
    assert_eq!(key(4, CarouselKey::ArrowRight), selects(4));
    assert_eq!(key(2, CarouselKey::Home), selects(0));
    assert_eq!(key(2, CarouselKey::End), selects(4));
    assert_eq!(key(2, CarouselKey::Other), CarouselResponse { select: None, capture: false });
    assert_eq!(key(usize::MAX, CarouselKey::ArrowRight), selects(4));
    assert_eq!(wheel_step(2, 5, true, true), Some(1));
    assert_eq!(wheel_step(2, 5, true, false), Some(3));
    assert_eq!(selected_index(9, 5), Some(4));
    assert_eq!(selected_index(3, 5), Some(3));
}

#[test]
fn carousel_without_items_or_handler_selects_nothing() {
    let nothing = CarouselResponse { select: None, capture: false };
    for key in [CarouselKey::ArrowLeft, CarouselKey::ArrowRight, CarouselKey::Home, CarouselKey::End] {
        assert_eq!(key_response(0, 0, true, true, key), nothing);
        assert_eq!(key_response(1, 5, false, true, key), nothing);
        assert_eq!(key_response(1, 5, true, false, key), nothing);
    }
    assert_eq!(wheel_step(0, 0, true, false), None);
    assert_eq!(wheel_step(2, 5, false, true), None);
    assert_eq!(selected_index(0, 0), None);
}

#[test]
fn open_menus_keep_what_they_handle_from_widgets_underneath() {
    let mut popup = Popup::new();
    popup.show();
    let action = popup.handle(PopupEvent::Escape, false, false, false);
    assert_eq!(action, PopupAction::Close);
    assert!(iced_m3::captures(PopupEvent::Escape, action));
    assert!(!iced_m3::captures(PopupEvent::WindowUnfocused, PopupAction::DismissTree));
    assert!(!iced_m3::captures(PopupEvent::WindowOther, PopupAction::Forward));
    assert!(!iced_m3::captures(PopupEvent::Pressed { primary: true }, PopupAction::Skip));
    assert!(iced_m3::captures(PopupEvent::Other, PopupAction::Forward));
    assert!(iced_m3::captures(PopupEvent::Touch, PopupAction::Forward));
    assert!(iced_m3::closed_captures(PopupEvent::Pressed { primary: false }, true));
    assert!(iced_m3::closed_captures(PopupEvent::Touch, true));
    assert!(!iced_m3::closed_captures(PopupEvent::Pressed { primary: true }, false));
    assert!(!iced_m3::closed_captures(PopupEvent::Escape, true));
}

#[test]
fn content_messages_close_the_cascade() {
    let none: Vec<u8> = Vec::new();
    let some: Vec<u8> = vec![1, 2, 3];
    let any = |_: &u8| true;
    assert!(!iced_m3::closes_on_messages(&none, false, &any));
    assert!(iced_m3::closes_on_messages(&some, false, &any));
    assert!(iced_m3::closes_on_messages(&some, true, &|m: &u8| *m == 2));
    assert!(!iced_m3::closes_on_messages(&some, true, &|m: &u8| *m == 7));
    assert!(!iced_m3::closes_on_messages(&none, true, &any));
}

#[test]
fn controls_keep_the_events_they_handle() {
    let mut press = Press::new();
    assert!(press.captures(PressEvent::LeftPressed, true, true, false));
    assert!(!press.captures(PressEvent::LeftPressed, false, true, false));
    assert!(!press.captures(PressEvent::LeftPressed, true, false, false));
    press.button_event(PressEvent::LeftPressed, true, true, false);
    // a release away from the button still ends its press and is kept
    assert!(press.captures(PressEvent::LeftReleased, false, true, false));
    press.button_event(PressEvent::LeftReleased, false, true, false);
    assert!(press.captures(PressEvent::KeyPressed { key: NamedKey::Enter, repeat: true }, false, true, false));
    assert!(!press.captures(PressEvent::KeyPressed { key: NamedKey::Other, repeat: false }, false, true, false));
    press.button_event(PressEvent::KeyPressed { key: NamedKey::Space, repeat: false }, false, true, false);
    assert!(press.captures(PressEvent::KeyReleased { key: NamedKey::Space }, false, true, false));
    assert!(!press.captures(PressEvent::KeyReleased { key: NamedKey::Enter }, false, true, false));
    assert!(!press.captures(PressEvent::CursorLeft, true, true, false));

    let rules = ToggleRules { checked: false, radio: false };
    let mut toggle = Toggle::new();
    assert!(toggle.captures(PressEvent::LeftPressed, true, true));
    assert!(!toggle.captures(PressEvent::LeftPressed, true, false));
    toggle.event(PressEvent::LeftPressed, true, rules, true);
    assert!(toggle.captures(PressEvent::LeftReleased, false, true));
    assert!(toggle.captures(PressEvent::KeyPressed { key: NamedKey::Enter, repeat: false }, false, true));
    assert!(!toggle.captures(PressEvent::WindowFocused, true, true));
}

#[test]
fn type_ahead_on_lowered_keys_and_any_focused_index() {
    let labels: Vec<String> = ["apple", "banana", "blueberry", "cherry"].iter().map(|s| s.to_string()).collect();
    let mut typed = TypeAhead::new();
    assert_eq!(typed.type_key("b", false, &labels, None), Some(1));
    assert_eq!(typed.type_key("l", false, &labels, Some(1)), Some(2));
    assert_eq!(typed.typed, "bl");
    // a focused index past the labels goes round them
    let mut fresh = TypeAhead::new();
    assert_eq!(fresh.type_key("b", false, &labels, Some(5)), Some(2));
    let mut last = TypeAhead::new();
    assert_eq!(last.type_text("C", false, &labels, Some(usize::MAX)), Some(3));
}

#[test]
fn losing_the_window_forgets_a_right_press() {
    let mut press = ContextPress::new();
    assert_eq!(press.handle(ContextEvent::RightPressed, true, false), ContextAction::Capture);
    assert_eq!(press.handle(ContextEvent::WindowUnfocused, true, true), ContextAction::Ignore);
    assert!(!press.right_pressed);
    assert_eq!(press.handle(ContextEvent::RightReleased, true, false), ContextAction::Ignore);
}
