//! Menu and select decisions: option values, label matching and type-ahead.
use vstd::prelude::*;
use vstd::string::*;
use crate::studio::is_white_space;
use crate::text::{chars_of, push_char};
use crate::focus::{cycle, cycled};

verus! {

#[derive(Clone, Debug)]
pub struct SelectOption<Value> {
    pub value: Value,
    pub label: String,
    pub disabled: bool,
}

impl<Value> SelectOption<Value> {
    pub fn new(value: Value, label: &str) -> (option: Self)
        ensures
            option.value == value,
            option.label@ == label@,
            !option.disabled,
    {
        SelectOption { value, label: String::from_str(label), disabled: false }
    }

    pub fn disabled(self, disabled: bool) -> (option: Self)
        ensures
            option.value == self.value,
            option.label@ == self.label@,
            option.disabled == disabled,
    {
        SelectOption { disabled, ..self }
    }
}

/// What `str::to_lowercase` returns for a text: its full Unicode lowercase mapping.
pub uninterp spec fn lowercase_of(text: Seq<char>) -> Seq<char>;

/// The Unicode lowercase form of a text (`str::to_lowercase`).
#[verifier::external_body]
fn lowercase(text: &str) -> (lower: String)
    ensures
        lower@ == lowercase_of(text@),
{
    text.to_lowercase()
}

/// The text without leading and trailing white space.
pub open spec fn trimmed(s: Seq<char>) -> Seq<char>
    decreases s.len(),
{
    if s.len() > 0 && is_white_space(s[0]) {
        trimmed(s.drop_first())
    } else if s.len() > 0 && is_white_space(s.last()) {
        trimmed(s.drop_last())
    } else {
        s
    }
}

proof fn lemma_trimmed_window(s: Seq<char>, a: int, b: int)
    requires
        0 <= a <= b <= s.len(),
        forall|i: int| 0 <= i < a ==> is_white_space(#[trigger] s[i]),
        forall|i: int| b <= i < s.len() ==> is_white_space(#[trigger] s[i]),
        a < b ==> !is_white_space(s[a]) && !is_white_space(s[b - 1]),
    ensures
        trimmed(s) == s.subrange(a, b),
    decreases s.len(),
{
    if s.len() > 0 && is_white_space(s[0]) {
        assert(a > 0 || b == 0);
        if a > 0 {
            let t = s.drop_first();
            assert forall|i: int| 0 <= i < a - 1 implies is_white_space(#[trigger] t[i]) by {
                assert(t[i] == s[i + 1]);
            }
            assert forall|i: int| b - 1 <= i < t.len() implies is_white_space(#[trigger] t[i]) by {
                assert(t[i] == s[i + 1]);
            }
            lemma_trimmed_window(t, a - 1, b - 1);
            assert(t.subrange(a - 1, b - 1) =~= s.subrange(a, b));
        } else {
            let t = s.drop_first();
            assert forall|i: int| 0 <= i < t.len() implies is_white_space(#[trigger] t[i]) by {
                assert(t[i] == s[i + 1]);
            }
            lemma_trimmed_window(t, 0, 0);
            assert(t.subrange(0, 0) =~= s.subrange(0, 0));
        }
    } else if s.len() > 0 && is_white_space(s.last()) {
        let t = s.drop_last();
        assert(b < s.len());
        lemma_trimmed_window(t, a, b);
        assert(t.subrange(a, b) =~= s.subrange(a, b));
    } else {
        if s.len() > 0 {
            assert(a == 0);
            assert(b == s.len());
        } else {
            assert(s.subrange(a, b) =~= s);
        }
        assert(s.subrange(a, b) =~= s);
    }
}

/// The form menu labels are matched in: trimmed and lowercased.
pub fn normalize_label(label: &str) -> (normal: String)
    ensures
        normal@ == lowercase_of(trimmed(label@)),
{
    let chars = chars_of(label);
    let mut a: usize = 0;
    while a < chars.len() && crate::studio::is_white_space_char(chars[a])
        invariant
            0 <= a <= chars@.len(),
            forall|i: int| 0 <= i < a ==> is_white_space(#[trigger] chars@[i]),
        decreases chars@.len() - a,
    {
        a = a + 1;
    }
    let mut b: usize = chars.len();
    while b > a && crate::studio::is_white_space_char(chars[b - 1])
        invariant
            a <= b <= chars@.len(),
            forall|i: int| b <= i < chars@.len() ==> is_white_space(#[trigger] chars@[i]),
        decreases b,
    {
        b = b - 1;
    }
    proof {
        lemma_trimmed_window(chars@, a as int, b as int);
    }
    let mut kept = String::new();
    let mut i = a;
    while i < b
        invariant
            a <= i <= b <= chars@.len(),
            kept@ == chars@.subrange(a as int, i as int),
        decreases b - i,
    {
        push_char(&mut kept, chars[i]);
        i = i + 1;
        assert(kept@ =~= chars@.subrange(a as int, i as int));
    }
    lowercase(kept.as_str())
}

pub open spec fn starts_with(s: Seq<char>, prefix: Seq<char>) -> bool {
    prefix.len() <= s.len() && s.take(prefix.len() as int) == prefix
}

fn has_prefix(s: &str, prefix: &str) -> (found: bool)
    ensures
        found == starts_with(s@, prefix@),
{
    let whole = chars_of(s);
    let head = chars_of(prefix);
    if head.len() > whole.len() {
        return false;
    }
    let mut i: usize = 0;
    while i < head.len()
        invariant
            whole@ == s@,
            head@ == prefix@,
            head@.len() <= whole@.len(),
            0 <= i <= head@.len(),
            forall|j: int| 0 <= j < i ==> whole@[j] == head@[j],
        decreases head@.len() - i,
    {
        if whole[i] != head[i] {
            assert(whole@.take(head@.len() as int)[i as int] != head@[i as int]);
            assert(whole@.take(head@.len() as int) != head@);
            return false;
        }
        i = i + 1;
    }
    assert(whole@.take(head@.len() as int) =~= head@);
    true
}

/// The texts of the labels.
pub open spec fn label_views(labels: Seq<String>) -> Seq<Seq<char>> {
    labels.map_values(|l: String| l@)
}

/// The position `k` steps after `start`, going round `n` items.
pub open spec fn around(start: int, k: int, n: int) -> int {
    (start + k) % n
}

proof fn lemma_around(start: int, k: int, n: int)
    requires
        0 <= start,
        0 <= k < n,
    ensures
        around(start, k, n) == if k >= n - start % n { k - (n - start % n) } else { start % n + k },
{
    assert((start + k) % n == if k >= n - start % n { k - (n - start % n) } else { start % n + k })
        by (nonlinear_arith)
        requires 0 <= start, 0 <= k < n;
}

/// The first label, going round from `start`, that begins with `prefix`.
pub open spec fn found_from(labels: Seq<Seq<char>>, start: int, prefix: Seq<char>, index: Option<int>) -> bool {
    let n = labels.len() as int;
    match index {
        Some(i) => exists|k: int| {
            &&& 0 <= k < n
            &&& i == #[trigger] around(start, k, n)
            &&& starts_with(labels[i], prefix)
            &&& forall|j: int| 0 <= j < k ==> !starts_with(labels[#[trigger] around(start, j, n)], prefix)
        },
        None => forall|k: int| 0 <= k < n ==> !starts_with(labels[#[trigger] around(start, k, n)], prefix),
    }
}

fn find_from(labels: &Vec<String>, start: usize, prefix: &str) -> (index: Option<usize>)
    requires
        labels@.len() > 0,
    ensures
        found_from(label_views(labels@), start as int, prefix@, match index {
            Some(i) => Some(i as int),
            None => None,
        }),
        index matches Some(i) ==> i < labels@.len(),
{
    let n = labels.len();
    let ghost views = label_views(labels@);
    let mut k: usize = 0;
    while k < n
        invariant
            n == labels@.len(),
            n > 0,
            views == label_views(labels@),
            0 <= k <= n,
            forall|j: int| 0 <= j < k ==> !starts_with(views[#[trigger] around(start as int, j, n as int)], prefix@),
        decreases n - k,
    {
        let offset = start % n;
        let i = if k >= n - offset { k - (n - offset) } else { offset + k };
        proof {
            lemma_around(start as int, k as int, n as int);
        }
        assert(i == around(start as int, k as int, n as int));
        if has_prefix(labels[i].as_str(), prefix) {
            assert(views[i as int] == labels@[i as int]@);
            assert(views.len() == n);
            assert(0 <= k < n && i == around(start as int, k as int, n as int)
                && starts_with(views[i as int], prefix@)
                && forall|j: int| 0 <= j < k ==> !starts_with(views[#[trigger] around(start as int, j, n as int)], prefix@));
            assert(found_from(views, start as int, prefix@, Some(i as int)));
            return Some(i);
        }
        assert(views[i as int] == labels@[i as int]@);
        k = k + 1;
    }
    None
}

/// Type-ahead state of an open menu: the text typed so far.
pub struct TypeAhead {
    pub typed: String,
}

impl TypeAhead {
    pub fn new() -> (state: Self)
        ensures
            state.typed@.len() == 0,
    {
        TypeAhead { typed: String::new() }
    }

    /// Forget the typed text (the menu closed or an arrow key moved focus).
    pub fn clear(&mut self)
        ensures
            final(self).typed@.len() == 0,
    {
        self.typed = String::new();
    }

    /// Handle typed `text` while the item at `current` (if any) has focus.
    /// `expired` tells that the previous key came too long ago, restarting the
    /// search. Returns the item to focus: the first one, going round from the
    /// focused item, whose normalized label begins with the typed text;
    /// failing that, with just this key's text. Typing the same key again
    /// moves on to the next match.
    pub fn type_text(&mut self, text: &str, expired: bool, labels: &Vec<String>, current: Option<usize>) -> (found: Option<usize>)
        requires
            labels@.len() > 0,
        ensures
            type_ahead(old(self).typed@, lowercase_of(text@), expired, label_views(labels@), current, final(self).typed@, found),
            found matches Some(i) ==> i < labels@.len(),
    {
        let key = lowercase(text);
        self.type_key(key.as_str(), expired, labels, current)
    }

    /// `type_text` for a key whose text is already lowercase.
    pub fn type_key(&mut self, key: &str, expired: bool, labels: &Vec<String>, current: Option<usize>) -> (found: Option<usize>)
        requires
            labels@.len() > 0,
        ensures
            type_ahead(old(self).typed@, key@, expired, label_views(labels@), current, final(self).typed@, found),
            found matches Some(i) ==> i < labels@.len(),
    {
        if expired {
            self.typed = String::new();
        }
        let key = String::from_str(key);
        let repeated = self.typed == key;
        if !repeated {
            self.typed.append(key.as_str());
        }
        let count = labels.len();
        let ghost views = label_views(labels@);
        let ghost exact = match current {
            None => 0,
            Some(i) => if repeated || self.typed@ == key@ { i + 1 } else { i as int },
        };
        let again = repeated || self.typed == key;
        let start = match current {
            None => 0,
            Some(i) => if again { i % count + 1 } else { i % count },
        };
        proof {
            assert(views.len() == count);
            if let Some(i) = current {
                lemma_search_start_round(i as int, count as int, again);
            }
        }
        match find_from(labels, start, self.typed.as_str()) {
            Some(i) => {
                proof {
                    lemma_found_from_round(views, start as int, exact, self.typed@, Some(i as int));
                }
                Some(i)
            },
            None => {
                proof {
                    lemma_found_from_round(views, start as int, exact, self.typed@, None);
                }
                self.typed = key.clone();
                let found = find_from(labels, start, key.as_str());
                proof {
                    lemma_found_from_round(views, start as int, exact, key@, match found {
                        Some(i) => Some(i as int),
                        None => None,
                    });
                }
                found
            },
        }
    }
}

/// The outcome of a type-ahead key: the typed text after it, and the item
/// found, as `TypeAhead::type_key` describes.
pub open spec fn type_ahead(
    before: Seq<char>,
    key: Seq<char>,
    expired: bool,
    views: Seq<Seq<char>>,
    current: Option<usize>,
    after: Seq<char>,
    found: Option<usize>,
) -> bool {
    let before = if expired { Seq::<char>::empty() } else { before };
    let repeated = before == key;
    let typed = if repeated { before } else { before + key };
    let start = match current {
        None => 0,
        Some(i) => if repeated || typed == key { i + 1 } else { i as int },
    };
    let first = match found {
        Some(i) => Some(i as int),
        None => None,
    };
    ||| after == typed && found_from(views, start, typed, first) && found is Some
    ||| after == key && found_from(views, start, typed, None) && found_from(views, start, key, first)
}

/// Starting one past `i` reduced round `n` names the same label as one past `i`.
proof fn lemma_search_start_round(i: int, n: int, plus: bool)
    requires
        0 <= i,
        n > 0,
    ensures
        (i % n + if plus { 1int } else { 0int }) % n == (i + if plus { 1int } else { 0int }) % n,
{
    let d = if plus { 1int } else { 0int };
    vstd::arithmetic::div_mod::lemma_add_mod_noop_right(d, i, n);
    assert(d + i % n == i % n + d);
    assert(d + i == i + d);
}

/// Searching round the labels from two starts that name the same label gives
/// the same result.
proof fn lemma_found_from_round(views: Seq<Seq<char>>, a: int, b: int, prefix: Seq<char>, index: Option<int>)
    requires
        views.len() > 0,
        0 <= a,
        0 <= b,
        a % (views.len() as int) == b % (views.len() as int),
    ensures
        found_from(views, a, prefix, index) == found_from(views, b, prefix, index),
{
    let n = views.len() as int;
    assert forall|k: int| around(a, k, n) == around(b, k, n) by {
        vstd::arithmetic::div_mod::lemma_add_mod_noop(a, k, n);
        vstd::arithmetic::div_mod::lemma_add_mod_noop(b, k, n);
    }
    match index {
        Some(i) => {
            if found_from(views, a, prefix, index) {
                let k = choose|k: int| {
                    &&& 0 <= k < n
                    &&& i == #[trigger] around(a, k, n)
                    &&& starts_with(views[i], prefix)
                    &&& forall|j: int| 0 <= j < k ==> !starts_with(views[#[trigger] around(a, j, n)], prefix)
                };
                assert(i == around(b, k, n));
                assert forall|j: int| 0 <= j < k implies !starts_with(views[#[trigger] around(b, j, n)], prefix) by {
                    assert(around(a, j, n) == around(b, j, n));
                }
            }
            if found_from(views, b, prefix, index) {
                let k = choose|k: int| {
                    &&& 0 <= k < n
                    &&& i == #[trigger] around(b, k, n)
                    &&& starts_with(views[i], prefix)
                    &&& forall|j: int| 0 <= j < k ==> !starts_with(views[#[trigger] around(b, j, n)], prefix)
                };
                assert(i == around(a, k, n));
                assert forall|j: int| 0 <= j < k implies !starts_with(views[#[trigger] around(a, j, n)], prefix) by {
                    assert(around(a, j, n) == around(b, j, n));
                }
            }
        },
        None => {
            assert forall|k: int| 0 <= k < n implies (!starts_with(views[#[trigger] around(a, k, n)], prefix)
                <==> !starts_with(views[around(b, k, n)], prefix)) by {
                assert(around(a, k, n) == around(b, k, n));
            }
        },
    }
}

/// Keys with control characters never start a type-ahead search.
pub open spec fn is_control(c: char) -> bool {
    c as int <= 0x1f || (0x7f <= c as int <= 0x9f)
}

fn is_control_char(c: char) -> (control: bool)
    ensures
        control == is_control(c),
{
    let n = c as u32;
    n <= 0x1f || (0x7f <= n && n <= 0x9f)
}

/// Whether typed text may drive type-ahead: there are labels, no Ctrl, Alt or
/// Logo modifier is held, and no character is a control character.
pub fn accepts_typed(text: &str, has_labels: bool, control: bool, alt: bool, logo: bool) -> (accepted: bool)
    ensures
        accepted == (has_labels && !control && !alt && !logo && forall|i: int| 0 <= i < text@.len() ==> !is_control(#[trigger] text@[i])),
{
    if !has_labels || control || alt || logo {
        return false;
    }
    let chars = chars_of(text);
    let mut i: usize = 0;
    while i < chars.len()
        invariant
            chars@ == text@,
            0 <= i <= chars@.len(),
            forall|j: int| 0 <= j < i ==> !is_control(#[trigger] chars@[j]),
        decreases chars@.len() - i,
    {
        if is_control_char(chars[i]) {
            return false;
        }
        i = i + 1;
    }
    true
}

/// Keys that open a menu or move focus inside an open one.
#[derive(Clone, Copy, Debug, PartialEq, Eq, Structural)]
pub enum MenuKey {
    ArrowUp,
    ArrowDown,
    ArrowLeft,
    ArrowRight,
    Home,
    End,
    ContextMenu,
    F10,
    Other,
}

/// What kind of trigger a menu hangs from.
#[derive(Clone, Copy, Debug, PartialEq, Eq, Structural)]
pub enum MenuRole {
    /// A button or field that drops a menu down.
    Trigger,
    /// An item of a menu that opens a nested menu to its side.
    Submenu,
    /// A region that opens a menu at the pointer.
    Context,
    /// An ordinary menu item, which opens nothing.
    Item,
}

/// Which key opens a menu of the given role from the keyboard.
pub open spec fn opening_key(role: MenuRole, key: MenuKey, shift: bool) -> bool {
    match role {
        MenuRole::Submenu => key == MenuKey::ArrowRight,
        MenuRole::Context => key == MenuKey::ContextMenu || (key == MenuKey::F10 && shift),
        MenuRole::Item => false,
        MenuRole::Trigger => key == MenuKey::ArrowDown || key == MenuKey::ArrowUp,
    }
}

/// Where focus goes when a menu opens from the keyboard.
#[derive(Clone, Copy, Debug, PartialEq, Eq, Structural)]
pub enum InitialFocus {
    /// The last item (opened with ArrowUp).
    Last,
    /// The item at this position (the active one).
    Index(usize),
}

/// A key opens the menu when it is the role's opening key, the menu is not
/// disabled and its trigger has focus. Opening with ArrowUp focuses the last
/// item; any other opening key focuses the active item.
pub fn keyboard_open(role: MenuRole, key: MenuKey, shift: bool, disabled: bool, trigger_focused: bool, active: usize) -> (focus: Option<InitialFocus>)
    ensures
        focus is Some <==> (opening_key(role, key, shift) && !disabled && trigger_focused),
        focus matches Some(f) ==> f == (if key == MenuKey::ArrowUp { InitialFocus::Last } else { InitialFocus::Index(active) }),
{
    let desired = match role {
        MenuRole::Submenu => key == MenuKey::ArrowRight,
        MenuRole::Context => key == MenuKey::ContextMenu || (key == MenuKey::F10 && shift),
        MenuRole::Item => false,
        MenuRole::Trigger => key == MenuKey::ArrowDown || key == MenuKey::ArrowUp,
    };
    if desired && !disabled && trigger_focused {
        Some(if key == MenuKey::ArrowUp { InitialFocus::Last } else { InitialFocus::Index(active) })
    } else {
        None
    }
}

/// Where focus lands in an open menu of `total` items for an arrow, Home or
/// End key: Home the first item, End the last, ArrowUp and ArrowDown one step
/// back or forward, wrapping (from no focus, the last or the first). Other keys
/// move nothing.
pub open spec fn menu_moved(focused: Option<int>, total: int, key: MenuKey) -> Option<int> {
    if total <= 0 {
        None
    } else {
        match key {
            MenuKey::Home => Some(0),
            MenuKey::End => cycled(None, total, true),
            MenuKey::ArrowUp => cycled(focused, total, true),
            MenuKey::ArrowDown => cycled(focused, total, false),
            _ => None,
        }
    }
}

pub fn menu_step(focused: Option<usize>, total: usize, key: MenuKey) -> (next: Option<usize>)
    requires
        focused matches Some(i) ==> i < total,
    ensures
        next == match menu_moved(match focused { Some(i) => Some(i as int), None => None }, total as int, key) {
            Some(n) => Some(n as usize),
            None => None,
        },
        next matches Some(n) ==> n < total,
{
    if total == 0 {
        return None;
    }
    match key {
        MenuKey::Home => Some(0),
        MenuKey::End => cycle(None, total, true),
        MenuKey::ArrowUp => cycle(focused, total, true),
        MenuKey::ArrowDown => cycle(focused, total, false),
        _ => None,
    }
}

/// A context menu opens on a right click inside its region: a right press
/// over the region is remembered, and the release opens the menu if the
/// pointer is still over it. The pointer leaving the region's window, or the
/// window losing focus, forgets the press.
#[derive(Clone, Copy, Debug, PartialEq, Eq, Structural)]
pub enum ContextEvent {
    RightPressed,
    RightReleased,
    CursorLeft,
    WindowUnfocused,
    Other,
}

/// The context region's state: whether a right press is pending.
pub struct ContextPress {
    pub right_pressed: bool,
}

/// What a context region does with an event.
#[derive(Clone, Copy, Debug, PartialEq, Eq, Structural)]
pub enum ContextAction {
    /// Pass the event on.
    Ignore,
    /// Keep the event from others, open nothing.
    Capture,
    /// Keep the event and open the menu at the pointer.
    Open,
}

impl ContextPress {
    pub fn new() -> (press: Self)
        ensures
            !press.right_pressed,
    {
        ContextPress { right_pressed: false }
    }

    pub fn handle(&mut self, event: ContextEvent, over: bool, disabled: bool) -> (action: ContextAction)
        ensures
            event is WindowUnfocused ==> action == ContextAction::Ignore && !final(self).right_pressed,
            disabled && !(event is WindowUnfocused) ==> action == ContextAction::Ignore
                && final(self).right_pressed == old(self).right_pressed,
            !disabled ==> match event {
                ContextEvent::RightPressed => if over {
                    action == ContextAction::Capture && final(self).right_pressed
                } else {
                    action == ContextAction::Ignore && final(self).right_pressed == old(self).right_pressed
                },
                ContextEvent::RightReleased => if old(self).right_pressed {
                    !final(self).right_pressed && action == (if over { ContextAction::Open } else { ContextAction::Capture })
                } else {
                    action == ContextAction::Ignore && !final(self).right_pressed
                },
                ContextEvent::CursorLeft | ContextEvent::WindowUnfocused => action == ContextAction::Ignore
                    && !final(self).right_pressed,
                ContextEvent::Other => action == ContextAction::Ignore && final(self).right_pressed == old(self).right_pressed,
            },
    {
        if event == ContextEvent::WindowUnfocused {
            self.right_pressed = false;
            return ContextAction::Ignore;
        }
        if disabled {
            return ContextAction::Ignore;
        }
        match event {
            ContextEvent::RightPressed => {
                if over {
                    self.right_pressed = true;
                    ContextAction::Capture
                } else {
                    ContextAction::Ignore
                }
            },
            ContextEvent::RightReleased => {
                if self.right_pressed {
                    self.right_pressed = false;
                    if over { ContextAction::Open } else { ContextAction::Capture }
                } else {
                    ContextAction::Ignore
                }
            },
            ContextEvent::CursorLeft | ContextEvent::WindowUnfocused => {
                self.right_pressed = false;
                ContextAction::Ignore
            },
            ContextEvent::Other => ContextAction::Ignore,
        }
    }
}

/// In an open menu of `n` items, Down moves to the next item and Up to the
/// previous one, wrapping round; from no focused item Down goes to the first
/// and Up to the last. Home goes to the first item and End to the last.
pub proof fn law_menu_keys_move_focus(c: int, n: int)
    requires
        0 <= c < n,
    ensures
        menu_moved(Some(c), n, MenuKey::ArrowDown) == Some(if c == n - 1 { 0 } else { c + 1 }),
        menu_moved(Some(c), n, MenuKey::ArrowUp) == Some(if c == 0 { n - 1 } else { c - 1 }),
        menu_moved(None, n, MenuKey::ArrowDown) == Some(0int),
        menu_moved(None, n, MenuKey::ArrowUp) == Some(n - 1),
        menu_moved(Some(c), n, MenuKey::Home) == Some(0int),
        menu_moved(Some(c), n, MenuKey::End) == Some(n - 1),
        menu_moved(Some(c), n, MenuKey::ArrowLeft) is None,
{
    assert((c + 1) % n == if c == n - 1 { 0 } else { c + 1 }) by (nonlinear_arith)
        requires 0 <= c < n;
    assert((c + n - 1) % n == if c == 0 { n - 1 } else { c - 1 }) by (nonlinear_arith)
        requires 0 <= c < n;
}

/// A drop-down menu opens with Down or Up, a submenu with Right, a context
/// menu with the Menu key or Shift+F10; a plain item opens nothing.
pub proof fn law_menus_open_from_their_keys(key: MenuKey, shift: bool)
    ensures
        opening_key(MenuRole::Trigger, key, shift) <==> (key == MenuKey::ArrowDown || key == MenuKey::ArrowUp),
        opening_key(MenuRole::Submenu, key, shift) <==> key == MenuKey::ArrowRight,
        opening_key(MenuRole::Context, key, shift) <==> (key == MenuKey::ContextMenu || (key == MenuKey::F10 && shift)),
        !opening_key(MenuRole::Item, key, shift),
{
}

} // verus!
