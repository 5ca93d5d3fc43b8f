//! Keyboard traversal decisions: Tab cycling, arrow movement in groups, and
//! where focus returns to.
use vstd::prelude::*;

verus! {

/// The next focus position for Tab (or Shift+Tab when `reverse`): the one after
/// the focused control, wrapping; with nothing focused, the first (or last).
pub open spec fn cycled(focused: Option<int>, total: int, reverse: bool) -> Option<int> {
    if total <= 0 {
        None
    } else {
        match focused {
            Some(i) => Some(if reverse { (i + total - 1) % total } else { (i + 1) % total }),
            None => Some(if reverse { total - 1 } else { 0 }),
        }
    }
}

/// Tab traversal wraps within the focusable controls of a scope.
pub fn cycle(focused: Option<usize>, total: usize, reverse: bool) -> (next: Option<usize>)
    requires
        focused matches Some(i) ==> i < total,
    ensures
        next == match cycled(match focused { Some(i) => Some(i as int), None => None }, total as int, reverse) {
            Some(n) => Some(n as usize),
            None => None,
        },
        next matches Some(n) ==> n < total,
{
    if total == 0 {
        return None;
    }
    match focused {
        Some(i) => {
            proof {
                lemma_wrap_steps(i as int, total as int);
            }
            Some(if reverse {
                if i == 0 { total - 1 } else { i - 1 }
            } else {
                if i + 1 == total { 0 } else { i + 1 }
            })
        },
        None => Some(if reverse { total - 1 } else { 0 }),
    }
}

proof fn lemma_wrap_steps(i: int, total: int)
    requires
        0 <= i < total,
    ensures
        (i + total - 1) % total == if i == 0 { total - 1 } else { i - 1 },
        (i + 1) % total == if i + 1 == total { 0 } else { i + 1 },
{
    assert((i + total - 1) % total == if i == 0 { total - 1 } else { i - 1 }) by (nonlinear_arith)
        requires 0 <= i < total;
    assert((i + 1) % total == if i + 1 == total { 0 } else { i + 1 }) by (nonlinear_arith)
        requires 0 <= i < total;
}

/// Keys that move focus inside a group of controls.
#[derive(Clone, Copy, Debug, PartialEq, Eq, Structural)]
pub enum GroupKey {
    ArrowLeft,
    ArrowRight,
    ArrowUp,
    ArrowDown,
    Home,
    End,
}

pub open spec fn group_moved(current: int, total: int, key: GroupKey) -> int {
    match key {
        GroupKey::Home => 0,
        GroupKey::End => total - 1,
        GroupKey::ArrowLeft | GroupKey::ArrowUp => (current + total - 1) % total,
        _ => (current + 1) % total,
    }
}

/// Arrow keys step through a group, wrapping; Home and End jump to its ends.
pub fn group_target(current: usize, total: usize, key: GroupKey) -> (next: usize)
    requires
        current < total,
    ensures
        next == group_moved(current as int, total as int, key),
        next < total,
{
    match key {
        GroupKey::Home => 0,
        GroupKey::End => total - 1,
        GroupKey::ArrowLeft | GroupKey::ArrowUp => {
            proof {
                lemma_wrap_steps(current as int, total as int);
            }
            if current == 0 { total - 1 } else { current - 1 }
        },
        _ => {
            proof {
                lemma_wrap_steps(current as int, total as int);
            }
            if current + 1 == total { 0 } else { current + 1 }
        },
    }
}

/// Where focus returns in restored content: the remembered control if it is
/// still there, else the remembered position, kept within the controls.
pub fn restore_index(found: Option<usize>, remembered: usize, total: usize) -> (index: usize)
    ensures
        index == match found {
            Some(i) => i as int,
            None => if total == 0 { 0 } else if remembered < total { remembered as int } else { total - 1 },
        },
{
    match found {
        Some(i) => i,
        None => {
            let last = if total == 0 { 0 } else { total - 1 };
            if remembered < last { remembered } else { last }
        },
    }
}

/// A group's focus memory: the entry point offered to outer traversal.
pub struct GroupMemory {
    pub remembered: usize,
    pub preferred: usize,
    pub reveal_pending: bool,
}

impl GroupMemory {
    /// A group entered first at `active`.
    pub fn new(active: usize) -> (memory: Self)
        ensures
            memory.remembered == active,
            memory.preferred == active,
            memory.reveal_pending,
    {
        GroupMemory { remembered: active, preferred: active, reveal_pending: true }
    }

    /// The application changed the preferred entry point: adopt it and reveal it.
    pub fn prefer(&mut self, active: usize)
        ensures
            old(self).preferred != active ==> *final(self) == (GroupMemory {
                remembered: active,
                preferred: active,
                reveal_pending: true,
            }),
            old(self).preferred == active ==> *final(self) == *old(self),
    {
        if self.preferred != active {
            self.preferred = active;
            self.remembered = active;
            self.reveal_pending = true;
        }
    }

    /// Remember the focused control, if any.
    pub fn observe(&mut self, focused: Option<usize>)
        ensures
            final(self).remembered == match focused {
                Some(i) => i,
                None => old(self).remembered,
            },
            final(self).preferred == old(self).preferred,
            final(self).reveal_pending == old(self).reveal_pending,
    {
        if let Some(i) = focused {
            self.remembered = i;
        }
    }

    /// The entry point among `total` controls.
    pub fn entry(&self, total: usize) -> (index: usize)
        ensures
            index == if total == 0 { 0 } else if self.remembered < total { self.remembered as int } else { total - 1 },
    {
        restore_index(None, self.remembered, total)
    }
}

/// Tab then Shift+Tab returns to the control that had focus.
pub proof fn law_cycle_round_trip(i: int, total: int)
    requires
        0 <= i < total,
    ensures
        cycled(Some(i), total, false) matches Some(n) && cycled(Some(n), total, true) == Some(i),
        cycled(Some(i), total, true) matches Some(p) && cycled(Some(p), total, false) == Some(i),
{
    lemma_wrap_steps(i, total);
    let n = if i + 1 == total { 0 } else { i + 1 };
    let p = if i == 0 { total - 1 } else { i - 1 };
    lemma_wrap_steps(n, total);
    lemma_wrap_steps(p, total);
}

/// Tab visits every control before returning to the first.
pub proof fn law_cycle_visits_in_order(i: int, total: int)
    requires
        0 <= i < total - 1,
    ensures
        cycled(Some(i), total, false) == Some(i + 1),
        cycled(Some(total - 1), total, false) == Some(0int),
{
    lemma_wrap_steps(i, total);
    lemma_wrap_steps(total - 1, total);
}

/// Inside a group of `n` controls, Up and Left move to the previous control
/// and Down and Right to the next, wrapping round at the ends; Home moves to
/// the first and End to the last.
pub proof fn law_group_keys_step_and_wrap(c: int, n: int)
    requires
        0 <= c < n,
    ensures
        group_moved(c, n, GroupKey::ArrowUp) == if c == 0 { n - 1 } else { c - 1 },
        group_moved(c, n, GroupKey::ArrowLeft) == if c == 0 { n - 1 } else { c - 1 },
        group_moved(c, n, GroupKey::ArrowDown) == if c == n - 1 { 0 } else { c + 1 },
        group_moved(c, n, GroupKey::ArrowRight) == if c == n - 1 { 0 } else { c + 1 },
        group_moved(c, n, GroupKey::Home) == 0,
        group_moved(c, n, GroupKey::End) == n - 1,
{
    lemma_wrap_steps(c, n);
}

} // verus!
