//! Modal input suspension, distinct from real window activity. Modal hosts
//! run updates of covered content in a scope that carries this context;
//! scopes nest and restore.
use vstd::prelude::*;

verus! {

#[derive(Clone, Copy, Debug, PartialEq, Eq, Structural)]
pub enum Context {
    Normal,
    Interaction,
    Covered { focused: bool },
}

/// The window events the context distinguishes.
#[derive(Clone, Copy, Debug, PartialEq, Eq, Structural)]
pub enum WindowEvent {
    Focused,
    Unfocused,
    RedrawRequested,
    Other,
}

/// The current context of synchronous updates, with nested scopes.
pub struct Activity {
    current: Context,
}

impl View for Activity {
    type V = Context;

    closed spec fn view(&self) -> Context {
        self.current
    }
}

impl Activity {
    pub fn new() -> (activity: Self)
        ensures
            activity@ == Context::Normal,
    {
        Activity { current: Context::Normal }
    }

    pub fn current(&self) -> (context: Context)
        ensures
            context == self@,
    {
        self.current
    }

    /// Enter a scope with `context`, returning the context to restore on leaving.
    pub fn scoped(&mut self, context: Context) -> (previous: Context)
        ensures
            final(self)@ == context,
            previous == old(self)@,
    {
        let previous = self.current;
        self.current = context;
        previous
    }

    /// Leave a scope, restoring the context it replaced.
    pub fn restore(&mut self, previous: Context)
        ensures
            final(self)@ == previous,
    {
        self.current = previous;
    }
}

/// An interaction scope keeps a covered context; otherwise it marks interaction.
pub open spec fn interaction_context(current: Context) -> Context {
    match current {
        Context::Covered { .. } => current,
        _ => Context::Interaction,
    }
}

pub fn interaction(current: Context) -> (context: Context)
    ensures
        context == interaction_context(current),
{
    match current {
        Context::Covered { .. } => current,
        _ => Context::Interaction,
    }
}

pub fn is_covered(current: Context) -> (covered: bool)
    ensures
        covered == current is Covered,
{
    match current {
        Context::Covered { .. } => true,
        _ => false,
    }
}

/// The window focus that opt-in clocks observe: a covered scope reports the
/// outer host's focus, an interaction scope none, and otherwise real focus events.
pub fn window_focus(current: Context, event: WindowEvent) -> (focus: Option<bool>)
    ensures
        focus == match current {
            Context::Covered { focused } => Some(focused),
            Context::Interaction => None,
            Context::Normal => match event {
                WindowEvent::Focused => Some(true),
                WindowEvent::Unfocused => Some(false),
                _ => None,
            },
        },
{
    match current {
        Context::Covered { focused } => Some(focused),
        Context::Interaction => None,
        Context::Normal => match event {
            WindowEvent::Focused => Some(true),
            WindowEvent::Unfocused => Some(false),
            _ => None,
        },
    }
}

pub open spec fn covered_context_of(current: Context, focused: bool) -> Context {
    match current {
        Context::Covered { .. } => current,
        _ => Context::Covered { focused },
    }
}

/// The context for updating covered content: the outermost host's focus wins.
pub fn covered_context(current: Context, focused: bool) -> (context: Context)
    ensures
        context == covered_context_of(current, focused),
{
    match current {
        Context::Covered { .. } => current,
        _ => Context::Covered { focused },
    }
}

/// Covered content sees only redraws and, for any focus change, Unfocused.
pub fn covered_event(event: WindowEvent) -> (seen: Option<WindowEvent>)
    ensures
        seen == match event {
            WindowEvent::RedrawRequested => Some(WindowEvent::RedrawRequested),
            WindowEvent::Focused | WindowEvent::Unfocused => Some(WindowEvent::Unfocused),
            WindowEvent::Other => None,
        },
{
    match event {
        WindowEvent::RedrawRequested => Some(WindowEvent::RedrawRequested),
        WindowEvent::Focused | WindowEvent::Unfocused => Some(WindowEvent::Unfocused),
        WindowEvent::Other => None,
    }
}

/// Once covered, nested interaction scopes and nested modal hosts stay
/// covered with the outermost host's focus.
pub proof fn law_covered_is_sticky(focused: bool, nested: bool)
    ensures
        interaction_context(Context::Covered { focused }) == (Context::Covered { focused }),
        covered_context_of(Context::Covered { focused }, nested) == (Context::Covered { focused }),
        covered_context_of(interaction_context(Context::Normal), nested) == (Context::Covered { focused: nested }),
{
}

} // verus!
