//! Viewport-aware placement of menus and plain tooltips.
use vstd::prelude::*;

verus! {

#[derive(Debug, Clone, Copy, Default, PartialEq, Eq, Structural)]
pub enum Placement {
    #[default]
    BottomStart,
    BottomEnd,
    Bottom,
    TopStart,
    TopEnd,
    Top,
    Left,
    Right,
    /// A cascading panel aligned with the top of its row; flips at the window edge.
    RightStart,
}

impl Placement {
    /// Placements that open above the anchor.
    pub fn above(self) -> (above: bool)
        ensures
            above == (self is Top || self is TopStart || self is TopEnd),
    {
        match self {
            Placement::Top | Placement::TopStart | Placement::TopEnd => true,
            _ => false,
        }
    }

    /// Placements beside the anchor rather than above or below it.
    pub fn horizontal(self) -> (horizontal: bool)
        ensures
            horizontal == (self is Left || self is Right || self is RightStart),
    {
        match self {
            Placement::Left | Placement::Right | Placement::RightStart => true,
            _ => false,
        }
    }
}

} // verus!
