//! Material treatments chosen per component.
use vstd::prelude::*;

verus! {

#[derive(Debug, Clone, Copy, Default, PartialEq, Eq, Structural)]
pub enum AppBarVariant {
    #[default]
    Small,
    CenterAligned,
    Medium,
    Large,
}

/// Material button treatment.
#[derive(Debug, Clone, Copy, Default, PartialEq, Eq, Structural)]
pub enum ButtonVariant {
    #[default]
    Filled,
    Outlined,
    Text,
    Tonal,
    Elevated,
}

#[derive(Clone, Copy, Debug, Default, PartialEq, Eq, Structural)]
pub enum CarouselVariant {
    #[default]
    MultiBrowse,
    Hero,
    /// One or more large focal items between small previews on both sides.
    HeroCenter,
    Uncontained,
    FullScreen,
}

#[derive(Debug, Clone, Copy, PartialEq, Eq, Structural)]
pub enum ChipVariant {
    Assist,
    Suggestion,
    Filter,
    Input,
}

#[derive(Debug, Clone, Copy, Default, PartialEq, Eq, Structural)]
pub enum SurfaceVariant {
    #[default]
    Filled,
    Outlined,
    Elevated,
}

#[derive(Debug, Clone, Copy, Default, PartialEq, Eq, Structural)]
pub enum FabSize {
    Small,
    #[default]
    Regular,
    Large,
}

#[derive(Debug, Clone, Copy, Default, PartialEq, Eq, Structural)]
pub enum FabColor {
    #[default]
    Primary,
    Secondary,
    Tertiary,
    Surface,
}

/// Navigation treatment for the available logical width.
#[derive(Debug, Clone, Copy, PartialEq, Eq, Structural)]
pub enum NavigationLayout {
    Bar,
    Rail,
    ExpandedRail,
}

} // verus!
