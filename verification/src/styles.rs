//! Appearance variants of the widgets; the colours they map to depend on the
//! theme's palette and are computed where the widgets are drawn.

use vstd::prelude::*;

verus! {

/// Pick-list appearance variants.
#[derive(Clone, Copy, Debug, PartialEq, Eq, Structural)]
pub enum PickListStyle {
    Standard,
    TimeRange,
}

impl Default for PickListStyle {
    fn default() -> (s: Self)
        ensures
            s == PickListStyle::Standard,
    {
        PickListStyle::Standard
    }
}

/// Scrollable appearance variants.
#[derive(Clone, Copy, Debug, PartialEq, Eq, Structural)]
pub enum ScrollableStyle {
    Standard,
}

impl Default for ScrollableStyle {
    fn default() -> (s: Self)
        ensures
            s == ScrollableStyle::Standard,
    {
        ScrollableStyle::Standard
    }
}

/// Text colour variants.
#[derive(Clone, Copy, Debug, PartialEq, Eq, Structural)]
pub enum TextStyle {
    Default,
    Primary,
    Secondary,
    Tertiary,
    Muted,
    Subtitle,
}

impl Default for TextStyle {
    fn default() -> (s: Self)
        ensures
            s == TextStyle::Default,
    {
        TextStyle::Default
    }
}

/// Text-input appearance variants.
#[derive(Clone, Copy, Debug, PartialEq, Eq, Structural)]
pub enum TextInputStyle {
    Standard,
}

impl Default for TextInputStyle {
    fn default() -> (s: Self)
        ensures
            s == TextInputStyle::Standard,
    {
        TextInputStyle::Standard
    }
}

/// Toggle switch appearance variants.
#[derive(Clone, Copy, Debug, PartialEq, Eq, Structural)]
pub enum TogglerStyle {
    Standard,
}

impl Default for TogglerStyle {
    fn default() -> (s: Self)
        ensures
            s == TogglerStyle::Standard,
    {
        TogglerStyle::Standard
    }
}

} // verus!
