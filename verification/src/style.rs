//! Styles that an element of the panel can carry, and the theme colours
//! they refer to.

use vstd::prelude::*;

verus! {

/// A layer of the theme, from the window's background upwards.
#[derive(Clone, Copy, Debug, PartialEq, Eq, Structural)]
pub enum Layer {
    Lowest,
    Middle,
}

/// A set of styles within a layer.
#[derive(Clone, Copy, Debug, PartialEq, Eq, Structural)]
pub enum StyleSet {
    Base,
    Variant,
    Positive,
}

/// The interaction state that a style of the theme is meant for.
#[derive(Clone, Copy, Debug, PartialEq, Eq, Structural)]
pub enum Interaction {
    Default,
    Hovered,
    Pressed,
}

/// The part of an element that a colour of the theme paints.
#[derive(Clone, Copy, Debug, PartialEq, Eq, Structural)]
pub enum Part {
    Foreground,
    Background,
    Border,
}

/// The place of one colour in a theme. The panel names colours by their
/// place; whoever paints it looks the colour up in the theme in use.
#[derive(Clone, Copy, Debug, PartialEq, Eq, Structural)]
pub struct ThemeColor {
    pub layer: Layer,
    pub set: StyleSet,
    pub state: Interaction,
    pub part: Part,
}

/// A cursor into a scrollable region, shared with whoever scrolls it.
/// The panel only hands it on; `id` tells one cursor from another.
#[derive(Clone, Copy, Debug, PartialEq, Eq, Structural)]
pub struct ScrollState {
    pub id: u64,
}

/// A font family that text can be set in.
#[derive(Clone, Copy, Debug, PartialEq, Eq, Structural)]
pub enum FontFamily {
    ZedSansExtended,
}

impl FontFamily {
    /// The family's name, as a font system knows it.
    pub open spec fn spec_name(self) -> Seq<char> {
        match self {
            FontFamily::ZedSansExtended => "Zed Sans Extended"@,
        }
    }

    /// The family's name, as a font system knows it.
    pub fn name(&self) -> (name: &'static str)
        ensures
            name@ == self.spec_name(),
    {
        match self {
            FontFamily::ZedSansExtended => "Zed Sans Extended",
        }
    }
}

/// One styling step applied to an element.
#[derive(Clone, Copy, Debug, PartialEq, Eq, Structural)]
pub enum Style {
    /// Width of 16rem.
    W64,
    /// Width of 0.875rem.
    W3p5,
    /// Full width of the parent.
    WFull,
    /// Height of 1.75rem.
    H7,
    /// Height of 0.875rem.
    H3p5,
    /// Full height of the parent.
    HFull,
    /// Width and height of 0.875rem.
    Size3p5,
    /// Horizontal padding of 0.5rem.
    Px2,
    /// Vertical padding of 0.5rem.
    Py2,
    /// Bottom padding of 0.25rem.
    Pb1,
    /// Gap of 0.25rem between children.
    Gap1,
    Flex,
    ItemsCenter,
    JustifyBetween,
    /// Small text.
    TextSm,
    /// Fully rounded corners.
    RoundedFull,
    /// A border on every side.
    Border,
    /// A border on the bottom side.
    BorderB,
    /// A border on the top side.
    BorderT,
    BorderColor(ThemeColor),
    TextColor(ThemeColor),
    Fill(ThemeColor),
    Font(FontFamily),
    /// Scrolls vertically on overflow, at the given cursor.
    OverflowYScroll(ScrollState),
}

} // verus!
