//! Visual attributes authored per element. Style is opaque to layout: the
//! engine copies it through untouched and it contributes no layout math.
//! Colour channels and opacity are 8-bit values (255 = full intensity);
//! lengths and angles are whole units.

use vstd::prelude::*;

verus! {

/// The authored visual attributes of one element.
#[derive(Debug, Clone, Copy, PartialEq)]
pub struct StyleSheet {
    pub rotate: i64,
    pub opacity: u8,
    pub background_colour: Colour,
    pub font_size: i64,
    pub font_weight: i64,
    pub font_colour: Colour,
    pub border_weight: i64,
    pub border_colour: Colour,
    pub border_radius: BorderRadius,
}

/// The resolved visual attributes of one element; same shape as the
/// authored ones, since styling applies no cascade yet.
#[derive(Debug, Clone, Copy, PartialEq)]
pub struct ComputedStyle {
    pub rotate: i64,
    pub opacity: u8,
    pub background_colour: Colour,
    pub font_size: i64,
    pub font_weight: i64,
    pub font_colour: Colour,
    pub border_weight: i64,
    pub border_colour: Colour,
    pub border_radius: BorderRadius,
}

/// A choice of base style sheet.
#[derive(Debug, Clone, Copy, PartialEq)]
pub enum Theme {
    Light(StyleSheet),
    Dark(StyleSheet),
    Custom(StyleSheet),
}

impl StyleSheet {
    /// The light base style: white background, black text and borders.
    pub open spec fn spec_light() -> StyleSheet {
        StyleSheet {
            rotate: 0,
            opacity: 255,
            background_colour: Colour::spec_white(),
            font_size: 16,
            font_weight: 600,
            font_colour: Colour::spec_black(),
            border_weight: 0,
            border_colour: Colour::spec_black(),
            border_radius: BorderRadius { top_right: 0, bottom_right: 0, bottom_left: 0, top_left: 0 },
        }
    }

    /// The dark base style: black background, white text and borders.
    pub open spec fn spec_dark() -> StyleSheet {
        StyleSheet {
            rotate: 0,
            opacity: 255,
            background_colour: Colour::spec_black(),
            font_size: 16,
            font_weight: 600,
            font_colour: Colour::spec_white(),
            border_weight: 0,
            border_colour: Colour::spec_white(),
            border_radius: BorderRadius { top_right: 0, bottom_right: 0, bottom_left: 0, top_left: 0 },
        }
    }

    pub fn light() -> (r: Self)
        ensures
            r == Self::spec_light(),
    {
        Self {
            rotate: 0,
            opacity: 255,
            background_colour: Colour::white(),
            font_size: 16,
            font_weight: 600,
            font_colour: Colour::black(),
            border_weight: 0,
            border_colour: Colour::black(),
            border_radius: BorderRadius::none(),
        }
    }

    pub fn dark() -> (r: Self)
        ensures
            r == Self::spec_dark(),
    {
        Self {
            rotate: 0,
            opacity: 255,
            background_colour: Colour::black(),
            font_size: 16,
            font_weight: 600,
            font_colour: Colour::white(),
            border_weight: 0,
            border_colour: Colour::white(),
            border_radius: BorderRadius::none(),
        }
    }
}

/// Corner rounding radii, one per corner.
#[derive(Debug, Clone, Copy, PartialEq)]
pub struct BorderRadius {
    pub top_right: i64,
    pub bottom_right: i64,
    pub bottom_left: i64,
    pub top_left: i64,
}

impl BorderRadius {
    pub fn new(top_right: i64, bottom_right: i64, bottom_left: i64, top_left: i64) -> (r: Self)
        ensures
            r.top_right == top_right,
            r.bottom_right == bottom_right,
            r.bottom_left == bottom_left,
            r.top_left == top_left,
    {
        Self { top_right, bottom_right, bottom_left, top_left }
    }

    pub fn none() -> (r: Self)
        ensures
            r.top_right == 0,
            r.bottom_right == 0,
            r.bottom_left == 0,
            r.top_left == 0,
    {
        Self { top_right: 0, bottom_right: 0, bottom_left: 0, top_left: 0 }
    }
}

/// An opaque RGB colour with 8-bit channels.
#[derive(Debug, Clone, Copy, PartialEq)]
pub struct Colour {
    pub r: u8,
    pub g: u8,
    pub b: u8,
}

impl Colour {
    pub open spec fn spec_white() -> Colour {
        Colour { r: 255, g: 255, b: 255 }
    }

    pub open spec fn spec_black() -> Colour {
        Colour { r: 0, g: 0, b: 0 }
    }

    pub fn new(r: u8, g: u8, b: u8) -> (c: Self)
        ensures
            c.r == r,
            c.g == g,
            c.b == b,
    {
        Self { r, g, b }
    }

    pub fn white() -> (c: Self)
        ensures
            c == Self::spec_white(),
    {
        Self { r: 255, g: 255, b: 255 }
    }

    pub fn black() -> (c: Self)
        ensures
            c == Self::spec_black(),
    {
        Self { r: 0, g: 0, b: 0 }
    }
}

} // verus!
