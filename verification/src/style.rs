//! How the scrollbars look.
use vstd::prelude::*;
use peniko::Color;

verus! {

/// `peniko::Color`, a 32-bit RGBA color. The library only carries colors
/// through; it never looks into one.
#[verifier::external_type_specification]
#[verifier::external_body]
pub struct ExColor(peniko::Color);

/// The color that `peniko::Color::rgba8` builds from red, green, blue and
/// alpha.
pub uninterp spec fn rgba8_color(r: u8, g: u8, b: u8, a: u8) -> peniko::Color;

/// `peniko::Color::rgba8` builds a color from its four channels. The claim is
/// that the color depends on the four channels alone.
pub assume_specification[ peniko::Color::rgba8 ](r: u8, g: u8, b: u8, a: u8) -> (color:
    peniko::Color)
    ensures
        color == rgba8_color(r, g, b, a),
;

/// Color, corner rounding, thickness, edge-stroke width and visibility of the
/// scrollbars. Values are taken as given: a negative thickness is not refused.
#[derive(Clone, Copy, Debug)]
pub struct ScrollBarStyle {
    pub color: Color,
    pub rounded: bool,
    pub hide: bool,
    pub thickness: i32,
    pub edge_width: i32,
}

/// Style values that, where present, replace those of a `ScrollBarStyle`.
#[derive(Clone, Copy, Debug)]
pub struct StyleOverrides {
    pub color: Option<Color>,
    pub rounded: Option<bool>,
    pub thickness: Option<i32>,
    pub edge_width: Option<i32>,
}

/// Thickness of the bars of the base style, in pixels.
pub const BASE_THICKNESS: i32 = 10;

/// Alpha of the base color: 70% of 255.
pub const BASE_ALPHA: u8 = 179;

impl ScrollBarStyle {
    /// The style with each present override taken over and `hide` kept.
    pub open spec fn overridden(self, by: StyleOverrides) -> ScrollBarStyle {
        ScrollBarStyle {
            color: if let Some(color) = by.color { color } else { self.color },
            rounded: if let Some(rounded) = by.rounded { rounded } else { self.rounded },
            hide: self.hide,
            thickness: if let Some(thickness) = by.thickness { thickness } else { self.thickness },
            edge_width: if let Some(edge_width) = by.edge_width {
                edge_width
            } else {
                self.edge_width
            },
        }
    }

    /// The base style as a value: black at the base alpha, square corners,
    /// the base thickness, no edge stroke, shown.
    pub open spec fn base_style() -> ScrollBarStyle {
        ScrollBarStyle {
            color: rgba8_color(0, 0, 0, BASE_ALPHA),
            rounded: false,
            hide: false,
            thickness: BASE_THICKNESS,
            edge_width: 0,
        }
    }

    /// The base style: translucent black, square corners, ten pixels thick, no
    /// edge stroke, shown.
    pub fn base() -> (style: ScrollBarStyle)
        ensures
            style == Self::base_style(),
    {
        ScrollBarStyle {
            color: Color::rgba8(0, 0, 0, BASE_ALPHA),
            rounded: false,
            hide: false,
            thickness: BASE_THICKNESS,
            edge_width: 0,
        }
    }

    pub fn color(self, color: Color) -> (style: ScrollBarStyle)
        ensures
            style == (ScrollBarStyle { color, ..self }),
    {
        ScrollBarStyle { color, ..self }
    }

    pub fn rounded(self, rounded: bool) -> (style: ScrollBarStyle)
        ensures
            style == (ScrollBarStyle { rounded, ..self }),
    {
        ScrollBarStyle { rounded, ..self }
    }

    pub fn thickness(self, thickness: i32) -> (style: ScrollBarStyle)
        ensures
            style == (ScrollBarStyle { thickness, ..self }),
    {
        ScrollBarStyle { thickness, ..self }
    }

    pub fn edge_width(self, edge_width: i32) -> (style: ScrollBarStyle)
        ensures
            style == (ScrollBarStyle { edge_width, ..self }),
    {
        ScrollBarStyle { edge_width, ..self }
    }

    /// Takes over each value that `by` holds.
    pub fn apply(self, by: StyleOverrides) -> (style: ScrollBarStyle)
        ensures
            style == self.overridden(by),
    {
        ScrollBarStyle {
            color: match by.color {
                Some(color) => color,
                None => self.color,
            },
            rounded: match by.rounded {
                Some(rounded) => rounded,
                None => self.rounded,
            },
            hide: self.hide,
            thickness: match by.thickness {
                Some(thickness) => thickness,
                None => self.thickness,
            },
            edge_width: match by.edge_width {
                Some(edge_width) => edge_width,
                None => self.edge_width,
            },
        }
    }
}

impl StyleOverrides {
    /// No override at all.
    pub fn none() -> (by: StyleOverrides)
        ensures
            by == (StyleOverrides {
                color: None,
                rounded: None,
                thickness: None,
                edge_width: None,
            }),
    {
        StyleOverrides { color: None, rounded: None, thickness: None, edge_width: None }
    }
}

} // verus!
