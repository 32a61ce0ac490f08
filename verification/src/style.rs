//! Stroke styling for shapes: an RGBA color and a stroke-width class.
//!
//! A style is a small copyable value. The tool keeps the currently active
//! style and copies it into each shape when the shape is created, so a
//! shape's appearance is frozen against later style changes. Mapping the
//! width class to a concrete line width, and the color channels to the
//! backend's unit-interval channels, is the rendering host's business.

use vstd::prelude::*;

verus! {

/// A stroke color: red, green, blue and alpha channels, each in `0..=255`.
#[derive(Clone, Copy, Debug, PartialEq, Eq, Structural)]
pub struct Color {
    pub r: u8,
    pub g: u8,
    pub b: u8,
    pub a: u8,
}

impl Color {
    pub fn new(r: u8, g: u8, b: u8, a: u8) -> (c: Self)
        ensures
            c == (Color { r, g, b, a }),
    {
        Color { r, g, b, a }
    }
}

/// A stroke-width class; the rendering host maps each class to a line width.
#[derive(Clone, Copy, Debug, PartialEq, Eq, Structural)]
pub enum Size {
    Small,
    Medium,
    Large,
}

/// The visual attributes applied to a shape: stroke color and width class.
#[derive(Clone, Copy, Debug, PartialEq, Eq, Structural)]
pub struct Style {
    pub color: Color,
    pub size: Size,
}

impl Style {
    /// The style a fresh tool starts with: an opaque red stroke of medium width.
    pub open spec fn spec_default() -> Style {
        Style { color: Color { r: 255, g: 0, b: 0, a: 255 }, size: Size::Medium }
    }
}

impl Default for Style {
    fn default() -> (s: Self)
        ensures
            s == Style::spec_default(),
    {
        Style { color: Color { r: 255, g: 0, b: 0, a: 255 }, size: Size::Medium }
    }
}

} // verus!
