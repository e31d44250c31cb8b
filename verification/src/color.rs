use vstd::prelude::*;

verus! {

/// A color with four unsigned 8-bit channels; the alpha channel is opacity.
#[derive(Copy, Clone, Debug, PartialEq, Eq, Structural, Hash)]
pub struct Color {
    pub r: u8,
    pub g: u8,
    pub b: u8,
    pub a: u8,
}

impl Color {
    /// Builds a color from all four channels.
    pub fn rgba(r: u8, g: u8, b: u8, a: u8) -> (c: Color)
        ensures
            c == (Color { r, g, b, a }),
    {
        Color { r, g, b, a }
    }

    /// Builds a fully opaque color from the three color channels.
    pub fn rgb(r: u8, g: u8, b: u8) -> (c: Color)
        ensures
            c == (Color { r, g, b, a: 255u8 }),
    {
        Self::rgba(r, g, b, 255)
    }
}

impl Default for Color {
    /// The default color is opaque black.
    fn default() -> (c: Color)
        ensures
            c == (Color { r: 0u8, g: 0u8, b: 0u8, a: 255u8 }),
    {
        Self::rgb(0, 0, 0)
    }
}

impl From<(u8, u8, u8, u8)> for Color {
    fn from(value: (u8, u8, u8, u8)) -> (c: Color)
        ensures
            c == (Color { r: value.0, g: value.1, b: value.2, a: value.3 }),
    {
        Self::rgba(value.0, value.1, value.2, value.3)
    }
}

impl vstd::std_specs::convert::FromSpecImpl<(u8, u8, u8, u8)> for Color {
    open spec fn obeys_from_spec() -> bool {
        true
    }

    open spec fn from_spec(value: (u8, u8, u8, u8)) -> Color {
        Color { r: value.0, g: value.1, b: value.2, a: value.3 }
    }
}

impl From<(u8, u8, u8)> for Color {
    fn from(value: (u8, u8, u8)) -> (c: Color)
        ensures
            c == (Color { r: value.0, g: value.1, b: value.2, a: 255u8 }),
    {
        Self::rgb(value.0, value.1, value.2)
    }
}

impl vstd::std_specs::convert::FromSpecImpl<(u8, u8, u8)> for Color {
    open spec fn obeys_from_spec() -> bool {
        true
    }

    open spec fn from_spec(value: (u8, u8, u8)) -> Color {
        Color { r: value.0, g: value.1, b: value.2, a: 255u8 }
    }
}

} // verus!
