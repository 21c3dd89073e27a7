use vstd::prelude::*;

verus! {

/// An RGBA color.
#[derive(Copy, Clone, PartialEq, Eq, Structural, Debug)]
pub struct Color {
    /// The red component.
    pub r: u8,
    /// The green component.
    pub g: u8,
    /// The blue component.
    pub b: u8,
    /// The alpha component.
    pub a: u8,
}

impl Color {
    /// Creates a new opaque [`Color`] with RGB components.
    pub fn rgb(r: u8, g: u8, b: u8) -> (c: Self)
        ensures
            c == (Color { r, g, b, a: 255 }),
    {
        Self { r, g, b, a: 255 }
    }

    /// Creates a new [`Color`] with RGBA components.
    pub fn rgba(r: u8, g: u8, b: u8, a: u8) -> (c: Self)
        ensures
            c == (Color { r, g, b, a }),
    {
        Self { r, g, b, a }
    }
}

} // verus!
