use vstd::prelude::*;

verus! {

/// An sRGB colour with alpha, eight bits to the channel.
#[derive(Clone, Copy, PartialEq, Eq, Structural, Debug)]
pub struct Color {
    pub r: u8,
    pub g: u8,
    pub b: u8,
    pub a: u8,
}

impl Color {
    /// Opaque white.
    pub open spec fn spec_white() -> Color {
        Color { r: 255, g: 255, b: 255, a: 255 }
    }

    /// Opaque white.
    #[verifier::when_used_as_spec(spec_white)]
    pub fn white() -> (c: Color)
        ensures
            c == Color::spec_white(),
    {
        Color { r: 255, g: 255, b: 255, a: 255 }
    }
}

/// A colour from its four channels.
pub fn srgba(r: u8, g: u8, b: u8, a: u8) -> (c: Color)
    ensures
        c == (Color { r, g, b, a }),
{
    Color { r, g, b, a }
}

/// A grey of lightness `l`.
pub fn gray(l: u8, a: u8) -> (c: Color)
    ensures
        c == (Color { r: l, g: l, b: l, a }),
{
    Color { r: l, g: l, b: l, a }
}

} // verus!
