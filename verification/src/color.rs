//! Colours, as the presentation layer is to show them.

use vstd::prelude::*;

verus! {

/// A colour with its red, green, blue and alpha channels in hundredths, from
/// 0 (none) to 100 (full).
#[derive(Clone, Copy, Debug, PartialEq, Eq, Structural)]
pub struct Color {
    pub r: u8,
    pub g: u8,
    pub b: u8,
    pub a: u8,
}

impl Color {
    pub open spec fn rgba(r: u8, g: u8, b: u8, a: u8) -> Color {
        Color { r, g, b, a }
    }

    pub open spec fn opaque_white() -> Color {
        Color { r: 100, g: 100, b: 100, a: 100 }
    }

    pub open spec fn opaque_green() -> Color {
        Color { r: 0, g: 100, b: 0, a: 100 }
    }

    pub open spec fn opaque_yellow() -> Color {
        Color { r: 100, g: 100, b: 0, a: 100 }
    }

    pub open spec fn opaque_red() -> Color {
        Color { r: 100, g: 0, b: 0, a: 100 }
    }

    /// The colour with the given channels, each in hundredths.
    #[verifier::when_used_as_spec(rgba)]
    pub fn new(r: u8, g: u8, b: u8, a: u8) -> (color: Color)
        ensures
            color == Color::rgba(r, g, b, a),
    {
        Color { r, g, b, a }
    }

    /// Opaque white.
    #[verifier::when_used_as_spec(opaque_white)]
    pub fn white() -> (color: Color)
        ensures
            color == Color::opaque_white(),
    {
        Color { r: 100, g: 100, b: 100, a: 100 }
    }

    /// Opaque green.
    #[verifier::when_used_as_spec(opaque_green)]
    pub fn green() -> (color: Color)
        ensures
            color == Color::opaque_green(),
    {
        Color { r: 0, g: 100, b: 0, a: 100 }
    }

    /// Opaque yellow.
    #[verifier::when_used_as_spec(opaque_yellow)]
    pub fn yellow() -> (color: Color)
        ensures
            color == Color::opaque_yellow(),
    {
        Color { r: 100, g: 100, b: 0, a: 100 }
    }

    /// Opaque red.
    #[verifier::when_used_as_spec(opaque_red)]
    pub fn red() -> (color: Color)
        ensures
            color == Color::opaque_red(),
    {
        Color { r: 100, g: 0, b: 0, a: 100 }
    }
}

} // verus!
