//! RGBA colours, eight bits per channel.

use vstd::prelude::*;

verus! {

/// A colour with red, green, blue and alpha channels.
#[derive(Clone, Copy, PartialEq, Eq, Structural, Debug)]
pub struct Color {
    pub r: u8,
    pub g: u8,
    pub b: u8,
    pub a: u8,
}

impl Color {
    pub open spec fn spec_new(r: u8, g: u8, b: u8, a: u8) -> Color {
        Color { r, g, b, a }
    }

    /// The colour with the given channels.
    #[verifier::when_used_as_spec(spec_new)]
    pub fn new(r: u8, g: u8, b: u8, a: u8) -> (color: Color)
        ensures
            color == Color::spec_new(r, g, b, a),
    {
        Color { r, g, b, a }
    }

    pub open spec fn spec_black() -> Color {
        Color { r: 0, g: 0, b: 0, a: 255 }
    }

    /// Opaque black.
    #[verifier::when_used_as_spec(spec_black)]
    pub fn black() -> (color: Color)
        ensures
            color == Color::spec_black(),
    {
        Color { r: 0, g: 0, b: 0, a: 255 }
    }

    pub open spec fn spec_white() -> Color {
        Color { r: 255, g: 255, b: 255, a: 255 }
    }

    /// Opaque white.
    #[verifier::when_used_as_spec(spec_white)]
    pub fn white() -> (color: Color)
        ensures
            color == Color::spec_white(),
    {
        Color { r: 255, g: 255, b: 255, a: 255 }
    }

    pub open spec fn spec_blank() -> Color {
        Color { r: 0, g: 0, b: 0, a: 0 }
    }

    /// Fully transparent black.
    #[verifier::when_used_as_spec(spec_blank)]
    pub fn blank() -> (color: Color)
        ensures
            color == Color::spec_blank(),
    {
        Color { r: 0, g: 0, b: 0, a: 0 }
    }

    pub open spec fn spec_yellow() -> Color {
        Color { r: 255, g: 255, b: 0, a: 255 }
    }

    /// Opaque yellow.
    #[verifier::when_used_as_spec(spec_yellow)]
    pub fn yellow() -> (color: Color)
        ensures
            color == Color::spec_yellow(),
    {
        Color { r: 255, g: 255, b: 0, a: 255 }
    }
}

} // verus!
