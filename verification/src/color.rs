//! The two display colors of the monochrome panel, and the byte each one
//! expands to when a region is flooded with a solid color.

use vstd::prelude::*;

verus! {

/// A pixel color of the monochrome panel.
#[derive(Clone, Copy, Debug, PartialEq, Eq, Structural)]
pub enum Color {
    /// A dark pixel.
    Black,
    /// A light pixel.
    White,
}

impl Color {
    /// The byte transmitted for eight pixels of this color when a region is
    /// flooded with a solid fill: every bit set for white, none for black.
    pub open spec fn spec_byte_value(self) -> u8 {
        match self {
            Color::Black => 0x00,
            Color::White => 0xFF,
        }
    }

    /// Returns the solid-fill byte for this color.
    #[verifier::when_used_as_spec(spec_byte_value)]
    pub fn get_byte_value(self) -> (value: u8)
        ensures
            value == self.spec_byte_value(),
    {
        match self {
            Color::Black => 0x00,
            Color::White => 0xFF,
        }
    }
}

} // verus!
