//! Colours packed into one `u32` as `0xRRGGBBAA`, and their channels.

use vstd::prelude::*;

verus! {

/// The four channels of a colour, each from 0 to 255.
#[derive(Copy, Clone, Debug, PartialEq, Eq, Structural)]
pub struct Rgba {
    pub r: u8,
    pub g: u8,
    pub b: u8,
    pub a: u8,
}

impl Rgba {
    /// The channels of a packed colour: red in the highest byte, then green,
    /// then blue, and alpha in the lowest.
    pub open spec fn of_hex(hex: u32) -> Rgba {
        Rgba {
            r: (hex / 0x100_0000) as u8,
            g: (hex / 0x1_0000 % 0x100) as u8,
            b: (hex / 0x100 % 0x100) as u8,
            a: (hex % 0x100) as u8,
        }
    }

    /// Takes a packed colour apart into its channels.
    pub fn from_hex(hex: u32) -> (color: Rgba)
        ensures
            color == Rgba::of_hex(hex),
    {
        let r = hex >> 24 & 0xFF;
        let g = hex >> 16 & 0xFF;
        let b = hex >> 8 & 0xFF;
        let a = hex & 0xFF;
        assert(hex >> 24 & 0xFF == hex / 0x100_0000) by (bit_vector);
        assert(hex >> 16 & 0xFF == hex / 0x1_0000 % 0x100) by (bit_vector);
        assert(hex >> 8 & 0xFF == hex / 0x100 % 0x100) by (bit_vector);
        assert(hex & 0xFF == hex % 0x100) by (bit_vector);
        Rgba { r: r as u8, g: g as u8, b: b as u8, a: a as u8 }
    }
}

} // verus!
