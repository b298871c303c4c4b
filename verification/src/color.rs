//! Colors: 8 bits per channel, sRGB encoded, alpha premultiplied into the
//! RGB channels.

use vstd::prelude::*;

verus! {

/// An sRGBA color with premultiplied alpha.
#[derive(Clone, Copy, Debug, PartialEq, Eq, Structural)]
pub struct Color32 {
    pub r: u8,
    pub g: u8,
    pub b: u8,
    pub a: u8,
}

impl Color32 {
    /// An opaque color from its red, green and blue channels.
    pub fn from_rgb(r: u8, g: u8, b: u8) -> (c: Color32)
        ensures
            c == (Color32 { r, g, b, a: 255u8 }),
    {
        Color32 { r, g, b, a: 255 }
    }
}

/// An opaque color from a packed `0xRRGGBB` value; bits above the low 24
/// are ignored.
pub fn rgb(packed: i32) -> (c: Color32)
    ensures
        c.r == ((packed >> 16i32) & 0xffi32) as u8,
        c.g == ((packed >> 8i32) & 0xffi32) as u8,
        c.b == (packed & 0xffi32) as u8,
        c.a == 255u8,
{
    proof {
        assert(0 <= ((packed >> 16i32) & 0xffi32) < 256) by (bit_vector);
        assert(0 <= ((packed >> 8i32) & 0xffi32) < 256) by (bit_vector);
        assert(0 <= (packed & 0xffi32) < 256) by (bit_vector);
    }
    Color32::from_rgb(
        ((packed >> 16i32) & 0xffi32) as u8,
        ((packed >> 8i32) & 0xffi32) as u8,
        (packed & 0xffi32) as u8,
    )
}

} // verus!
