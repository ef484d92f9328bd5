//! The 32-bit pixel layout 0xAARRGGBB: blue in the lowest byte, alpha in the highest.

use vstd::prelude::*;
use crate::math::Color;
use crate::gl_internal::{le_u32, byte_of, pack_le, lemma_le_u32};

verus! {

pub const PGL_RED_SHIFT: u32 = 16;
pub const PGL_GREEN_SHIFT: u32 = 8;
pub const PGL_BLUE_SHIFT: u32 = 0;
pub const PGL_ALPHA_SHIFT: u32 = 24;
pub const PGL_RMASK: u32 = 0xFF << 16;
pub const PGL_GMASK: u32 = 0xFF << 8;
pub const PGL_BMASK: u32 = 0xFF << 0;
pub const PGL_AMASK: u32 = 0xFF << 24;
/// Bytes per pixel.
pub const PGL_BPP: usize = 4;

/// The pixel that holds the four channel bytes, red at byte 2, green at
/// byte 1, blue at byte 0 and alpha at byte 3 (byte 0 is the lowest).
pub open spec fn spec_pixel(r: u8, g: u8, b: u8, a: u8) -> int {
    le_u32(b, g, r, a)
}

/// The colour whose channels are the bytes of `p` that this layout assigns them.
pub open spec fn spec_color(p: u32) -> Color {
    Color { r: byte_of(p, 2), g: byte_of(p, 1), b: byte_of(p, 0), a: byte_of(p, 3) }
}

/// Pack four channel bytes into one pixel.
pub fn rgba_to_pixel(r: u8, g: u8, b: u8, a: u8) -> (p: u32)
    ensures
        p as int == spec_pixel(r, g, b, a),
{
    pack_le(b, g, r, a)
}

/// Unpack a pixel into its four channel bytes.
pub fn pixel_to_color(p: u32) -> (c: Color)
    ensures
        c == spec_color(p),
{
    proof {
        lemma_le_u32(p);
    }
    Color::new(
        ((p >> 16u32) & 0xFF) as u8,
        ((p >> 8u32) & 0xFF) as u8,
        ((p >> 0u32) & 0xFF) as u8,
        ((p >> 24u32) & 0xFF) as u8,
    )
}

/// Unpacking a packed colour gives the colour back, and packing an
/// unpacked pixel gives the pixel back: the layout is a bijection between
/// colours and pixels.
pub proof fn lemma_pixel_roundtrip(c: Color, p: u32)
    ensures
        0 <= spec_pixel(c.r, c.g, c.b, c.a) <= u32::MAX,
        spec_color(spec_pixel(c.r, c.g, c.b, c.a) as u32) == c,
        spec_pixel(spec_color(p).r, spec_color(p).g, spec_color(p).b, spec_color(p).a) == p as int,
{
    crate::gl_internal::lemma_le_u32_roundtrip(c.b, c.g, c.r, c.a, p);
}

} // verus!
