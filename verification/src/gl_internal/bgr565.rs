//! The 16-bit 5-6-5 pixel layout with blue in the top five bits, red in the bottom five; alpha is not stored.

use vstd::prelude::*;
use crate::math::Color;

verus! {

pub const PGL_RED_SHIFT_565: u32 = 0;
pub const PGL_GREEN_SHIFT_565: u32 = 5;
pub const PGL_BLUE_SHIFT_565: u32 = 11;
/// Bytes per pixel.
pub const PGL_BPP: usize = 2;

/// The pixel holding the top five bits of red, the top six of green and
/// the top five of blue.
pub open spec fn spec_pixel(r: u8, g: u8, b: u8) -> int {
    (r as int / 8) * 1 + (g as int / 4) * 0x20 + (b as int / 8) * 0x800
}

/// A 5-bit channel widened to 8 bits by repeating its top bits below it.
pub open spec fn widen5(v: int) -> int {
    v * 8 + v / 4
}

/// A 6-bit channel widened to 8 bits by repeating its top bits below it.
pub open spec fn widen6(v: int) -> int {
    v * 4 + v / 16
}

/// The opaque colour that pixel `p` stands for.
pub open spec fn spec_color(p: u32) -> Color {
    Color {
        r: widen5((p as int / 1) % 32) as u8,
        g: widen6((p as int / 0x20) % 64) as u8,
        b: widen5((p as int / 0x800) % 32) as u8,
        a: 255,
    }
}

/// Pack a colour into a 5-6-5 pixel; alpha is dropped.
pub fn rgba_to_pixel(r: u8, g: u8, b: u8, _a: u8) -> (p: u32)
    ensures
        p as int == spec_pixel(r, g, b),
{
    let r5 = ((r as u32) >> 3u32) & 0x1F;
    let g6 = ((g as u32) >> 2u32) & 0x3F;
    let b5 = ((b as u32) >> 3u32) & 0x1F;
    let p = (r5 << 0u32) | (g6 << 5u32) | (b5 << 11u32);
    assert(p == ((r as u32) / 8) * 1 + ((g as u32) / 4) * 0x20 + ((b as u32) / 8) * 0x800) by (bit_vector)
        requires
            r5 == ((r as u32) >> 3u32) & 0x1F,
            g6 == ((g as u32) >> 2u32) & 0x3F,
            b5 == ((b as u32) >> 3u32) & 0x1F,
            p == (r5 << 0u32) | (g6 << 5u32) | (b5 << 11u32),
            r < 256, g < 256, b < 256,
    ;
    p
}

/// Unpack a 5-6-5 pixel into an opaque colour.
pub fn pixel_to_color(p: u32) -> (c: Color)
    ensures
        c == spec_color(p),
{
    let r5 = ((p >> 0u32) & 0x1F) as u8;
    let g6 = ((p >> 5u32) & 0x3F) as u8;
    let b5 = ((p >> 11u32) & 0x1F) as u8;
    assert(((p >> 0u32) & 0x1F) == (p / 1) % 32 && ((p >> 5u32) & 0x3F) == (p / 0x20) % 64
        && ((p >> 11u32) & 0x1F) == (p / 0x800) % 32) by (bit_vector);
    assert((r5 << 3u8) | (r5 >> 2u8) == r5 * 8 + r5 / 4 && (g6 << 2u8) | (g6 >> 4u8) == g6 * 4 + g6 / 16
        && (b5 << 3u8) | (b5 >> 2u8) == b5 * 8 + b5 / 4) by (bit_vector)
        requires
            r5 < 32, g6 < 64, b5 < 32,
    ;
    Color::new((r5 << 3u8) | (r5 >> 2u8), (g6 << 2u8) | (g6 >> 4u8), (b5 << 3u8) | (b5 >> 2u8), 255)
}

/// Unpacking a 16-bit pixel and packing the colour again gives the pixel
/// back; packing is idempotent on colours that came from a pixel.
pub proof fn lemma_pixel_roundtrip(p: u32)
    requires
        p < 0x1_0000,
    ensures
        spec_pixel(spec_color(p).r, spec_color(p).g, spec_color(p).b) == p as int,
{
    let r5 = (p as int / 1) % 32;
    let g6 = (p as int / 0x20) % 64;
    let b5 = (p as int / 0x800) % 32;
    assert(widen5(r5) / 8 == r5);
    assert(widen6(g6) / 4 == g6);
    assert(widen5(b5) / 8 == b5);
    assert(p as int == r5 * 1 + g6 * 0x20 + b5 * 0x800);
}

} // verus!
