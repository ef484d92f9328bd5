//! Pixel format conversions offered alongside the GL entry points.

use vstd::prelude::*;
use crate::gl_types::{GL_ALPHA, GL_BGR, GL_BGRA, GL_LUMINANCE, GL_LUMINANCE_ALPHA, GL_RED, GL_RG, GL_RGB, GL_RGBA, GLenum, PGL_ONE_ALPHA};
use crate::gl_internal::{spec_format_bpp, spec_rgba_byte, format_bpp, write_rgba_pixel};
use vstd::arithmetic::div_mod::lemma_fundamental_div_mod_converse;

verus! {

/// The formats that [`convert_format_to_packed_rgba`] converts.
pub open spec fn spec_convertible(format: GLenum) -> bool {
    format == PGL_ONE_ALPHA || format == GL_ALPHA || format == GL_LUMINANCE || format == GL_RED
        || format == GL_LUMINANCE_ALPHA || format == GL_RG || format == GL_RGB || format == GL_BGR
        || format == GL_BGRA || format == GL_RGBA
}

/// Byte `k` of the packed RGBA image made from `data` in `format`: RGBA data
/// is copied byte for byte as far as it goes; the other formats convert
/// whole source pixels as far as they go. What the source does not cover is 0.
pub open spec fn spec_packed_byte(format: GLenum, data: Seq<u8>, k: int) -> u8 {
    if format == GL_RGBA {
        if k < data.len() { data[k] } else { 0 }
    } else {
        let i = k / 4;
        let bpp = spec_format_bpp(format);
        if i * bpp + bpp <= data.len() {
            spec_rgba_byte(format, data, i * bpp, k % 4)
        } else {
            0
        }
    }
}

/// Pixel `p` of a packed conversion, when `data` holds the whole source
/// pixel: RGBA is copied as it is; BGRA swaps red and blue, so output red is
/// source byte 2, green byte 1, blue byte 0 and alpha byte 3; BGR does the
/// same with an opaque alpha, and RGB keeps its order with an opaque alpha.
pub proof fn lemma_packed_pixel(data: Seq<u8>, p: int)
    requires
        0 <= p,
    ensures
        4 * p + 4 <= data.len() ==> {
            &&& spec_packed_byte(GL_RGBA, data, 4 * p) == data[4 * p]
            &&& spec_packed_byte(GL_RGBA, data, 4 * p + 1) == data[4 * p + 1]
            &&& spec_packed_byte(GL_RGBA, data, 4 * p + 2) == data[4 * p + 2]
            &&& spec_packed_byte(GL_RGBA, data, 4 * p + 3) == data[4 * p + 3]
            &&& spec_packed_byte(GL_BGRA, data, 4 * p) == data[4 * p + 2]
            &&& spec_packed_byte(GL_BGRA, data, 4 * p + 1) == data[4 * p + 1]
            &&& spec_packed_byte(GL_BGRA, data, 4 * p + 2) == data[4 * p]
            &&& spec_packed_byte(GL_BGRA, data, 4 * p + 3) == data[4 * p + 3]
        },
        3 * p + 3 <= data.len() ==> {
            &&& spec_packed_byte(GL_BGR, data, 4 * p) == data[3 * p + 2]
            &&& spec_packed_byte(GL_BGR, data, 4 * p + 1) == data[3 * p + 1]
            &&& spec_packed_byte(GL_BGR, data, 4 * p + 2) == data[3 * p]
            &&& spec_packed_byte(GL_BGR, data, 4 * p + 3) == 255
            &&& spec_packed_byte(GL_RGB, data, 4 * p) == data[3 * p]
            &&& spec_packed_byte(GL_RGB, data, 4 * p + 1) == data[3 * p + 1]
            &&& spec_packed_byte(GL_RGB, data, 4 * p + 2) == data[3 * p + 2]
            &&& spec_packed_byte(GL_RGB, data, 4 * p + 3) == 255
        },
{
    assert forall|c: int| 0 <= c < 4 implies (4 * p + c) / 4 == p && #[trigger] ((4 * p + c) % 4) == c by {
        lemma_fundamental_div_mod_converse(4 * p + c, 4, p, c);
    }
    assert((4 * p) / 4 == p && (4 * p) % 4 == 0) by {
        lemma_fundamental_div_mod_converse(4 * p, 4, p, 0);
    }
}

/// Convert a `w` by `h` image in `format` to packed RGBA bytes (4 per
/// pixel). The result is empty for a format it does not convert.
pub fn convert_format_to_packed_rgba(data: &[u8], format: GLenum, w: i32, h: i32) -> (out: Vec<u8>)
    requires
        (w as usize) as int * (h as usize) as int * 4 <= usize::MAX,
    ensures
        !spec_convertible(format) ==> out@.len() == 0,
        spec_convertible(format) ==> out@.len() == (w as usize) as int * (h as usize) as int * 4,
        spec_convertible(format) ==> forall|k: int|
            0 <= k < out@.len() ==> #[trigger] out@[k] == spec_packed_byte(format, data@, k),
{
    let wu = w as usize;
    let hu = h as usize;
    assert(wu * hu * 4 <= usize::MAX) by (nonlinear_arith)
        requires
            wu == w as usize,
            hu == h as usize,
            (w as usize) as int * (h as usize) as int * 4 <= usize::MAX,
    ;
    let total_pixels = wu * hu;
    let mut output: Vec<u8> = vec![0u8; total_pixels * 4];
    let data_len = data.len();
    match format {
        GL_RGBA => {
            let total_bytes = total_pixels * 4;
            let copy_len = if total_bytes < data_len {
                total_bytes
            } else {
                data_len
            };
            let mut i: usize = 0;
            while i < copy_len
                invariant
                    copy_len <= total_bytes,
                    copy_len <= data_len,
                    data_len == data@.len(),
                    total_bytes == total_pixels * 4,
                    output@.len() == total_bytes,
                    0 <= i <= copy_len,
                    forall|k: int|
                        0 <= k < total_bytes ==> #[trigger] output@[k] == if k < i {
                            data@[k]
                        } else {
                            0u8
                        },
                decreases copy_len - i,
            {
                output.set(i, data[i]);
                i = i + 1;
            }
            output
        },
        PGL_ONE_ALPHA | GL_ALPHA | GL_LUMINANCE | GL_RED | GL_LUMINANCE_ALPHA | GL_RG | GL_RGB | GL_BGR
        | GL_BGRA => {
            let bpp = format_bpp(format);
            assert(total_pixels == (w as usize) as int * (h as usize) as int);
            let mut i: usize = 0;
            while i < total_pixels
                invariant
                    format != GL_RGBA,
                    spec_convertible(format),
                    total_pixels == (w as usize) as int * (h as usize) as int,
                    bpp == spec_format_bpp(format),
                    1 <= bpp <= 4,
                    data_len == data@.len(),
                    total_pixels * 4 <= usize::MAX,
                    output@.len() == total_pixels * 4,
                    0 <= i <= total_pixels,
                    i * bpp <= data_len,
                    forall|k: int|
                        0 <= k < total_pixels * 4 ==> #[trigger] output@[k] == if k < i * 4 {
                            spec_packed_byte(format, data@, k)
                        } else {
                            0u8
                        },
                decreases total_pixels - i,
            {
                let src = i * bpp;
                if data_len - src < bpp {
                    assert forall|k: int| 0 <= k < total_pixels * 4 implies #[trigger] output@[k]
                        == spec_packed_byte(format, data@, k) by {
                        if k >= i * 4 {
                            let j = k / 4;
                            assert(j >= i);
                            assert(j * bpp >= i * bpp) by (nonlinear_arith)
                                requires
                                    j >= i,
                                    bpp >= 1,
                            ;
                        }
                    }
                    return output;
                }
                assert((i + 1) * 4 <= total_pixels * 4);
                let ghost before = output@;
                write_rgba_pixel(output.as_mut_slice(), i * 4, data, src, format);
                assert forall|k: int| 0 <= k < total_pixels * 4 implies #[trigger] output@[k] == if k
                    < (i + 1) * 4 {
                    spec_packed_byte(format, data@, k)
                } else {
                    0u8
                } by {
                    if i * 4 <= k < i * 4 + 4 {
                        assert(k / 4 == i);
                        assert(k % 4 == k - i * 4);
                    }
                }
                assert((i + 1) * bpp == i * bpp + bpp) by (nonlinear_arith);
                i = i + 1;
            }
            output
        },
        _ => Vec::new(),
    }
}

/// Expand single-channel grey bytes to opaque RGBA pixels, one per byte,
/// as many as `data` holds up to `w * h`.
pub fn convert_grayscale_to_rgba(data: &[u8], w: i32, h: i32) -> (out: Vec<u8>)
    requires
        (w as usize) as int * (h as usize) as int * 4 <= usize::MAX,
    ensures
        out@.len() == 4 * (if ((w as usize) as int * (h as usize) as int) < data@.len() {
            (w as usize) as int * (h as usize) as int
        } else {
            data@.len() as int
        }),
        forall|k: int|
            0 <= k < out@.len() ==> #[trigger] out@[k] == if k % 4 == 3 {
                255u8
            } else {
                data@[k / 4]
            },
{
    let wu = w as usize;
    let hu = h as usize;
    assert(wu * hu * 4 <= usize::MAX) by (nonlinear_arith)
        requires
            wu == w as usize,
            hu == h as usize,
            (w as usize) as int * (h as usize) as int * 4 <= usize::MAX,
    ;
    let total_pixels = wu * hu;
    let data_len = data.len();
    let count = if total_pixels < data_len {
        total_pixels
    } else {
        data_len
    };
    let mut output: Vec<u8> = Vec::with_capacity(count * 4);
    let mut i: usize = 0;
    while i < count
        invariant
            count <= data_len,
            data_len == data@.len(),
            0 <= i <= count,
            output@.len() == 4 * i,
            forall|k: int|
                0 <= k < output@.len() ==> #[trigger] output@[k] == if k % 4 == 3 {
                    255u8
                } else {
                    data@[k / 4]
                },
        decreases count - i,
    {
        let v = data[i];
        output.push(v);
        output.push(v);
        output.push(v);
        output.push(255);
        i = i + 1;
    }
    output
}

/// The channel halfway-rounded from `bg` towards `text` by `t / 255`:
/// `floor(bg + (text - bg) * t / 255 + 1/2)`.
pub open spec fn spec_blend_channel(bg: int, text: int, t: int) -> int {
    (510 * bg + 2 * (text - bg) * t + 255) / 510
}

/// Byte `c` (0 is the highest) of a colour packed as `0xRRGGBBAA`.
pub open spec fn spec_rgba_channel(rgba: u32, c: int) -> int {
    if c == 0 {
        rgba as int / 0x100_0000
    } else if c == 1 {
        (rgba as int / 0x1_0000) % 0x100
    } else if c == 2 {
        (rgba as int / 0x100) % 0x100
    } else {
        rgba as int % 0x100
    }
}

/// One channel of the blend of `bg` towards `text` by `t / 255`.
fn blend_channel(bg: u32, text: u32, t: u8) -> (r: u8)
    requires
        bg < 256,
        text < 256,
    ensures
        r as int == spec_blend_channel(bg as int, text as int, t as int),
{
    let b = bg as i32;
    let d = text as i32 - b;
    let ti = t as i32;
    assert(-65025 <= d * ti <= 65025) by (nonlinear_arith)
        requires
            -255 <= d <= 255,
            0 <= ti <= 255,
    ;
    assert(255 <= 510 * b + 2 * (d * ti) + 255) by (nonlinear_arith)
        requires
            0 <= b <= 255,
            0 <= ti <= 255,
            d >= -b,
            d <= 255 - b,
    ;
    assert((510 * b + 2 * (d * ti) + 255) / 510 <= 255) by (nonlinear_arith)
        requires
            0 <= b <= 255,
            0 <= ti <= 255,
            d <= 255 - b,
            d >= -b,
    ;
    let num = 510 * b + 2 * (d * ti) + 255;
    assert(2 * (d * ti) == 2 * (text as int - bg as int) * (t as int)) by (nonlinear_arith)
        requires
            d == text as int - bg as int,
            ti == t as int,
    ;
    (num / 510) as u8
}

/// Blend each grey byte `t` of `input` from the background colour `bg_rgba`
/// (at 0) to the text colour `text_rgba` (at 255), both packed as
/// `0xRRGGBBAA`, giving one RGBA pixel per input byte. Each channel is
/// `bg + (text - bg) * t / 255` rounded half up.
pub fn convert_grayscale_to_rgba_blend(input: &[u8], bg_rgba: u32, text_rgba: u32) -> (out: Vec<u8>)
    requires
        input@.len() * 4 <= usize::MAX,
    ensures
        out@.len() == input@.len() * 4,
        forall|k: int|
            0 <= k < out@.len() ==> #[trigger] out@[k] as int == spec_blend_channel(
                spec_rgba_channel(bg_rgba, k % 4),
                spec_rgba_channel(text_rgba, k % 4),
                input@[k / 4] as int,
            ),
{
    let bg_r = bg_rgba >> 24u32;
    let bg_g = (bg_rgba >> 16u32) & 0xFF;
    let bg_b = (bg_rgba >> 8u32) & 0xFF;
    let bg_a = bg_rgba & 0xFF;
    let text_r = text_rgba >> 24u32;
    let text_g = (text_rgba >> 16u32) & 0xFF;
    let text_b = (text_rgba >> 8u32) & 0xFF;
    let text_a = text_rgba & 0xFF;
    proof {
        lemma_rgba_channels(bg_rgba);
        lemma_rgba_channels(text_rgba);
    }
    let n = input.len();
    let mut output: Vec<u8> = Vec::with_capacity(n * 4);
    let mut i: usize = 0;
    while i < n
        invariant
            n == input@.len(),
            n * 4 <= usize::MAX,
            0 <= i <= n,
            output@.len() == 4 * i,
            bg_r as int == spec_rgba_channel(bg_rgba, 0),
            bg_g as int == spec_rgba_channel(bg_rgba, 1),
            bg_b as int == spec_rgba_channel(bg_rgba, 2),
            bg_a as int == spec_rgba_channel(bg_rgba, 3),
            text_r as int == spec_rgba_channel(text_rgba, 0),
            text_g as int == spec_rgba_channel(text_rgba, 1),
            text_b as int == spec_rgba_channel(text_rgba, 2),
            text_a as int == spec_rgba_channel(text_rgba, 3),
            bg_r < 256 && bg_g < 256 && bg_b < 256 && bg_a < 256,
            text_r < 256 && text_g < 256 && text_b < 256 && text_a < 256,
            forall|k: int|
                0 <= k < output@.len() ==> #[trigger] output@[k] as int == spec_blend_channel(
                    spec_rgba_channel(bg_rgba, k % 4),
                    spec_rgba_channel(text_rgba, k % 4),
                    input@[k / 4] as int,
                ),
        decreases n - i,
    {
        let t = input[i];
        output.push(blend_channel(bg_r, text_r, t));
        output.push(blend_channel(bg_g, text_g, t));
        output.push(blend_channel(bg_b, text_b, t));
        output.push(blend_channel(bg_a, text_a, t));
        i = i + 1;
    }
    output
}

/// The shift-and-mask forms of the channels of a `0xRRGGBBAA` colour.
proof fn lemma_rgba_channels(v: u32)
    ensures
        (v >> 24u32) as int == spec_rgba_channel(v, 0),
        ((v >> 16u32) & 0xFF) as int == spec_rgba_channel(v, 1),
        ((v >> 8u32) & 0xFF) as int == spec_rgba_channel(v, 2),
        (v & 0xFF) as int == spec_rgba_channel(v, 3),
        v >> 24u32 < 256,
{
    assert(v >> 24u32 == v / 0x100_0000 && (v >> 16u32) & 0xFF == (v / 0x1_0000) % 0x100 && (v >> 8u32)
        & 0xFF == (v / 0x100) % 0x100 && v & 0xFF == v % 0x100 && v >> 24u32 < 256) by (bit_vector);
}

/// A grey level of 0 gives the background channel and 255 the text channel,
/// and every level lands between the two.
pub proof fn lemma_blend_endpoints(bg: int, text: int, t: int)
    requires
        0 <= bg <= 255,
        0 <= text <= 255,
        0 <= t <= 255,
    ensures
        spec_blend_channel(bg, text, 0) == bg,
        spec_blend_channel(bg, text, 255) == text,
        bg <= text ==> bg <= spec_blend_channel(bg, text, t) <= text,
        text <= bg ==> text <= spec_blend_channel(bg, text, t) <= bg,
{
    assert(spec_blend_channel(bg, text, 0) == bg) by (nonlinear_arith)
        requires
            0 <= bg <= 255,
    ;
    assert(spec_blend_channel(bg, text, 255) == text) by (nonlinear_arith)
        requires
            0 <= bg <= 255,
            0 <= text <= 255,
    ;
    assert(bg <= text ==> bg <= spec_blend_channel(bg, text, t) <= text) by (nonlinear_arith)
        requires
            0 <= bg <= 255,
            0 <= text <= 255,
            0 <= t <= 255,
    ;
    assert(text <= bg ==> text <= spec_blend_channel(bg, text, t) <= bg) by (nonlinear_arith)
        requires
            0 <= bg <= 255,
            0 <= text <= 255,
            0 <= t <= 255,
    ;
}

} // verus!
