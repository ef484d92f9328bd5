//! Pixel and depth/stencil encodings, the per-fragment tests (depth,
//! stencil, logic operations) and texture format conversion.
//!
//! Each pixel layout and each depth/stencil layout has a module of its own;
//! the renderer is built with one of each.

pub mod abgr32;
pub mod rgba32;
pub mod argb32;
pub mod bgra32;
pub mod rgb565;
pub mod bgr565;
pub mod d24s8;
pub mod d16;
pub mod no_depth;

use vstd::prelude::*;
use crate::gl_types::{GL_BYTE, GL_DOUBLE, GL_SHORT, GL_UNSIGNED_BYTE, GL_UNSIGNED_SHORT, GLsizei, GlVertexAttrib};
use crate::gl_types::{GL_ALPHA, GL_ALWAYS, GL_AND, GL_AND_INVERTED, GL_AND_REVERSE, GL_BGR, GL_BGRA, GL_CLEAR, GL_COPY, GL_COPY_INVERTED, GL_DECR, GL_DECR_WRAP, GL_EQUAL, GL_EQUIV, GL_GEQUAL, GL_GREATER, GL_INCR, GL_INCR_WRAP, GL_INVERT, GL_KEEP, GL_LEQUAL, GL_LESS, GL_LUMINANCE, GL_LUMINANCE_ALPHA, GL_NAND, GL_NEVER, GL_NOOP, GL_NOR, GL_NOTEQUAL, GL_OR, GL_OR_INVERTED, GL_OR_REVERSE, GL_RED, GL_REPLACE, GL_RG, GL_RGB, GL_SET, GL_XOR, GL_ZERO, GLenum, GLint, GLuint, PGL_ONE_ALPHA};

verus! {

/// The little-endian value of four bytes, `b0` lowest.
pub open spec fn le_u32(b0: u8, b1: u8, b2: u8, b3: u8) -> int {
    b0 as int + (b1 as int) * 0x100 + (b2 as int) * 0x1_0000 + (b3 as int) * 0x100_0000
}

/// The little-endian value of two bytes, `b0` lowest.
pub open spec fn le_u16(b0: u8, b1: u8) -> int {
    b0 as int + (b1 as int) * 0x100
}

/// Byte `k` (0 is the lowest) of `p`.
pub open spec fn byte_of(p: u32, k: int) -> u8 {
    if k == 0 {
        (p % 0x100) as u8
    } else if k == 1 {
        ((p / 0x100) % 0x100) as u8
    } else if k == 2 {
        ((p / 0x1_0000) % 0x100) as u8
    } else {
        ((p / 0x100_0000) % 0x100) as u8
    }
}

/// The shift-and-mask forms of the bytes of `p`.
pub proof fn lemma_le_u32(p: u32)
    ensures
        (p >> 0u32) & 0xFF == byte_of(p, 0),
        (p >> 8u32) & 0xFF == byte_of(p, 1),
        (p >> 16u32) & 0xFF == byte_of(p, 2),
        (p >> 24u32) & 0xFF == byte_of(p, 3),
{
    assert((p >> 0u32) & 0xFF == p % 0x100 && (p >> 8u32) & 0xFF == (p / 0x100) % 0x100
        && (p >> 16u32) & 0xFF == (p / 0x1_0000) % 0x100 && (p >> 24u32) & 0xFF == (p / 0x100_0000)
        % 0x100) by (bit_vector);
}

/// Four bytes and their little-endian value determine each other.
pub proof fn lemma_le_u32_roundtrip(b0: u8, b1: u8, b2: u8, b3: u8, p: u32)
    ensures
        0 <= le_u32(b0, b1, b2, b3) <= u32::MAX,
        byte_of(le_u32(b0, b1, b2, b3) as u32, 0) == b0,
        byte_of(le_u32(b0, b1, b2, b3) as u32, 1) == b1,
        byte_of(le_u32(b0, b1, b2, b3) as u32, 2) == b2,
        byte_of(le_u32(b0, b1, b2, b3) as u32, 3) == b3,
        le_u32(byte_of(p, 0), byte_of(p, 1), byte_of(p, 2), byte_of(p, 3)) == p as int,
{
    let x = le_u32(b0, b1, b2, b3) as u32;
    assert(x as int == le_u32(b0, b1, b2, b3));
    assert(x % 0x100 == b0 as u32 && (x / 0x100) % 0x100 == b1 as u32 && (x / 0x1_0000) % 0x100
        == b2 as u32 && (x / 0x100_0000) % 0x100 == b3 as u32) by (bit_vector)
        requires
            x == b0 as u32 + (b1 as u32) * 0x100 + (b2 as u32) * 0x1_0000 + (b3 as u32) * 0x100_0000,
    ;
    assert(p == p % 0x100 + ((p / 0x100) % 0x100) * 0x100 + ((p / 0x1_0000) % 0x100) * 0x1_0000
        + ((p / 0x100_0000) % 0x100) * 0x100_0000) by (bit_vector);
}

/// The 32-bit value whose little-endian bytes are `b0..b3`.
pub fn pack_le(b0: u8, b1: u8, b2: u8, b3: u8) -> (p: u32)
    ensures
        p as int == le_u32(b0, b1, b2, b3),
{
    let p = ((b3 as u32) << 24u32) | ((b2 as u32) << 16u32) | ((b1 as u32) << 8u32) | (b0 as u32);
    assert(p == b0 as u32 + (b1 as u32) * 0x100 + (b2 as u32) * 0x1_0000 + (b3 as u32) * 0x100_0000)
        by (bit_vector)
        requires
            p == ((b3 as u32) << 24u32) | ((b2 as u32) << 16u32) | ((b1 as u32) << 8u32) | (b0 as u32),
    ;
    p
}

/// Entry `idx` of a buffer of 4-byte little-endian entries, or 0 where the buffer holds no
/// whole entry at `idx`.
pub open spec fn spec_entry32(buf: Seq<u8>, idx: int) -> u32 {
    if 0 <= idx && idx * 4 + 4 <= buf.len() {
        le_u32(buf[idx * 4], buf[idx * 4 + 1], buf[idx * 4 + 2], buf[idx * 4 + 3]) as u32
    } else {
        0
    }
}

/// The buffer with entry `idx` replaced by `val`, unchanged where the
/// buffer holds no whole entry at `idx`.
pub open spec fn spec_store32(buf: Seq<u8>, idx: int, val: u32) -> Seq<u8> {
    if 0 <= idx && idx * 4 + 4 <= buf.len() {
        buf.update(idx * 4, byte_of(val, 0)).update(idx * 4 + 1, byte_of(val, 1)).update(
            idx * 4 + 2,
            byte_of(val, 2),
        ).update(idx * 4 + 3, byte_of(val, 3))
    } else {
        buf
    }
}

/// Read entry `idx` of a buffer of 4-byte little-endian entries.
pub fn read_entry32(buf: &Vec<u8>, idx: usize) -> (v: u32)
    ensures
        v == spec_entry32(buf@, idx as int),
{
    if idx >= buf.len() / 4 {
        return 0;
    }
    let off = idx * 4;
    pack_le(buf[off], buf[off + 1], buf[off + 2], buf[off + 3])
}

/// Write entry `idx` of a buffer of 4-byte little-endian entries.
pub fn write_entry32(buf: &mut Vec<u8>, idx: usize, val: u32)
    ensures
        final(buf)@ == spec_store32(old(buf)@, idx as int, val),
{
    if idx >= buf.len() / 4 {
        return;
    }
    let off = idx * 4;
    proof {
        lemma_le_u32(val);
    }
    buf.set(off, (val & 0xFF) as u8);
    buf.set(off + 1, ((val >> 8u32) & 0xFF) as u8);
    buf.set(off + 2, ((val >> 16u32) & 0xFF) as u8);
    buf.set(off + 3, ((val >> 24u32) & 0xFF) as u8);
    assert(val & 0xFF == (val >> 0u32) & 0xFF) by (bit_vector);
}

/// Reading an entry back gives what was written there; the other entries
/// keep their values.
pub proof fn lemma_write_then_read(buf: Seq<u8>, idx: int, other: int, val: u32)
    requires
        0 <= idx,
        idx * 4 + 4 <= buf.len(),
    ensures
        spec_entry32(spec_store32(buf, idx, val), idx) == val,
        other != idx ==> spec_entry32(spec_store32(buf, idx, val), other)
            == spec_entry32(buf, other),
{
    lemma_le_u32_roundtrip(0, 0, 0, 0, val);
    let nb = spec_store32(buf, idx, val);
    assert(nb.len() == buf.len());
    if other != idx && 0 <= other && other * 4 + 4 <= buf.len() {
        assert(other < idx || other > idx);
        assert(nb[other * 4] == buf[other * 4]);
        assert(nb[other * 4 + 1] == buf[other * 4 + 1]);
        assert(nb[other * 4 + 2] == buf[other * 4 + 2]);
        assert(nb[other * 4 + 3] == buf[other * 4 + 3]);
    }
}

/// Entry `idx` of a buffer of 2-byte little-endian entries, or 0 where the buffer holds no whole
/// entry at `idx`.
pub open spec fn spec_entry16(buf: Seq<u8>, idx: int) -> u32 {
    if 0 <= idx && idx * 2 + 2 <= buf.len() {
        le_u16(buf[idx * 2], buf[idx * 2 + 1]) as u32
    } else {
        0
    }
}

/// The buffer with entry `idx` replaced by the low 16 bits of `val`,
/// unchanged where the buffer holds no whole entry at `idx`.
pub open spec fn spec_store16(buf: Seq<u8>, idx: int, val: u32) -> Seq<u8> {
    if 0 <= idx && idx * 2 + 2 <= buf.len() {
        buf.update(idx * 2, byte_of(val, 0)).update(idx * 2 + 1, byte_of(val, 1))
    } else {
        buf
    }
}

/// Read entry `idx` of a buffer of 2-byte little-endian entries.
pub fn read_entry16(buf: &Vec<u8>, idx: usize) -> (v: u32)
    ensures
        v == spec_entry16(buf@, idx as int),
{
    if idx >= buf.len() / 2 {
        return 0;
    }
    let off = idx * 2;
    let b0 = buf[off];
    let b1 = buf[off + 1];
    let v = (b0 as u32) | ((b1 as u32) << 8u32);
    assert(v == b0 as u32 + (b1 as u32) * 0x100) by (bit_vector)
        requires
            v == (b0 as u32) | ((b1 as u32) << 8u32),
    ;
    v
}

/// Write the low 16 bits of `val` to entry `idx` of a buffer of 2-byte little-endian entries.
pub fn write_entry16(buf: &mut Vec<u8>, idx: usize, val: u32)
    ensures
        final(buf)@ == spec_store16(old(buf)@, idx as int, val),
{
    if idx >= buf.len() / 2 {
        return;
    }
    let off = idx * 2;
    proof {
        lemma_le_u32(val);
    }
    assert(val & 0xFF == (val >> 0u32) & 0xFF) by (bit_vector);
    buf.set(off, (val & 0xFF) as u8);
    buf.set(off + 1, ((val >> 8u32) & 0xFF) as u8);
}


// ---------------------------------------------------------------------------
// Back buffer pixels
// ---------------------------------------------------------------------------

/// Pixel `idx` of a back buffer whose pixels are `bpp` bytes wide (4 for the
/// 32-bit layouts, 2 for the 5-6-5 layouts), or 0 past its end.
pub open spec fn spec_backbuf_pixel(buf: Seq<u8>, idx: int, bpp: usize) -> u32 {
    if bpp == 4 {
        spec_entry32(buf, idx)
    } else {
        spec_entry16(buf, idx)
    }
}

/// The back buffer with pixel `idx` replaced by `val`.
pub open spec fn spec_store_backbuf_pixel(buf: Seq<u8>, idx: int, val: u32, bpp: usize) -> Seq<u8> {
    if bpp == 4 {
        spec_store32(buf, idx, val)
    } else {
        spec_store16(buf, idx, val)
    }
}

/// Read pixel `idx` of the back buffer.
pub fn read_backbuf_pixel(buf: &Vec<u8>, idx: usize, bpp: usize) -> (v: u32)
    requires
        bpp == 4 || bpp == 2,
    ensures
        v == spec_backbuf_pixel(buf@, idx as int, bpp),
{
    if bpp == 4 {
        read_entry32(buf, idx)
    } else {
        read_entry16(buf, idx)
    }
}

/// Write pixel `idx` of the back buffer; nothing is written past its end.
pub fn write_backbuf_pixel(buf: &mut Vec<u8>, idx: usize, val: u32, bpp: usize)
    requires
        bpp == 4 || bpp == 2,
    ensures
        final(buf)@ == spec_store_backbuf_pixel(old(buf)@, idx as int, val, bpp),
{
    if bpp == 4 {
        write_entry32(buf, idx, val)
    } else {
        write_entry16(buf, idx, val)
    }
}

// ---------------------------------------------------------------------------
// Depth test, stencil test and operations, logic operations
// ---------------------------------------------------------------------------

/// Whether `zval` passes the depth comparison `depth_func` against the stored
/// `zbufval`; an unknown function passes.
pub open spec fn spec_depthtest(zval: u32, zbufval: u32, depth_func: GLenum) -> bool {
    if depth_func == GL_LESS {
        zval < zbufval
    } else if depth_func == GL_LEQUAL {
        zval <= zbufval
    } else if depth_func == GL_GREATER {
        zval > zbufval
    } else if depth_func == GL_GEQUAL {
        zval >= zbufval
    } else if depth_func == GL_EQUAL {
        zval == zbufval
    } else if depth_func == GL_NOTEQUAL {
        zval != zbufval
    } else if depth_func == GL_NEVER {
        false
    } else {
        true
    }
}

/// Each depth function compares the incoming depth `z` with the stored
/// depth `zb` as its name says: `GL_LESS` passes exactly when `z < zb`,
/// `GL_GREATER` exactly when `z > zb`, and so on; `GL_NEVER` never passes and
/// `GL_ALWAYS` always does. Swapping the two depths turns `GL_GREATER` into
/// `GL_LESS`, and each function fails exactly where its opposite passes.
pub proof fn lemma_depth_order(z: u32, zb: u32)
    ensures
        spec_depthtest(z, zb, GL_LESS) <==> z < zb,
        spec_depthtest(z, zb, GL_LEQUAL) <==> z <= zb,
        spec_depthtest(z, zb, GL_GREATER) <==> z > zb,
        spec_depthtest(z, zb, GL_GEQUAL) <==> z >= zb,
        spec_depthtest(z, zb, GL_EQUAL) <==> z == zb,
        spec_depthtest(z, zb, GL_NOTEQUAL) <==> z != zb,
        !spec_depthtest(z, zb, GL_NEVER),
        spec_depthtest(z, zb, GL_ALWAYS),
        spec_depthtest(z, zb, GL_GREATER) == spec_depthtest(zb, z, GL_LESS),
        spec_depthtest(z, zb, GL_GEQUAL) == spec_depthtest(zb, z, GL_LEQUAL),
        spec_depthtest(z, zb, GL_GREATER) == !spec_depthtest(z, zb, GL_LEQUAL),
        spec_depthtest(z, zb, GL_GEQUAL) == !spec_depthtest(z, zb, GL_LESS),
        spec_depthtest(z, zb, GL_EQUAL) == !spec_depthtest(z, zb, GL_NOTEQUAL),
{
}

/// Converting a source pixel at `input[i..]` to RGBA puts each channel
/// where its format keeps it: RGB and RGBA keep the byte order, BGR and BGRA
/// take red from source byte 2, green from byte 1 and blue from byte 0
/// (alpha from byte 3 for BGRA, opaque for the three-byte formats).
pub proof fn lemma_rgba_channel_order(input: Seq<u8>, i: int)
    ensures
        spec_rgba_byte(GL_BGRA, input, i, 0) == input[i + 2],
        spec_rgba_byte(GL_BGRA, input, i, 1) == input[i + 1],
        spec_rgba_byte(GL_BGRA, input, i, 2) == input[i],
        spec_rgba_byte(GL_BGRA, input, i, 3) == input[i + 3],
        spec_rgba_byte(GL_BGR, input, i, 0) == input[i + 2],
        spec_rgba_byte(GL_BGR, input, i, 1) == input[i + 1],
        spec_rgba_byte(GL_BGR, input, i, 2) == input[i],
        spec_rgba_byte(GL_BGR, input, i, 3) == 255,
        spec_rgba_byte(GL_RGB, input, i, 0) == input[i],
        spec_rgba_byte(GL_RGB, input, i, 1) == input[i + 1],
        spec_rgba_byte(GL_RGB, input, i, 2) == input[i + 2],
        spec_rgba_byte(GL_RGB, input, i, 3) == 255,
        forall|c: int| 0 <= c < 3 ==> #[trigger] spec_rgba_byte(GL_BGRA, input, i, c) == spec_rgba_byte(
            GL_BGR,
            input,
            i,
            c,
        ),
        forall|c: int| 0 <= c < 3 ==> #[trigger] spec_rgba_byte(GL_BGR, input, i, c) == spec_rgba_byte(
            GL_RGB,
            input,
            i,
            2 - c,
        ),
{
}

/// Compare depth values with the given depth function.
pub fn depthtest(zval: u32, zbufval: u32, depth_func: GLenum) -> (r: bool)
    ensures
        r == spec_depthtest(zval, zbufval, depth_func),
{
    match depth_func {
        GL_LESS => zval < zbufval,
        GL_LEQUAL => zval <= zbufval,
        GL_GREATER => zval > zbufval,
        GL_GEQUAL => zval >= zbufval,
        GL_EQUAL => zval == zbufval,
        GL_NOTEQUAL => zval != zbufval,
        GL_ALWAYS => true,
        GL_NEVER => false,
        _ => true,
    }
}

/// The stencil value that operation `op` makes of `old_val`; an unknown
/// operation keeps it.
pub open spec fn spec_stencil_op(op: GLenum, old_val: u8, ref_val: u8) -> u8 {
    if op == GL_ZERO {
        0
    } else if op == GL_REPLACE {
        ref_val
    } else if op == GL_INCR {
        if old_val < 255 { (old_val + 1) as u8 } else { 255 }
    } else if op == GL_INCR_WRAP {
        ((old_val + 1) % 256) as u8
    } else if op == GL_DECR {
        if old_val > 0 { (old_val - 1) as u8 } else { 0 }
    } else if op == GL_DECR_WRAP {
        ((old_val + 255) % 256) as u8
    } else if op == GL_INVERT {
        (255 - old_val) as u8
    } else {
        old_val
    }
}

/// Apply a stencil operation to produce a new stencil value.
pub fn stencil_op_func(op: GLenum, old_val: u8, ref_val: u8) -> (r: u8)
    ensures
        r == spec_stencil_op(op, old_val, ref_val),
{
    match op {
        GL_KEEP => old_val,
        GL_ZERO => 0,
        GL_REPLACE => ref_val,
        GL_INCR => {
            if old_val < 255 {
                old_val + 1
            } else {
                255
            }
        },
        GL_INCR_WRAP => {
            if old_val == 255 {
                0
            } else {
                old_val + 1
            }
        },
        GL_DECR => {
            if old_val > 0 {
                old_val - 1
            } else {
                0
            }
        },
        GL_DECR_WRAP => {
            if old_val == 0 {
                255
            } else {
                old_val - 1
            }
        },
        GL_INVERT => {
            assert(!old_val == 255 - old_val) by (bit_vector);
            !old_val
        },
        _ => old_val,
    }
}

/// Whether the stencil test `func` passes: the reference and the stored
/// value are compared after both are masked with `mask`; an unknown
/// function passes.
pub open spec fn spec_stencil_test(func: GLenum, ref_val: i32, mask: u32, stencil_val: u8) -> bool {
    let r = (ref_val as u32) & mask;
    let s = (stencil_val as u32) & mask;
    if func == GL_LESS {
        r < s
    } else if func == GL_LEQUAL {
        r <= s
    } else if func == GL_GREATER {
        r > s
    } else if func == GL_GEQUAL {
        r >= s
    } else if func == GL_EQUAL {
        r == s
    } else if func == GL_NOTEQUAL {
        r != s
    } else if func == GL_NEVER {
        false
    } else {
        true
    }
}

/// Perform the stencil comparison test.
pub fn stencil_test_func(func: GLenum, ref_val: i32, mask: u32, stencil_val: u8) -> (r: bool)
    ensures
        r == spec_stencil_test(func, ref_val, mask, stencil_val),
{
    let masked_ref = (ref_val as u32) & mask;
    let masked_stencil = (stencil_val as u32) & mask;
    match func {
        GL_LESS => masked_ref < masked_stencil,
        GL_LEQUAL => masked_ref <= masked_stencil,
        GL_GREATER => masked_ref > masked_stencil,
        GL_GEQUAL => masked_ref >= masked_stencil,
        GL_EQUAL => masked_ref == masked_stencil,
        GL_NOTEQUAL => masked_ref != masked_stencil,
        GL_ALWAYS => true,
        GL_NEVER => false,
        _ => true,
    }
}

/// The pixel that logic operation `logic_func` makes of source `s` and
/// destination `d`; an unknown operation copies the source.
pub open spec fn spec_logic_op(logic_func: GLenum, s: u32, d: u32) -> u32 {
    if logic_func == GL_CLEAR {
        0
    } else if logic_func == GL_SET {
        0xFFFF_FFFF
    } else if logic_func == GL_COPY_INVERTED {
        !s
    } else if logic_func == GL_NOOP {
        d
    } else if logic_func == GL_INVERT {
        !d
    } else if logic_func == GL_AND {
        s & d
    } else if logic_func == GL_NAND {
        !(s & d)
    } else if logic_func == GL_OR {
        s | d
    } else if logic_func == GL_NOR {
        !(s | d)
    } else if logic_func == GL_XOR {
        s ^ d
    } else if logic_func == GL_EQUIV {
        !(s ^ d)
    } else if logic_func == GL_AND_REVERSE {
        s & !d
    } else if logic_func == GL_AND_INVERTED {
        !s & d
    } else if logic_func == GL_OR_REVERSE {
        s | !d
    } else if logic_func == GL_OR_INVERTED {
        !s | d
    } else {
        s
    }
}

/// Apply a bitwise logic operation between source and destination pixels.
pub fn logic_ops_pixel(logic_func: GLenum, s: u32, d: u32) -> (r: u32)
    ensures
        r == spec_logic_op(logic_func, s, d),
{
    match logic_func {
        GL_CLEAR => 0,
        GL_SET => 0xFFFF_FFFF,
        GL_COPY => s,
        GL_COPY_INVERTED => !s,
        GL_NOOP => d,
        GL_INVERT => !d,
        GL_AND => s & d,
        GL_NAND => !(s & d),
        GL_OR => s | d,
        GL_NOR => !(s | d),
        GL_XOR => s ^ d,
        GL_EQUIV => !(s ^ d),
        GL_AND_REVERSE => s & !d,
        GL_AND_INVERTED => !s & d,
        GL_OR_REVERSE => s | !d,
        GL_OR_INVERTED => !s | d,
        _ => s,
    }
}


// ---------------------------------------------------------------------------
// Depth/stencil layouts and per-fragment processing
// ---------------------------------------------------------------------------

/// How depth and stencil values are stored in the depth/stencil buffer.
#[derive(Clone, Copy, Debug, PartialEq, Eq, Structural)]
pub enum DepthFormat {
    /// [`d24s8`]: 24-bit depth and 8-bit stencil in four bytes.
    D24S8,
    /// [`d16`]: 16-bit depth in two bytes, no stencil.
    D16,
    /// [`no_depth`]: no depth/stencil buffer.
    NoDepth,
}

/// The depth held in an entry.
pub open spec fn spec_get_z(fmt: DepthFormat, v: u32) -> u32 {
    match fmt {
        DepthFormat::D24S8 => v / 0x100,
        DepthFormat::D16 => v % 0x1_0000,
        DepthFormat::NoDepth => 0,
    }
}

/// The entry `v` with its depth set to `z`.
pub open spec fn spec_set_z(fmt: DepthFormat, v: u32, z: u32) -> u32 {
    match fmt {
        DepthFormat::D24S8 => ((z % 0x100_0000) * 0x100 + v % 0x100) as u32,
        DepthFormat::D16 => z % 0x1_0000,
        DepthFormat::NoDepth => v,
    }
}

/// The stencil held in an entry.
pub open spec fn spec_get_stencil(fmt: DepthFormat, v: u32) -> u8 {
    match fmt {
        DepthFormat::D24S8 => (v % 0x100) as u8,
        _ => 0,
    }
}

/// The entry `v` with its stencil set to `s`.
pub open spec fn spec_set_stencil(fmt: DepthFormat, v: u32, s: u8) -> u32 {
    match fmt {
        DepthFormat::D24S8 => ((v / 0x100) * 0x100 + s) as u32,
        _ => v,
    }
}

/// Entry `idx` of a depth/stencil buffer (0 where it holds none).
pub open spec fn spec_read_zbuf(fmt: DepthFormat, buf: Seq<u8>, idx: int) -> u32 {
    match fmt {
        DepthFormat::D24S8 => spec_entry32(buf, idx),
        DepthFormat::D16 => spec_entry16(buf, idx),
        DepthFormat::NoDepth => 0,
    }
}

/// The depth/stencil buffer with entry `idx` replaced by `val`.
pub open spec fn spec_write_zbuf(fmt: DepthFormat, buf: Seq<u8>, idx: int, val: u32) -> Seq<u8> {
    match fmt {
        DepthFormat::D24S8 => spec_store32(buf, idx, val),
        DepthFormat::D16 => spec_store16(buf, idx, val),
        DepthFormat::NoDepth => buf,
    }
}

/// Read the depth from an entry in the given layout.
pub fn get_z_in(fmt: DepthFormat, v: u32) -> (z: u32)
    ensures
        z == spec_get_z(fmt, v),
{
    match fmt {
        DepthFormat::D24S8 => d24s8::get_z(v),
        DepthFormat::D16 => d16::get_z(v),
        DepthFormat::NoDepth => no_depth::get_z(v),
    }
}

/// Set the depth of an entry in the given layout.
pub fn set_z_in(fmt: DepthFormat, v: u32, z: u32) -> (r: u32)
    ensures
        r == spec_set_z(fmt, v, z),
{
    match fmt {
        DepthFormat::D24S8 => d24s8::set_z(v, z),
        DepthFormat::D16 => d16::set_z(v, z),
        DepthFormat::NoDepth => no_depth::set_z(v, z),
    }
}

/// Read the stencil from an entry in the given layout.
pub fn get_stencil_in(fmt: DepthFormat, v: u32) -> (s: u8)
    ensures
        s == spec_get_stencil(fmt, v),
{
    match fmt {
        DepthFormat::D24S8 => d24s8::get_stencil(v),
        DepthFormat::D16 => d16::get_stencil(v),
        DepthFormat::NoDepth => no_depth::get_stencil(v),
    }
}

/// Set the stencil of an entry in the given layout.
pub fn set_stencil_in(fmt: DepthFormat, v: u32, s: u8) -> (r: u32)
    ensures
        r == spec_set_stencil(fmt, v, s),
{
    match fmt {
        DepthFormat::D24S8 => d24s8::set_stencil(v, s),
        DepthFormat::D16 => d16::set_stencil(v, s),
        DepthFormat::NoDepth => no_depth::set_stencil(v, s),
    }
}

/// Read entry `idx` of a depth/stencil buffer in the given layout.
pub fn read_zbuf_in(fmt: DepthFormat, buf: &Vec<u8>, idx: usize) -> (v: u32)
    ensures
        v == spec_read_zbuf(fmt, buf@, idx as int),
{
    match fmt {
        DepthFormat::D24S8 => d24s8::read_zbuf(buf, idx),
        DepthFormat::D16 => d16::read_zbuf(buf, idx),
        DepthFormat::NoDepth => 0,
    }
}

/// Write entry `idx` of a depth/stencil buffer in the given layout.
pub fn write_zbuf_in(fmt: DepthFormat, buf: &mut Vec<u8>, idx: usize, val: u32)
    ensures
        final(buf)@ == spec_write_zbuf(fmt, old(buf)@, idx as int, val),
{
    match fmt {
        DepthFormat::D24S8 => d24s8::write_zbuf(buf, idx, val),
        DepthFormat::D16 => d16::write_zbuf(buf, idx, val),
        DepthFormat::NoDepth => {},
    }
}

/// The depth and stencil state that decides the fate of a fragment.
#[derive(Clone, Copy, Debug)]
pub struct DepthStencilState {
    pub depth_format: DepthFormat,
    pub depth_test: bool,
    pub depth_mask: bool,
    pub depth_func: GLenum,
    pub stencil_test: bool,
    pub stencil_func: GLenum,
    pub stencil_ref: GLint,
    pub stencil_valuemask: GLuint,
    pub stencil_writemask: GLuint,
    pub stencil_sfail: GLenum,
    pub stencil_dpfail: GLenum,
    pub stencil_dppass: GLenum,
}

/// The stencil that is stored after operation `op`: the bits of the
/// write mask come from the new value, the others from the old one.
pub open spec fn spec_masked_stencil(st: DepthStencilState, op: GLenum, old_s: u8) -> u8 {
    let wm = st.stencil_writemask as u8;
    let new_s = spec_stencil_op(op, old_s, st.stencil_ref as u8);
    (old_s & !wm) | (new_s & wm)
}

/// What happens to a fragment at depth `z_val` over the stored entry
/// `entry`: whether it passes, and the entry to store in its place, if any.
pub open spec fn spec_fragment(st: DepthStencilState, entry: u32, z_val: u32) -> (bool, Option<u32>) {
    let fmt = st.depth_format;
    let old_s = spec_get_stencil(fmt, entry);
    let old_d = spec_get_z(fmt, entry);
    if st.stencil_test {
        if !spec_stencil_test(st.stencil_func, st.stencil_ref, st.stencil_valuemask, old_s) {
            (
                false,
                Some(
                    spec_set_stencil(
                        fmt,
                        spec_set_z(fmt, entry, old_d),
                        spec_masked_stencil(st, st.stencil_sfail, old_s),
                    ),
                ),
            )
        } else if st.depth_test {
            if !spec_depthtest(z_val, old_d, st.depth_func) {
                (
                    false,
                    Some(
                        spec_set_stencil(
                            fmt,
                            spec_set_z(fmt, entry, old_d),
                            spec_masked_stencil(st, st.stencil_dpfail, old_s),
                        ),
                    ),
                )
            } else {
                let new_d = if st.depth_mask { z_val } else { old_d };
                (
                    true,
                    Some(
                        spec_set_stencil(
                            fmt,
                            spec_set_z(fmt, entry, new_d),
                            spec_masked_stencil(st, st.stencil_dppass, old_s),
                        ),
                    ),
                )
            }
        } else {
            (true, Some(spec_set_stencil(fmt, entry, spec_masked_stencil(st, st.stencil_dppass, old_s))))
        }
    } else if st.depth_test {
        if !spec_depthtest(z_val, old_d, st.depth_func) {
            (false, None)
        } else if st.depth_mask {
            (true, Some(spec_set_z(fmt, entry, z_val)))
        } else {
            (true, None)
        }
    } else {
        (true, None)
    }
}

/// Whether pixel `(x, y)` lies in a `w` by `h` framebuffer.
pub open spec fn spec_in_bounds(w: i32, h: i32, x: i32, y: i32) -> bool {
    0 <= x < w && 0 <= y < h
}

/// The buffer index of pixel `(x, y)`: rows are stored bottom row last.
pub open spec fn spec_pixel_index(w: i32, h: i32, x: i32, y: i32) -> int {
    (h - 1 - y) * w + x
}

/// The buffer index of pixel `(x, y)` of a `w` by `h` framebuffer.
pub fn pixel_index(w: i32, h: i32, x: i32, y: i32) -> (i: usize)
    requires
        spec_in_bounds(w, h, x, y),
        w as int * h as int <= i32::MAX,
    ensures
        i as int == spec_pixel_index(w, h, x, y),
        i < w as int * h as int,
{
    assert(0 <= (h - 1 - y) * w + x < w * h) by (nonlinear_arith)
        requires
            0 <= x < w,
            0 <= y < h,
    ;
    ((buf_row(h, y) * w) + x) as usize
}

/// The storage row of screen row `y`.
fn buf_row(h: i32, y: i32) -> (r: i32)
    requires
        0 <= y < h,
    ensures
        r == h - 1 - y,
{
    h - 1 - y
}

/// Run a fragment at pixel `(x, y)` and depth `z_val` through the stencil
/// and depth tests, updating the depth/stencil buffer as the state says.
/// Returns whether the fragment should be drawn. Fragments outside the
/// `buf_w` by `buf_h` framebuffer never pass and change nothing.
pub fn fragment_processing(
    st: &DepthStencilState,
    zbuf: &mut Vec<u8>,
    buf_w: i32,
    buf_h: i32,
    x: i32,
    y: i32,
    z_val: u32,
) -> (pass: bool)
    requires
        buf_w as int * buf_h as int <= i32::MAX,
    ensures
        !spec_in_bounds(buf_w, buf_h, x, y) ==> !pass && final(zbuf)@ == old(zbuf)@,
        spec_in_bounds(buf_w, buf_h, x, y) ==> {
            let idx = spec_pixel_index(buf_w, buf_h, x, y);
            let r = spec_fragment(*st, spec_read_zbuf(st.depth_format, old(zbuf)@, idx), z_val);
            &&& pass == r.0
            &&& final(zbuf)@ == match r.1 {
                Some(v) => spec_write_zbuf(st.depth_format, old(zbuf)@, idx, v),
                None => old(zbuf)@,
            }
        },
{
    if x < 0 || x >= buf_w || y < 0 || y >= buf_h {
        return false;
    }
    let buf_idx = pixel_index(buf_w, buf_h, x, y);
    let fmt = st.depth_format;
    if st.stencil_test {
        let zbuf_data = read_zbuf_in(fmt, zbuf, buf_idx);
        let old_stencil = get_stencil_in(fmt, zbuf_data);
        let old_depth = get_z_in(fmt, zbuf_data);
        let stencil_ref = st.stencil_ref;
        let stencil_writemask = st.stencil_writemask as u8;
        let stencil_pass = stencil_test_func(st.stencil_func, stencil_ref, st.stencil_valuemask, old_stencil);
        if !stencil_pass {
            let new_stencil = stencil_op_func(st.stencil_sfail, old_stencil, stencil_ref as u8);
            let masked_stencil = (old_stencil & !stencil_writemask) | (new_stencil & stencil_writemask);
            let new_zbuf = set_stencil_in(fmt, set_z_in(fmt, zbuf_data, old_depth), masked_stencil);
            write_zbuf_in(fmt, zbuf, buf_idx, new_zbuf);
            return false;
        }
        if st.depth_test {
            let depth_pass = depthtest(z_val, old_depth, st.depth_func);
            if !depth_pass {
                let new_stencil = stencil_op_func(st.stencil_dpfail, old_stencil, stencil_ref as u8);
                let masked_stencil = (old_stencil & !stencil_writemask) | (new_stencil & stencil_writemask);
                let new_zbuf = set_stencil_in(fmt, set_z_in(fmt, zbuf_data, old_depth), masked_stencil);
                write_zbuf_in(fmt, zbuf, buf_idx, new_zbuf);
                return false;
            }
            let new_stencil = stencil_op_func(st.stencil_dppass, old_stencil, stencil_ref as u8);
            let masked_stencil = (old_stencil & !stencil_writemask) | (new_stencil & stencil_writemask);
            let new_depth = if st.depth_mask {
                z_val
            } else {
                old_depth
            };
            let new_zbuf = set_stencil_in(fmt, set_z_in(fmt, zbuf_data, new_depth), masked_stencil);
            write_zbuf_in(fmt, zbuf, buf_idx, new_zbuf);
            return true;
        } else {
            let new_stencil = stencil_op_func(st.stencil_dppass, old_stencil, stencil_ref as u8);
            let masked_stencil = (old_stencil & !stencil_writemask) | (new_stencil & stencil_writemask);
            let new_zbuf = set_stencil_in(fmt, zbuf_data, masked_stencil);
            write_zbuf_in(fmt, zbuf, buf_idx, new_zbuf);
            return true;
        }
    }
    if st.depth_test {
        let zbuf_data = read_zbuf_in(fmt, zbuf, buf_idx);
        let old_depth = get_z_in(fmt, zbuf_data);
        let depth_pass = depthtest(z_val, old_depth, st.depth_func);
        if !depth_pass {
            return false;
        }
        if st.depth_mask {
            let new_zbuf = set_z_in(fmt, zbuf_data, z_val);
            write_zbuf_in(fmt, zbuf, buf_idx, new_zbuf);
        }
        return true;
    }
    true
}


/// Depth writes are read back: with the depth test and depth writes on and
/// the stencil test off, a 24-bit depth buffer holds the depth of the last
/// fragment that passed at a pixel, and its stencil is kept.
pub proof fn lemma_depth_write_read(st: DepthStencilState, buf: Seq<u8>, idx: int, z_val: u32)
    requires
        st.depth_format == DepthFormat::D24S8,
        !st.stencil_test,
        st.depth_test,
        st.depth_mask,
        z_val <= d24s8::PGL_MAX_DEPTH,
        0 <= idx,
        idx * 4 + 4 <= buf.len(),
        spec_fragment(st, spec_read_zbuf(st.depth_format, buf, idx), z_val).0,
    ensures
        ({
            let old_entry = spec_read_zbuf(st.depth_format, buf, idx);
            let after = spec_write_zbuf(
                st.depth_format,
                buf,
                idx,
                spec_fragment(st, old_entry, z_val).1.unwrap(),
            );
            &&& spec_get_z(st.depth_format, spec_read_zbuf(st.depth_format, after, idx)) == z_val
            &&& spec_get_stencil(st.depth_format, spec_read_zbuf(st.depth_format, after, idx))
                == spec_get_stencil(st.depth_format, old_entry)
        }),
{
    let old_entry = spec_read_zbuf(st.depth_format, buf, idx);
    let v = spec_set_z(st.depth_format, old_entry, z_val);
    lemma_write_then_read(buf, idx, idx, v);
}

/// A fragment that fails the depth test while the stencil test is off
/// changes nothing and is not drawn.
pub proof fn lemma_depth_fail_keeps_buffer(st: DepthStencilState, entry: u32, z_val: u32)
    requires
        !st.stencil_test,
        st.depth_test,
        !spec_depthtest(z_val, spec_get_z(st.depth_format, entry), st.depth_func),
    ensures
        spec_fragment(st, entry, z_val) == (false, Option::<u32>::None),
{
}

/// A zero stencil write mask protects the stencil: whatever the tests
/// decide, the stencil stored at the pixel stays what it was.
pub proof fn lemma_zero_writemask_keeps_stencil(st: DepthStencilState, buf: Seq<u8>, idx: int, z_val: u32)
    requires
        st.depth_format == DepthFormat::D24S8,
        st.stencil_writemask as u8 == 0,
        0 <= idx,
        idx * 4 + 4 <= buf.len(),
    ensures
        ({
            let old_entry = spec_read_zbuf(st.depth_format, buf, idx);
            let r = spec_fragment(st, old_entry, z_val);
            let after = match r.1 {
                Some(v) => spec_write_zbuf(st.depth_format, buf, idx, v),
                None => buf,
            };
            spec_get_stencil(st.depth_format, spec_read_zbuf(st.depth_format, after, idx))
                == spec_get_stencil(st.depth_format, old_entry)
        }),
{
    let fmt = st.depth_format;
    let old_entry = spec_read_zbuf(fmt, buf, idx);
    let old_s = spec_get_stencil(fmt, old_entry);
    assert forall|op: GLenum| #[trigger] spec_masked_stencil(st, op, old_s) == old_s by {
        let n = spec_stencil_op(op, old_s, st.stencil_ref as u8);
        let wm = st.stencil_writemask as u8;
        assert((old_s & !wm) | (n & wm) == old_s) by (bit_vector)
            requires
                wm == 0,
        ;
    }
    let r = spec_fragment(st, old_entry, z_val);
    if let Some(v) = r.1 {
        lemma_write_then_read(buf, idx, idx, v);
    }
}


// ---------------------------------------------------------------------------
// Texture format conversion
// ---------------------------------------------------------------------------

/// Bytes per pixel of a source format, for the formats this library
/// converts; 4 for everything else.
pub open spec fn spec_format_bpp(format: GLenum) -> int {
    if format == GL_RED || format == GL_ALPHA || format == GL_LUMINANCE || format == PGL_ONE_ALPHA {
        1
    } else if format == GL_RG || format == GL_LUMINANCE_ALPHA {
        2
    } else if format == GL_RGB || format == GL_BGR {
        3
    } else {
        4
    }
}

/// Channel `c` (0 red .. 3 alpha) of the RGBA pixel made from the source
/// pixel at `input[i..]` in `format`; unknown formats read as RGBA.
pub open spec fn spec_rgba_byte(format: GLenum, input: Seq<u8>, i: int, c: int) -> u8 {
    let i0 = input[i];
    if format == GL_RED {
        if c == 0 { i0 } else if c == 3 { 255 } else { 0 }
    } else if format == GL_RG {
        if c == 0 { i0 } else if c == 1 { input[i + 1] } else if c == 3 { 255 } else { 0 }
    } else if format == GL_RGB {
        if c == 3 { 255 } else { input[i + c] }
    } else if format == GL_BGR {
        if c == 3 { 255 } else { input[i + 2 - c] }
    } else if format == GL_BGRA {
        if c == 3 { input[i + 3] } else { input[i + 2 - c] }
    } else if format == GL_ALPHA {
        if c == 3 { i0 } else { 0 }
    } else if format == GL_LUMINANCE {
        if c == 3 { 255 } else { i0 }
    } else if format == GL_LUMINANCE_ALPHA {
        if c == 3 { input[i + 1] } else { i0 }
    } else if format == PGL_ONE_ALPHA {
        if c == 3 { i0 } else { 255 }
    } else {
        input[i + c]
    }
}

/// Bytes per pixel of a source format.
pub fn format_bpp(format: GLenum) -> (n: usize)
    ensures
        n as int == spec_format_bpp(format),
        1 <= n <= 4,
{
    match format {
        GL_RED | GL_ALPHA | GL_LUMINANCE | PGL_ONE_ALPHA => 1,
        GL_RG | GL_LUMINANCE_ALPHA => 2,
        GL_RGB | GL_BGR => 3,
        _ => 4,
    }
}

/// Write the RGBA pixel made from the source pixel at `input[in_idx..]` to
/// `output[out_idx..out_idx + 4]`.
pub fn write_rgba_pixel(output: &mut [u8], out_idx: usize, input: &[u8], in_idx: usize, format: GLenum)
    requires
        out_idx + 4 <= old(output)@.len(),
        in_idx + spec_format_bpp(format) <= input@.len(),
    ensures
        final(output)@.len() == old(output)@.len(),
        forall|k: int|
            0 <= k < old(output)@.len() ==> #[trigger] final(output)@[k] == if out_idx <= k < out_idx + 4 {
                spec_rgba_byte(format, input@, in_idx as int, k - out_idx)
            } else {
                old(output)@[k]
            },
{
    let n = input.len();
    assert(in_idx + spec_format_bpp(format) <= n);
    let (r, g, b, a) = match format {
        GL_RED => (input[in_idx], 0u8, 0u8, 255u8),
        GL_RG => (input[in_idx], input[in_idx + 1], 0, 255),
        GL_RGB => (input[in_idx], input[in_idx + 1], input[in_idx + 2], 255),
        GL_BGR => (input[in_idx + 2], input[in_idx + 1], input[in_idx], 255),
        GL_BGRA => (input[in_idx + 2], input[in_idx + 1], input[in_idx], input[in_idx + 3]),
        GL_ALPHA => (0, 0, 0, input[in_idx]),
        GL_LUMINANCE => {
            let l = input[in_idx];
            (l, l, l, 255)
        },
        GL_LUMINANCE_ALPHA => {
            let l = input[in_idx];
            (l, l, l, input[in_idx + 1])
        },
        PGL_ONE_ALPHA => (255, 255, 255, input[in_idx]),
        _ => (input[in_idx], input[in_idx + 1], input[in_idx + 2], input[in_idx + 3]),
    };
    output[out_idx] = r;
    output[out_idx + 1] = g;
    output[out_idx + 2] = b;
    output[out_idx + 3] = a;
}

/// The index of byte `c` of pixel `(x, y)` in a packed RGBA image `w` wide.
pub open spec fn spec_rgba_index(w: int, x: int, y: int, c: int) -> int {
    (y * w + x) * 4 + c
}

/// Pixels of earlier rows, and earlier pixels of the same row, come first.
proof fn lemma_rgba_index_order(w: int, x: int, y: int, x2: int, y2: int)
    requires
        0 <= x < w,
        0 <= x2 < w,
        0 <= y,
        0 <= y2,
        y2 < y || (y2 == y && x2 < x),
    ensures
        y2 * w + x2 + 1 <= y * w + x,
{
    if y2 < y {
        assert(y2 * w + x2 + 1 <= (y2 + 1) * w) by (nonlinear_arith)
            requires
                x2 < w,
        ;
        assert((y2 + 1) * w <= y * w) by (nonlinear_arith)
            requires
                y2 + 1 <= y,
                0 <= w,
        ;
    }
}

/// Convert a `w` by `h` image in `format`, whose rows start `pitch` bytes
/// apart in `input`, to packed RGBA bytes in `output` (row after row, 4
/// bytes per pixel, no padding). A pixel whose source bytes run past the end
/// of `input` is left as it was in `output`.
pub fn convert_format_to_packed_rgba(output: &mut [u8], input: &[u8], w: i32, h: i32, pitch: i32, format: GLenum)
    requires
        0 <= w,
        0 <= h,
        0 <= pitch,
        w as int * h as int * 4 <= old(output)@.len(),
        h as int * pitch as int + w as int * 4 + 4 <= usize::MAX,
    ensures
        final(output)@.len() == old(output)@.len(),
        forall|x: int, y: int, c: int|
            0 <= x < w && 0 <= y < h && 0 <= c < 4 ==> {
                let in_idx = y * pitch + x * spec_format_bpp(format);
                #[trigger] final(output)@[spec_rgba_index(w as int, x, y, c)] == if in_idx
                    + spec_format_bpp(format) <= input@.len() {
                    spec_rgba_byte(format, input@, in_idx, c)
                } else {
                    old(output)@[spec_rgba_index(w as int, x, y, c)]
                }
            },
        forall|k: int|
            w * h * 4 <= k < old(output)@.len() ==> #[trigger] final(output)@[k] == old(output)@[k],
{
    let wp = w as usize;
    let hp = h as usize;
    let pp = pitch as usize;
    let bpp = format_bpp(format);
    let out_len = output.len();
    let ghost orig = output@;
    let mut y: usize = 0;
    while y < hp
        invariant
            wp == w,
            hp == h,
            pp == pitch,
            bpp == spec_format_bpp(format),
            0 <= y <= hp,
            wp * hp * 4 <= orig.len(),
            orig.len() == out_len,
            hp * pp + wp * 4 + 4 <= usize::MAX,
            output@.len() == orig.len(),
            forall|x2: int, y2: int, c: int|
                0 <= x2 < wp && 0 <= y2 < y && 0 <= c < 4 ==> {
                    let in_idx = y2 * pp + x2 * bpp;
                    #[trigger] output@[spec_rgba_index(wp as int, x2, y2, c)] == if in_idx + bpp
                        <= input@.len() {
                        spec_rgba_byte(format, input@, in_idx, c)
                    } else {
                        orig[spec_rgba_index(wp as int, x2, y2, c)]
                    }
                },
            forall|k: int| y * wp * 4 <= k < orig.len() ==> #[trigger] output@[k] == orig[k],
        decreases hp - y,
    {
        assert(y * pp + wp * 4 + 4 <= usize::MAX) by (nonlinear_arith)
            requires
                y < hp,
                hp * pp + wp * 4 + 4 <= usize::MAX,
        ;
        assert((y + 1) * wp * 4 <= orig.len()) by (nonlinear_arith)
            requires
                y < hp,
                wp * hp * 4 <= orig.len(),
        ;
        let mut x: usize = 0;
        while x < wp
            invariant
                wp == w,
                hp == h,
                pp == pitch,
                bpp == spec_format_bpp(format),
                0 <= y < hp,
                0 <= x <= wp,
                y * pp + wp * 4 + 4 <= usize::MAX,
                (y + 1) * wp * 4 <= orig.len(),
                orig.len() == out_len,
                output@.len() == orig.len(),
                forall|x2: int, y2: int, c: int|
                    0 <= x2 < wp && 0 <= c < 4 && (0 <= y2 < y || (y2 == y && x2 < x)) ==> {
                        let in_idx = y2 * pp + x2 * bpp;
                        #[trigger] output@[spec_rgba_index(wp as int, x2, y2, c)] == if in_idx
                            + bpp <= input@.len() {
                            spec_rgba_byte(format, input@, in_idx, c)
                        } else {
                            orig[spec_rgba_index(wp as int, x2, y2, c)]
                        }
                    },
                forall|k: int|
                    (y * wp + x) * 4 <= k < orig.len() ==> #[trigger] output@[k] == orig[k],
            decreases wp - x,
        {
            assert((y * wp + x) * 4 + 4 <= (y + 1) * wp * 4) by (nonlinear_arith)
                requires
                    x < wp,
            ;
            let out_idx = (y * wp + x) * 4;
            let in_idx = y * pp + x * bpp;
            let ghost before = output@;
            if in_idx + bpp <= input.len() {
                write_rgba_pixel(output, out_idx, input, in_idx, format);
            }
            assert forall|x2: int, y2: int, c: int|
                0 <= x2 < wp && 0 <= c < 4 && (0 <= y2 < y || (y2 == y && x2 < x + 1)) implies {
                    let in_idx2 = y2 * pp + x2 * bpp;
                    #[trigger] output@[spec_rgba_index(wp as int, x2, y2, c)] == if in_idx2 + bpp
                        <= input@.len() {
                        spec_rgba_byte(format, input@, in_idx2, c)
                    } else {
                        orig[spec_rgba_index(wp as int, x2, y2, c)]
                    }
                } by {
                if y2 == y && x2 == x {
                    assert(spec_rgba_index(wp as int, x2, y2, c) == out_idx + c);
                } else {
                    lemma_rgba_index_order(wp as int, x as int, y as int, x2, y2);
                    assert(spec_rgba_index(wp as int, x2, y2, c) < out_idx);
                }
            }
            x = x + 1;
        }
        assert(y * wp + wp == (y + 1) * wp) by (nonlinear_arith);
        y = y + 1;
    }
    assert forall|k: int| w * h * 4 <= k < orig.len() implies #[trigger] output@[k] == orig[k] by {
        assert(y * wp * 4 == w * h * 4);
    }
}

/// Bytes per component of a vertex attribute of type `t` (four for a type
/// the fetch does not decode).
pub open spec fn spec_attrib_elem_size(t: GLenum) -> int {
    if t == GL_UNSIGNED_BYTE || t == GL_BYTE {
        1
    } else if t == GL_UNSIGNED_SHORT || t == GL_SHORT {
        2
    } else if t == GL_DOUBLE {
        8
    } else {
        4
    }
}

/// Bytes per component of a vertex attribute of type `t`.
pub fn attrib_elem_size(t: GLenum) -> (r: usize)
    ensures
        r == spec_attrib_elem_size(t),
{
    match t {
        GL_UNSIGNED_BYTE | GL_BYTE => 1,
        GL_UNSIGNED_SHORT | GL_SHORT => 2,
        GL_DOUBLE => 8,
        _ => 4,
    }
}

/// The distance in bytes from one vertex's data for attribute `v` to the
/// next: its stride, or the packed size of its components when that is 0.
pub open spec fn spec_attrib_stride(v: GlVertexAttrib) -> int {
    if v.stride == 0 {
        v.size * spec_attrib_elem_size(v.type_)
    } else {
        v.stride as int
    }
}

/// The stride of attribute `v` in bytes.
pub fn attrib_stride(v: &GlVertexAttrib) -> (r: usize)
    requires
        0 <= v.size <= 4,
        0 <= v.stride,
    ensures
        r == spec_attrib_stride(*v),
{
    if v.stride == 0 {
        (v.size as usize) * attrib_elem_size(v.type_)
    } else {
        v.stride as usize
    }
}

/// The unsigned little-endian value of the `n` bytes of `data` from `at`.
pub open spec fn spec_le_value(data: Seq<u8>, at: int, n: nat) -> int
    decreases n,
{
    if n == 0 {
        0
    } else {
        data[at] as int + 256 * spec_le_value(data, at + 1, (n - 1) as nat)
    }
}

/// The unsigned little-endian value of the `n` bytes of `data` from `at`.
fn le_value(data: &[u8], at: usize, n: usize) -> (r: u64)
    requires
        n == 1 || n == 2 || n == 4 || n == 8,
        at + n <= data@.len(),
    ensures
        r as int == spec_le_value(data@, at as int, n as nat),
{
    proof {
        reveal_with_fuel(spec_le_value, 9);
    }
    let b0 = data[at] as u64;
    if n == 1 {
        return b0;
    }
    let b1 = data[at + 1] as u64;
    if n == 2 {
        return b0 + 0x100 * b1;
    }
    let b2 = data[at + 2] as u64;
    let b3 = data[at + 3] as u64;
    if n == 4 {
        return b0 + 0x100 * b1 + 0x1_0000 * b2 + 0x100_0000 * b3;
    }
    let b4 = data[at + 4] as u64;
    let b5 = data[at + 5] as u64;
    let b6 = data[at + 6] as u64;
    let b7 = data[at + 7] as u64;
    b0 + 0x100 * b1 + 0x1_0000 * b2 + 0x100_0000 * b3 + 0x1_0000_0000 * b4 + 0x100_0000_0000 * b5
        + 0x1_0000_0000_0000 * b6 + 0x100_0000_0000_0000 * b7
}

/// The raw little-endian words of the `size` components of an attribute of
/// type `type_` whose data starts at byte `at` of `data`: component `j` is
/// the `spec_attrib_elem_size(type_)` bytes from `at + j * elem`. A float
/// component comes out as its bit pattern, an integer one unsigned.
pub fn attrib_words(type_: GLenum, size: GLint, data: &[u8], at: usize) -> (w: Vec<u64>)
    requires
        0 <= size <= 4,
        at + size * spec_attrib_elem_size(type_) <= data@.len(),
    ensures
        w@.len() == size,
        forall|j: int|
            0 <= j < size ==> #[trigger] w@[j] as int == spec_le_value(
                data@,
                at + j * spec_attrib_elem_size(type_),
                spec_attrib_elem_size(type_) as nat,
            ),
{
    let e = attrib_elem_size(type_);
    let n = size as usize;
    let len = data.len();
    let mut w: Vec<u64> = Vec::new();
    let mut j: usize = 0;
    while j < n
        invariant
            n == size,
            n <= 4,
            e == spec_attrib_elem_size(type_),
            at + n * e <= data@.len(),
            len == data@.len(),
            j <= n,
            w@.len() == j,
            forall|k: int|
                0 <= k < j ==> #[trigger] w@[k] as int == spec_le_value(data@, at + k * e, e as nat),
        decreases n - j,
    {
        assert(at + j * e + e <= at + n * e) by (nonlinear_arith)
            requires
                j < n,
                e <= 8,
        ;
        let v = le_value(data, at + j * e, e);
        w.push(v);
        j = j + 1;
    }
    w
}

/// Where vertex `i`'s data for attribute `v` starts in its buffer.
pub open spec fn spec_attrib_start(v: GlVertexAttrib, i: int) -> int {
    v.offset + spec_attrib_stride(v) * i
}

/// The raw words of vertex `i`'s components of attribute `v`, read from the
/// bytes `data` of the buffer that holds them (see [`attrib_words`]).
pub fn get_v_attrib_words(v: &GlVertexAttrib, i: GLsizei, data: &[u8]) -> (w: Vec<u64>)
    requires
        0 <= v.size <= 4,
        0 <= v.stride,
        0 <= v.offset,
        0 <= i,
        spec_attrib_start(*v, i as int) + v.size * spec_attrib_elem_size(v.type_) <= data@.len(),
    ensures
        w@.len() == v.size,
        forall|j: int|
            0 <= j < v.size ==> #[trigger] w@[j] as int == spec_le_value(
                data@,
                spec_attrib_start(*v, i as int) + j * spec_attrib_elem_size(v.type_),
                spec_attrib_elem_size(v.type_) as nat,
            ),
{
    let stride = attrib_stride(v);
    let len = data.len();
    assert(0 <= stride * i && 0 <= v.size * spec_attrib_elem_size(v.type_)) by (nonlinear_arith)
        requires
            0 <= stride,
            0 <= i,
            0 <= v.size,
            0 < spec_attrib_elem_size(v.type_),
    ;
    assert(v.offset + stride * i <= len);
    let at = v.offset as usize + stride * (i as usize);
    attrib_words(v.type_, v.size, data, at)
}

} // verus!
