//! The 32-bit depth/stencil layout: a 24-bit depth in the upper bits and an
//! 8-bit stencil in the lowest byte, stored little-endian, four bytes per
//! entry.

use vstd::prelude::*;
use crate::gl_internal::{spec_entry32, spec_store32, read_entry32, write_entry32};

verus! {

/// The largest depth value.
pub const PGL_MAX_DEPTH: u32 = 0x00FF_FFFF;
/// Bytes per depth/stencil entry.
pub const PGL_DEPTH_BPP: usize = 4;

/// The depth held in an entry.
pub fn get_z(zbuf_val: u32) -> (z: u32)
    ensures
        z == zbuf_val / 0x100,
{
    assert(zbuf_val >> 8u32 == zbuf_val / 0x100) by (bit_vector);
    zbuf_val >> 8u32
}

/// The entry with depth `z` (its low 24 bits) and the stencil of `zbuf_val`.
pub fn set_z(zbuf_val: u32, z: u32) -> (r: u32)
    ensures
        r == (z % 0x100_0000) * 0x100 + zbuf_val % 0x100,
{
    assert((z << 8u32) | (zbuf_val & 0xFF) == (z % 0x100_0000) * 0x100 + zbuf_val % 0x100) by (bit_vector);
    (z << 8u32) | (zbuf_val & 0xFF)
}

/// The stencil held in an entry.
pub fn get_stencil(zbuf_val: u32) -> (s: u8)
    ensures
        s == zbuf_val % 0x100,
{
    assert(zbuf_val & 0xFF == zbuf_val % 0x100) by (bit_vector);
    (zbuf_val & 0xFF) as u8
}

/// The entry with stencil `stencil` and the depth of `zbuf_val`.
pub fn set_stencil(zbuf_val: u32, stencil: u8) -> (r: u32)
    ensures
        r == (zbuf_val / 0x100) * 0x100 + stencil,
{
    let s = stencil as u32;
    assert((zbuf_val & !0xFFu32) | s == (zbuf_val / 0x100) * 0x100 + s) by (bit_vector)
        requires
            s < 0x100,
    ;
    (zbuf_val & !0xFFu32) | s
}

/// Read entry `idx` of a depth/stencil buffer, or 0 where the buffer holds
/// no whole entry at `idx`.
pub fn read_zbuf(buf: &Vec<u8>, idx: usize) -> (v: u32)
    ensures
        v == spec_entry32(buf@, idx as int),
{
    read_entry32(buf, idx)
}

/// Write entry `idx` of a depth/stencil buffer; nothing is written where the
/// buffer holds no whole entry at `idx`.
pub fn write_zbuf(buf: &mut Vec<u8>, idx: usize, val: u32)
    ensures
        final(buf)@ == spec_store32(old(buf)@, idx as int, val),
{
    write_entry32(buf, idx, val)
}

/// Setting the depth keeps the stencil and vice versa; each setter is read
/// back by its getter.
pub proof fn lemma_fields(v: u32, z: u32, s: u8)
    requires
        z <= PGL_MAX_DEPTH,
    ensures
        ((z % 0x100_0000) * 0x100 + v % 0x100) / 0x100 == z,
        ((z % 0x100_0000) * 0x100 + v % 0x100) % 0x100 == v % 0x100,
        ((v / 0x100) * 0x100 + s) % 0x100 == s,
        ((v / 0x100) * 0x100 + s) / 0x100 == v / 0x100,
{
}

} // verus!
