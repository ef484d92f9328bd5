//! The 16-bit depth layout: a 16-bit depth, no stencil, stored
//! little-endian, two bytes per entry.

use vstd::prelude::*;
use crate::gl_internal::{spec_entry16, spec_store16, read_entry16, write_entry16};

verus! {

/// The largest depth value.
pub const PGL_MAX_DEPTH: u32 = 0xFFFF;
/// Bytes per depth entry.
pub const PGL_DEPTH_BPP: usize = 2;

/// The depth held in an entry.
pub fn get_z(zbuf_val: u32) -> (z: u32)
    ensures
        z == zbuf_val % 0x1_0000,
{
    assert(zbuf_val & 0xFFFF == zbuf_val % 0x1_0000) by (bit_vector);
    zbuf_val & 0xFFFF
}

/// The entry holding depth `z` (its low 16 bits).
pub fn set_z(_zbuf_val: u32, z: u32) -> (r: u32)
    ensures
        r == z % 0x1_0000,
{
    assert(z & 0xFFFF == z % 0x1_0000) by (bit_vector);
    z & 0xFFFF
}

/// This layout stores no stencil: always 0.
pub fn get_stencil(_zbuf_val: u32) -> (s: u8)
    ensures
        s == 0,
{
    0
}

/// This layout stores no stencil: the entry is unchanged.
pub fn set_stencil(zbuf_val: u32, _stencil: u8) -> (r: u32)
    ensures
        r == zbuf_val,
{
    zbuf_val
}

/// Read entry `idx` of a depth buffer, or 0 where the buffer holds no
/// whole entry at `idx`.
pub fn read_zbuf(buf: &Vec<u8>, idx: usize) -> (v: u32)
    ensures
        v == spec_entry16(buf@, idx as int),
{
    read_entry16(buf, idx)
}

/// Write the low 16 bits of `val` to entry `idx` of a depth buffer; nothing
/// is written where the buffer holds no whole entry at `idx`.
pub fn write_zbuf(buf: &mut Vec<u8>, idx: usize, val: u32)
    ensures
        final(buf)@ == spec_store16(old(buf)@, idx as int, val),
{
    write_entry16(buf, idx, val)
}

} // verus!
