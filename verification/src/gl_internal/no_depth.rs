//! The build without a depth/stencil buffer: every depth and stencil
//! operation is a no-op.

use vstd::prelude::*;

verus! {

/// The largest depth value.
pub const PGL_MAX_DEPTH: u32 = 0;
/// Bytes per depth entry.
pub const PGL_DEPTH_BPP: usize = 0;

/// Always 0.
pub fn get_z(_zbuf_val: u32) -> (z: u32)
    ensures
        z == 0,
{
    0
}

/// The entry is unchanged.
pub fn set_z(zbuf_val: u32, _z: u32) -> (r: u32)
    ensures
        r == zbuf_val,
{
    zbuf_val
}

/// Always 0.
pub fn get_stencil(_zbuf_val: u32) -> (s: u8)
    ensures
        s == 0,
{
    0
}

/// The entry is unchanged.
pub fn set_stencil(zbuf_val: u32, _stencil: u8) -> (r: u32)
    ensures
        r == zbuf_val,
{
    zbuf_val
}

} // verus!
