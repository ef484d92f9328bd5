//! Integer vectors, byte colours and integer clamping.

use vstd::prelude::*;

verus! {

/// The value `clampi` computes: `i` limited to `[min, max]`, `min` winning
/// when the bounds cross.
pub open spec fn spec_clampi(i: int, min: int, max: int) -> int {
    if i < min {
        min
    } else if i > max {
        max
    } else {
        i
    }
}

/// Clamp an integer to `[min, max]`.
pub fn clampi(i: i32, min: i32, max: i32) -> (r: i32)
    ensures
        r == spec_clampi(i as int, min as int, max as int),
{
    if i < min {
        min
    } else if i > max {
        max
    } else {
        i
    }
}

/// A triple of integers.
#[derive(Clone, Copy, Debug, PartialEq, Eq, Structural)]
pub struct IVec3 {
    pub x: i32,
    pub y: i32,
    pub z: i32,
}

impl IVec3 {
    pub fn new(x: i32, y: i32, z: i32) -> (v: IVec3)
        ensures
            v.x == x,
            v.y == y,
            v.z == z,
    {
        IVec3 { x, y, z }
    }
}

/// Shorthand for [`IVec3::new`].
pub fn ivec3(x: i32, y: i32, z: i32) -> (v: IVec3)
    ensures
        v == (IVec3 { x, y, z }),
{
    IVec3::new(x, y, z)
}

/// An RGBA colour stored as four bytes.
#[derive(Clone, Copy, Debug, PartialEq, Eq, Structural)]
pub struct Color {
    pub r: u8,
    pub g: u8,
    pub b: u8,
    pub a: u8,
}

impl Color {
    pub fn new(r: u8, g: u8, b: u8, a: u8) -> (c: Color)
        ensures
            c == (Color { r, g, b, a }),
    {
        Color { r, g, b, a }
    }
}

} // verus!
