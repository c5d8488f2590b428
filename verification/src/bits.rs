use vstd::prelude::*;

verus! {

// Plain-value stand-ins for the GPU math types. Each component holds the
// IEEE-754 bit pattern of one single-precision number. The pipeline only
// routes these values into commands; it never computes with them, so the
// bit patterns are carried through unchanged and equality of two values is
// bit-for-bit equality of their components.

/// A three-component vector (direction, position or colour), each component
/// stored as the bit pattern of one single-precision number.
#[derive(Clone, Copy, Debug, PartialEq, Eq, Structural)]
pub struct Vec3Bits {
    pub x: u32,
    pub y: u32,
    pub z: u32,
}

/// A four-component vector (an RGBA colour), each component stored as the
/// bit pattern of one single-precision number.
#[derive(Clone, Copy, Debug, PartialEq, Eq, Structural)]
pub struct Vec4Bits {
    pub x: u32,
    pub y: u32,
    pub z: u32,
    pub w: u32,
}

/// A 4 by 4 matrix in row-major order, each entry stored as the bit pattern
/// of one single-precision number.
#[derive(Clone, Copy, Debug, PartialEq, Eq)]
pub struct Mat4Bits {
    pub entries: [u32; 16],
}

} // verus!
