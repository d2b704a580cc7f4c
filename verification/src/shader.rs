//! A small vertex shader written against the vector type this backend
//! lowers, fixing concrete values the lowering core consumes. Floating-point
//! components are carried as their IEEE-754 bit patterns, the form the
//! constant pool holds them in.

use vstd::prelude::*;

verus! {

/// The bit pattern of the 32-bit float 0.0.
pub const F32_ZERO_BITS: u32 = 0x0000_0000;

/// The bit pattern of the 32-bit float 1.0.
pub const F32_ONE_BITS: u32 = 0x3F80_0000;

/// A four-component vector of 32-bit floats, each component held as its bit
/// pattern.
#[allow(non_camel_case_types)]
#[derive(Clone, Copy, Debug, PartialEq, Eq)]
pub struct float4 {
    pub x: u32,
    pub y: u32,
    pub z: u32,
    pub w: u32,
}

impl float4 {
    /// Build a vector from four component bit patterns.
    pub fn new(x: u32, y: u32, z: u32, w: u32) -> (r: float4)
        ensures
            r == (float4 { x, y, z, w }),
    {
        float4 { x, y, z, w }
    }
}

/// Vertex-stage input: a position attribute.
#[derive(Clone, Copy, Debug, PartialEq, Eq)]
pub struct VertexInput {
    pub pos: float4,
}

/// Vertex-stage output: the produced position.
#[derive(Clone, Copy, Debug, PartialEq, Eq)]
pub struct VertexVarying {
    pub pos: float4,
}

/// The vertex entry point: produces position (1.0, 1.0, 0.0, 1.0) for every
/// input.
pub fn vertex(_input: VertexInput) -> (r: VertexVarying)
    ensures
        r.pos == (float4 { x: F32_ONE_BITS, y: F32_ONE_BITS, z: F32_ZERO_BITS, w: F32_ONE_BITS }),
{
    float4::new(F32_ZERO_BITS, F32_ONE_BITS, F32_ZERO_BITS, F32_ONE_BITS);
    VertexVarying { pos: float4::new(F32_ONE_BITS, F32_ONE_BITS, F32_ZERO_BITS, F32_ONE_BITS) }
}

} // verus!
