//! Scalars and small vectors carried as IEEE 754 bit patterns.
//!
//! The GPU consumes 32-bit floats, but this crate never computes with
//! them: every float that crosses a buffer boundary is held as its exact
//! bit pattern (`u32` for single precision, `u64` for double precision).
//! The named constants below are the bit patterns of the few fixed scalar
//! values the renderer writes.

use vstd::prelude::*;

verus! {

/// Bit pattern of the 32-bit float `0.0`.
pub const F32_ZERO_BITS: u32 = 0x0000_0000;

/// Bit pattern of the 32-bit float `0.5`.
pub const F32_HALF_BITS: u32 = 0x3F00_0000;

/// Bit pattern of the 32-bit float `1.0`.
pub const F32_ONE_BITS: u32 = 0x3F80_0000;

/// Bit pattern of the 32-bit float `2.0`.
pub const F32_TWO_BITS: u32 = 0x4000_0000;

/// Bit pattern of the 32-bit float `32.0`.
pub const F32_THIRTY_TWO_BITS: u32 = 0x4200_0000;

/// Bit pattern of the 32-bit float `100.0`.
pub const F32_HUNDRED_BITS: u32 = 0x42C8_0000;

/// Bit pattern of the 64-bit float `0.1`.
pub const F64_TENTH_BITS: u64 = 0x3FB9_9999_9999_999A;

/// Bit pattern of the 64-bit float `0.2`.
pub const F64_FIFTH_BITS: u64 = 0x3FC9_9999_9999_999A;

/// Bit pattern of the 64-bit float `0.3`.
pub const F64_THREE_TENTHS_BITS: u64 = 0x3FD3_3333_3333_3333;

/// Bit pattern of the 64-bit float `1.0`.
pub const F64_ONE_BITS: u64 = 0x3FF0_0000_0000_0000;

/// A three-component vector of single-precision bit patterns.
#[derive(Clone, Copy, PartialEq, Eq, Structural, Debug)]
pub struct Vec3Bits {
    pub x: u32,
    pub y: u32,
    pub z: u32,
}

/// A four-component vector of single-precision bit patterns.
#[derive(Clone, Copy, PartialEq, Eq, Structural, Debug)]
pub struct Vec4Bits {
    pub x: u32,
    pub y: u32,
    pub z: u32,
    pub w: u32,
}

} // verus!
