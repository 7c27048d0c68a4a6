//! The vector type family: for each component kind and each arity 2, 3
//! or 4, a plain record of named components `x`, `y`, `z`, `w` in
//! declaration order. Construction is total and positional; an instance
//! is an immutable-after-construction value.
//!
//! Floating-point components are held as their raw IEEE-754 bit patterns
//! (`u32` for 32-bit floats, `u64` for 64-bit floats), so every contract
//! speaks of exact bit values and conversions can be proved
//! bit-preserving. The declared byte layout of each type (field order and
//! the widened alignment of the table in [`crate::layout`]) is what a
//! GPU-facing buffer copy of these records must follow.

use vstd::prelude::*;

verus! {

/// An 8-bit signed component.
pub type Byte = i8;

/// An 8-bit unsigned component.
pub type Ubyte = u8;

/// A 16-bit signed component.
pub type Short = i16;

/// A 16-bit unsigned component.
pub type Ushort = u16;

/// A 32-bit signed component.
pub type Int = i32;

/// A 32-bit unsigned component.
pub type Uint = u32;

/// A 64-bit signed component.
pub type Long = i64;

/// A 64-bit unsigned component.
pub type Ulong = u64;

/// The bit pattern of a 32-bit IEEE-754 floating-point component.
pub type FloatBits = u32;

/// The bit pattern of a 64-bit IEEE-754 floating-point component.
pub type DoubleBits = u64;

/// A 2-component vector of 8-bit signed integers; declared alignment 2 bytes.
pub struct Byte2 {
    pub x: Byte,
    pub y: Byte,
}

impl Byte2 {
    /// Builds the vector from its components, assigned positionally in
    /// declaration order.
    pub fn new(x: Byte, y: Byte) -> (r: Byte2)
        ensures
            r.x == x,
            r.y == y,
    {
        Byte2 { x, y }
    }
}

/// A 3-component vector of 8-bit signed integers; declared alignment 4 bytes.
pub struct Byte3 {
    pub x: Byte,
    pub y: Byte,
    pub z: Byte,
}

impl Byte3 {
    /// Builds the vector from its components, assigned positionally in
    /// declaration order.
    pub fn new(x: Byte, y: Byte, z: Byte) -> (r: Byte3)
        ensures
            r.x == x,
            r.y == y,
            r.z == z,
    {
        Byte3 { x, y, z }
    }
}

/// A 4-component vector of 8-bit signed integers; declared alignment 4 bytes.
pub struct Byte4 {
    pub x: Byte,
    pub y: Byte,
    pub z: Byte,
    pub w: Byte,
}

impl Byte4 {
    /// Builds the vector from its components, assigned positionally in
    /// declaration order.
    pub fn new(x: Byte, y: Byte, z: Byte, w: Byte) -> (r: Byte4)
        ensures
            r.x == x,
            r.y == y,
            r.z == z,
            r.w == w,
    {
        Byte4 { x, y, z, w }
    }
}

/// A 2-component vector of 8-bit unsigned integers; declared alignment 2 bytes.
pub struct Ubyte2 {
    pub x: Ubyte,
    pub y: Ubyte,
}

impl Ubyte2 {
    /// Builds the vector from its components, assigned positionally in
    /// declaration order.
    pub fn new(x: Ubyte, y: Ubyte) -> (r: Ubyte2)
        ensures
            r.x == x,
            r.y == y,
    {
        Ubyte2 { x, y }
    }
}

/// A 3-component vector of 8-bit unsigned integers; declared alignment 4 bytes.
pub struct Ubyte3 {
    pub x: Ubyte,
    pub y: Ubyte,
    pub z: Ubyte,
}

impl Ubyte3 {
    /// Builds the vector from its components, assigned positionally in
    /// declaration order.
    pub fn new(x: Ubyte, y: Ubyte, z: Ubyte) -> (r: Ubyte3)
        ensures
            r.x == x,
            r.y == y,
            r.z == z,
    {
        Ubyte3 { x, y, z }
    }
}

/// A 4-component vector of 8-bit unsigned integers; declared alignment 4 bytes.
pub struct Ubyte4 {
    pub x: Ubyte,
    pub y: Ubyte,
    pub z: Ubyte,
    pub w: Ubyte,
}

impl Ubyte4 {
    /// Builds the vector from its components, assigned positionally in
    /// declaration order.
    pub fn new(x: Ubyte, y: Ubyte, z: Ubyte, w: Ubyte) -> (r: Ubyte4)
        ensures
            r.x == x,
            r.y == y,
            r.z == z,
            r.w == w,
    {
        Ubyte4 { x, y, z, w }
    }
}

/// A 2-component vector of 16-bit signed integers; declared alignment 4 bytes.
pub struct Short2 {
    pub x: Short,
    pub y: Short,
}

impl Short2 {
    /// Builds the vector from its components, assigned positionally in
    /// declaration order.
    pub fn new(x: Short, y: Short) -> (r: Short2)
        ensures
            r.x == x,
            r.y == y,
    {
        Short2 { x, y }
    }
}

/// A 3-component vector of 16-bit signed integers; declared alignment 8 bytes.
pub struct Short3 {
    pub x: Short,
    pub y: Short,
    pub z: Short,
}

impl Short3 {
    /// Builds the vector from its components, assigned positionally in
    /// declaration order.
    pub fn new(x: Short, y: Short, z: Short) -> (r: Short3)
        ensures
            r.x == x,
            r.y == y,
            r.z == z,
    {
        Short3 { x, y, z }
    }
}

/// A 4-component vector of 16-bit signed integers; declared alignment 8 bytes.
pub struct Short4 {
    pub x: Short,
    pub y: Short,
    pub z: Short,
    pub w: Short,
}

impl Short4 {
    /// Builds the vector from its components, assigned positionally in
    /// declaration order.
    pub fn new(x: Short, y: Short, z: Short, w: Short) -> (r: Short4)
        ensures
            r.x == x,
            r.y == y,
            r.z == z,
            r.w == w,
    {
        Short4 { x, y, z, w }
    }
}

/// A 2-component vector of 16-bit unsigned integers; declared alignment 4 bytes.
pub struct Ushort2 {
    pub x: Ushort,
    pub y: Ushort,
}

impl Ushort2 {
    /// Builds the vector from its components, assigned positionally in
    /// declaration order.
    pub fn new(x: Ushort, y: Ushort) -> (r: Ushort2)
        ensures
            r.x == x,
            r.y == y,
    {
        Ushort2 { x, y }
    }
}

/// A 3-component vector of 16-bit unsigned integers; declared alignment 8 bytes.
pub struct Ushort3 {
    pub x: Ushort,
    pub y: Ushort,
    pub z: Ushort,
}

impl Ushort3 {
    /// Builds the vector from its components, assigned positionally in
    /// declaration order.
    pub fn new(x: Ushort, y: Ushort, z: Ushort) -> (r: Ushort3)
        ensures
            r.x == x,
            r.y == y,
            r.z == z,
    {
        Ushort3 { x, y, z }
    }
}

/// A 4-component vector of 16-bit unsigned integers; declared alignment 8 bytes.
pub struct Ushort4 {
    pub x: Ushort,
    pub y: Ushort,
    pub z: Ushort,
    pub w: Ushort,
}

impl Ushort4 {
    /// Builds the vector from its components, assigned positionally in
    /// declaration order.
    pub fn new(x: Ushort, y: Ushort, z: Ushort, w: Ushort) -> (r: Ushort4)
        ensures
            r.x == x,
            r.y == y,
            r.z == z,
            r.w == w,
    {
        Ushort4 { x, y, z, w }
    }
}

/// A 2-component vector of 32-bit signed integers; declared alignment 8 bytes.
pub struct Int2 {
    pub x: Int,
    pub y: Int,
}

impl Int2 {
    /// Builds the vector from its components, assigned positionally in
    /// declaration order.
    pub fn new(x: Int, y: Int) -> (r: Int2)
        ensures
            r.x == x,
            r.y == y,
    {
        Int2 { x, y }
    }
}

/// A 3-component vector of 32-bit signed integers; declared alignment 16 bytes.
pub struct Int3 {
    pub x: Int,
    pub y: Int,
    pub z: Int,
}

impl Int3 {
    /// Builds the vector from its components, assigned positionally in
    /// declaration order.
    pub fn new(x: Int, y: Int, z: Int) -> (r: Int3)
        ensures
            r.x == x,
            r.y == y,
            r.z == z,
    {
        Int3 { x, y, z }
    }
}

/// A 4-component vector of 32-bit signed integers; declared alignment 16 bytes.
pub struct Int4 {
    pub x: Int,
    pub y: Int,
    pub z: Int,
    pub w: Int,
}

impl Int4 {
    /// Builds the vector from its components, assigned positionally in
    /// declaration order.
    pub fn new(x: Int, y: Int, z: Int, w: Int) -> (r: Int4)
        ensures
            r.x == x,
            r.y == y,
            r.z == z,
            r.w == w,
    {
        Int4 { x, y, z, w }
    }
}

/// A 2-component vector of 32-bit unsigned integers; declared alignment 8 bytes.
pub struct Uint2 {
    pub x: Uint,
    pub y: Uint,
}

impl Uint2 {
    /// Builds the vector from its components, assigned positionally in
    /// declaration order.
    pub fn new(x: Uint, y: Uint) -> (r: Uint2)
        ensures
            r.x == x,
            r.y == y,
    {
        Uint2 { x, y }
    }
}

/// A 3-component vector of 32-bit unsigned integers; declared alignment 16 bytes.
pub struct Uint3 {
    pub x: Uint,
    pub y: Uint,
    pub z: Uint,
}

impl Uint3 {
    /// Builds the vector from its components, assigned positionally in
    /// declaration order.
    pub fn new(x: Uint, y: Uint, z: Uint) -> (r: Uint3)
        ensures
            r.x == x,
            r.y == y,
            r.z == z,
    {
        Uint3 { x, y, z }
    }
}

/// A 4-component vector of 32-bit unsigned integers; declared alignment 16 bytes.
pub struct Uint4 {
    pub x: Uint,
    pub y: Uint,
    pub z: Uint,
    pub w: Uint,
}

impl Uint4 {
    /// Builds the vector from its components, assigned positionally in
    /// declaration order.
    pub fn new(x: Uint, y: Uint, z: Uint, w: Uint) -> (r: Uint4)
        ensures
            r.x == x,
            r.y == y,
            r.z == z,
            r.w == w,
    {
        Uint4 { x, y, z, w }
    }
}

/// A 2-component vector of 32-bit floating-point components, stored as their IEEE-754 binary32 bit patterns; declared alignment 8 bytes.
pub struct Float2 {
    pub x: FloatBits,
    pub y: FloatBits,
}

impl Float2 {
    /// Builds the vector from its components, assigned positionally in
    /// declaration order.
    pub fn new(x: FloatBits, y: FloatBits) -> (r: Float2)
        ensures
            r.x == x,
            r.y == y,
    {
        Float2 { x, y }
    }
}

/// A 3-component vector of 32-bit floating-point components, stored as their IEEE-754 binary32 bit patterns; declared alignment 16 bytes.
pub struct Float3 {
    pub x: FloatBits,
    pub y: FloatBits,
    pub z: FloatBits,
}

impl Float3 {
    /// Builds the vector from its components, assigned positionally in
    /// declaration order.
    pub fn new(x: FloatBits, y: FloatBits, z: FloatBits) -> (r: Float3)
        ensures
            r.x == x,
            r.y == y,
            r.z == z,
    {
        Float3 { x, y, z }
    }
}

/// A 4-component vector of 32-bit floating-point components, stored as their IEEE-754 binary32 bit patterns; declared alignment 16 bytes.
pub struct Float4 {
    pub x: FloatBits,
    pub y: FloatBits,
    pub z: FloatBits,
    pub w: FloatBits,
}

impl Float4 {
    /// Builds the vector from its components, assigned positionally in
    /// declaration order.
    pub fn new(x: FloatBits, y: FloatBits, z: FloatBits, w: FloatBits) -> (r: Float4)
        ensures
            r.x == x,
            r.y == y,
            r.z == z,
            r.w == w,
    {
        Float4 { x, y, z, w }
    }
}

/// A 2-component vector of 64-bit floating-point components, stored as their IEEE-754 binary64 bit patterns; declared alignment 16 bytes.
pub struct Double2 {
    pub x: DoubleBits,
    pub y: DoubleBits,
}

impl Double2 {
    /// Builds the vector from its components, assigned positionally in
    /// declaration order.
    pub fn new(x: DoubleBits, y: DoubleBits) -> (r: Double2)
        ensures
            r.x == x,
            r.y == y,
    {
        Double2 { x, y }
    }
}

/// A 3-component vector of 64-bit floating-point components, stored as their IEEE-754 binary64 bit patterns; declared alignment 32 bytes.
pub struct Double3 {
    pub x: DoubleBits,
    pub y: DoubleBits,
    pub z: DoubleBits,
}

impl Double3 {
    /// Builds the vector from its components, assigned positionally in
    /// declaration order.
    pub fn new(x: DoubleBits, y: DoubleBits, z: DoubleBits) -> (r: Double3)
        ensures
            r.x == x,
            r.y == y,
            r.z == z,
    {
        Double3 { x, y, z }
    }
}

/// A 4-component vector of 64-bit floating-point components, stored as their IEEE-754 binary64 bit patterns; declared alignment 32 bytes.
pub struct Double4 {
    pub x: DoubleBits,
    pub y: DoubleBits,
    pub z: DoubleBits,
    pub w: DoubleBits,
}

impl Double4 {
    /// Builds the vector from its components, assigned positionally in
    /// declaration order.
    pub fn new(x: DoubleBits, y: DoubleBits, z: DoubleBits, w: DoubleBits) -> (r: Double4)
        ensures
            r.x == x,
            r.y == y,
            r.z == z,
            r.w == w,
    {
        Double4 { x, y, z, w }
    }
}

} // verus!
