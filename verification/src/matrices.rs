//! The matrix type family: for the two floating-point component kinds
//! and each arity 2, 3 or 4, a square matrix held as that many column
//! vectors, named `x`, `y`, `z`, `w` in declaration order. A matrix is a
//! tuple of columns, column-major by construction.

use vstd::prelude::*;

use crate::vectors::Double2;
use crate::vectors::Double3;
use crate::vectors::Double4;
use crate::vectors::Float2;
use crate::vectors::Float3;
use crate::vectors::Float4;

verus! {

/// A 2-by-2 matrix of 32-bit floating-point components, as 2 column
/// vectors; declared alignment 8 bytes.
pub struct Float2x2 {
    pub x: Float2,
    pub y: Float2,
}

impl Float2x2 {
    /// Builds the matrix from its column vectors, assigned positionally
    /// in declaration order: the first argument becomes the first
    /// column, and so on.
    pub fn new(x: Float2, y: Float2) -> (r: Float2x2)
        ensures
            r.x == x,
            r.y == y,
    {
        Float2x2 { x, y }
    }
}

/// A 3-by-3 matrix of 32-bit floating-point components, as 3 column
/// vectors; declared alignment 16 bytes.
pub struct Float3x3 {
    pub x: Float3,
    pub y: Float3,
    pub z: Float3,
}

impl Float3x3 {
    /// Builds the matrix from its column vectors, assigned positionally
    /// in declaration order: the first argument becomes the first
    /// column, and so on.
    pub fn new(x: Float3, y: Float3, z: Float3) -> (r: Float3x3)
        ensures
            r.x == x,
            r.y == y,
            r.z == z,
    {
        Float3x3 { x, y, z }
    }
}

/// A 4-by-4 matrix of 32-bit floating-point components, as 4 column
/// vectors; declared alignment 16 bytes.
pub struct Float4x4 {
    pub x: Float4,
    pub y: Float4,
    pub z: Float4,
    pub w: Float4,
}

impl Float4x4 {
    /// Builds the matrix from its column vectors, assigned positionally
    /// in declaration order: the first argument becomes the first
    /// column, and so on.
    pub fn new(x: Float4, y: Float4, z: Float4, w: Float4) -> (r: Float4x4)
        ensures
            r.x == x,
            r.y == y,
            r.z == z,
            r.w == w,
    {
        Float4x4 { x, y, z, w }
    }
}

/// A 2-by-2 matrix of 64-bit floating-point components, as 2 column
/// vectors; declared alignment 16 bytes.
pub struct Double2x2 {
    pub x: Double2,
    pub y: Double2,
}

impl Double2x2 {
    /// Builds the matrix from its column vectors, assigned positionally
    /// in declaration order: the first argument becomes the first
    /// column, and so on.
    pub fn new(x: Double2, y: Double2) -> (r: Double2x2)
        ensures
            r.x == x,
            r.y == y,
    {
        Double2x2 { x, y }
    }
}

/// A 3-by-3 matrix of 64-bit floating-point components, as 3 column
/// vectors; declared alignment 32 bytes.
pub struct Double3x3 {
    pub x: Double3,
    pub y: Double3,
    pub z: Double3,
}

impl Double3x3 {
    /// Builds the matrix from its column vectors, assigned positionally
    /// in declaration order: the first argument becomes the first
    /// column, and so on.
    pub fn new(x: Double3, y: Double3, z: Double3) -> (r: Double3x3)
        ensures
            r.x == x,
            r.y == y,
            r.z == z,
    {
        Double3x3 { x, y, z }
    }
}

/// A 4-by-4 matrix of 64-bit floating-point components, as 4 column
/// vectors; declared alignment 32 bytes.
pub struct Double4x4 {
    pub x: Double4,
    pub y: Double4,
    pub z: Double4,
    pub w: Double4,
}

impl Double4x4 {
    /// Builds the matrix from its column vectors, assigned positionally
    /// in declaration order: the first argument becomes the first
    /// column, and so on.
    pub fn new(x: Double4, y: Double4, z: Double4, w: Double4) -> (r: Double4x4)
        ensures
            r.x == x,
            r.y == y,
            r.z == z,
            r.w == w,
    {
        Double4x4 { x, y, z, w }
    }
}

} // verus!
