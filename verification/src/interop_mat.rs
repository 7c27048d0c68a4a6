//! Conversions between the matrix family and glam's equivalent matrix
//! types. A matrix converts column-wise: each column vector is converted
//! independently, in order, and the result is reassembled preserving
//! column order. Both sides store matrices column-major, so nothing is
//! transposed. The component bit patterns carry over unchanged in both
//! directions, so converting there and back is bit-identical; the laws
//! `glam_round_trip` state this.

use vstd::prelude::*;

use crate::glam_api::dmat2_bits;
use crate::glam_api::dmat2_cols;
use crate::glam_api::dmat2_of_cols;
use crate::glam_api::dmat3_bits;
use crate::glam_api::dmat3_cols;
use crate::glam_api::dmat3_of_cols;
use crate::glam_api::dmat4_bits;
use crate::glam_api::dmat4_cols;
use crate::glam_api::dmat4_of_cols;
use crate::glam_api::mat2_bits;
use crate::glam_api::mat2_cols;
use crate::glam_api::mat2_of_cols;
use crate::glam_api::mat3_bits;
use crate::glam_api::mat3_cols;
use crate::glam_api::mat3_of_cols;
use crate::glam_api::mat4_bits;
use crate::glam_api::mat4_cols;
use crate::glam_api::mat4_of_cols;
use crate::matrices::Double2x2;
use crate::matrices::Double3x3;
use crate::matrices::Double4x4;
use crate::matrices::Float2x2;
use crate::matrices::Float3x3;
use crate::matrices::Float4x4;
use crate::vectors::Double2;
use crate::vectors::Double3;
use crate::vectors::Double4;
use crate::vectors::Float2;
use crate::vectors::Float3;
use crate::vectors::Float4;

verus! {

impl Float2x2 {
    /// Converts to glam's equivalent matrix, column by column; every
    /// column's stored component bit patterns carry over unchanged, and
    /// column order is preserved.
    pub fn to_glam(&self) -> (r: glam::Mat2)
        ensures
            mat2_bits(r) == ((self.x.x, self.x.y), (self.y.x, self.y.y)),
    {
        let c0 = self.x.to_glam();
        let c1 = self.y.to_glam();
        mat2_of_cols(c0, c1)
    }

    /// Converts back from glam's equivalent matrix, column by column;
    /// the components are the matrix's stored bit patterns, in column
    /// order.
    pub fn from_glam(m: &glam::Mat2) -> (r: Float2x2)
        ensures
            ((r.x.x, r.x.y), (r.y.x, r.y.y)) == mat2_bits(*m),
    {
        let (c0, c1) = mat2_cols(m);
        Float2x2 { x: Float2::from_glam(&c0), y: Float2::from_glam(&c1) }
    }

    /// Law: converting to the glam representation and back yields the
    /// original matrix bit for bit, column order preserved.
    pub fn glam_round_trip(&self) -> (r: Float2x2)
        ensures
            r == *self,
    {
        Float2x2::from_glam(&self.to_glam())
    }
}

impl Float3x3 {
    /// Converts to glam's equivalent matrix, column by column; every
    /// column's stored component bit patterns carry over unchanged, and
    /// column order is preserved.
    pub fn to_glam(&self) -> (r: glam::Mat3)
        ensures
            mat3_bits(r) == ((self.x.x, self.x.y, self.x.z), (self.y.x, self.y.y, self.y.z), (self.z.x, self.z.y, self.z.z)),
    {
        let c0 = self.x.to_glam();
        let c1 = self.y.to_glam();
        let c2 = self.z.to_glam();
        mat3_of_cols(c0, c1, c2)
    }

    /// Converts back from glam's equivalent matrix, column by column;
    /// the components are the matrix's stored bit patterns, in column
    /// order.
    pub fn from_glam(m: &glam::Mat3) -> (r: Float3x3)
        ensures
            ((r.x.x, r.x.y, r.x.z), (r.y.x, r.y.y, r.y.z), (r.z.x, r.z.y, r.z.z)) == mat3_bits(*m),
    {
        let (c0, c1, c2) = mat3_cols(m);
        Float3x3 { x: Float3::from_glam(&c0), y: Float3::from_glam(&c1), z: Float3::from_glam(&c2) }
    }

    /// Law: converting to the glam representation and back yields the
    /// original matrix bit for bit, column order preserved.
    pub fn glam_round_trip(&self) -> (r: Float3x3)
        ensures
            r == *self,
    {
        Float3x3::from_glam(&self.to_glam())
    }
}

impl Float4x4 {
    /// Converts to glam's equivalent matrix, column by column; every
    /// column's stored component bit patterns carry over unchanged, and
    /// column order is preserved.
    pub fn to_glam(&self) -> (r: glam::Mat4)
        ensures
            mat4_bits(r) == ((self.x.x, self.x.y, self.x.z, self.x.w), (self.y.x, self.y.y, self.y.z, self.y.w), (self.z.x, self.z.y, self.z.z, self.z.w), (self.w.x, self.w.y, self.w.z, self.w.w)),
    {
        let c0 = self.x.to_glam();
        let c1 = self.y.to_glam();
        let c2 = self.z.to_glam();
        let c3 = self.w.to_glam();
        mat4_of_cols(c0, c1, c2, c3)
    }

    /// Converts back from glam's equivalent matrix, column by column;
    /// the components are the matrix's stored bit patterns, in column
    /// order.
    pub fn from_glam(m: &glam::Mat4) -> (r: Float4x4)
        ensures
            ((r.x.x, r.x.y, r.x.z, r.x.w), (r.y.x, r.y.y, r.y.z, r.y.w), (r.z.x, r.z.y, r.z.z, r.z.w), (r.w.x, r.w.y, r.w.z, r.w.w)) == mat4_bits(*m),
    {
        let (c0, c1, c2, c3) = mat4_cols(m);
        Float4x4 { x: Float4::from_glam(&c0), y: Float4::from_glam(&c1), z: Float4::from_glam(&c2), w: Float4::from_glam(&c3) }
    }

    /// Law: converting to the glam representation and back yields the
    /// original matrix bit for bit, column order preserved.
    pub fn glam_round_trip(&self) -> (r: Float4x4)
        ensures
            r == *self,
    {
        Float4x4::from_glam(&self.to_glam())
    }
}

impl Double2x2 {
    /// Converts to glam's equivalent matrix, column by column; every
    /// column's stored component bit patterns carry over unchanged, and
    /// column order is preserved.
    pub fn to_glam(&self) -> (r: glam::DMat2)
        ensures
            dmat2_bits(r) == ((self.x.x, self.x.y), (self.y.x, self.y.y)),
    {
        let c0 = self.x.to_glam();
        let c1 = self.y.to_glam();
        dmat2_of_cols(c0, c1)
    }

    /// Converts back from glam's equivalent matrix, column by column;
    /// the components are the matrix's stored bit patterns, in column
    /// order.
    pub fn from_glam(m: &glam::DMat2) -> (r: Double2x2)
        ensures
            ((r.x.x, r.x.y), (r.y.x, r.y.y)) == dmat2_bits(*m),
    {
        let (c0, c1) = dmat2_cols(m);
        Double2x2 { x: Double2::from_glam(&c0), y: Double2::from_glam(&c1) }
    }

    /// Law: converting to the glam representation and back yields the
    /// original matrix bit for bit, column order preserved.
    pub fn glam_round_trip(&self) -> (r: Double2x2)
        ensures
            r == *self,
    {
        Double2x2::from_glam(&self.to_glam())
    }
}

impl Double3x3 {
    /// Converts to glam's equivalent matrix, column by column; every
    /// column's stored component bit patterns carry over unchanged, and
    /// column order is preserved.
    pub fn to_glam(&self) -> (r: glam::DMat3)
        ensures
            dmat3_bits(r) == ((self.x.x, self.x.y, self.x.z), (self.y.x, self.y.y, self.y.z), (self.z.x, self.z.y, self.z.z)),
    {
        let c0 = self.x.to_glam();
        let c1 = self.y.to_glam();
        let c2 = self.z.to_glam();
        dmat3_of_cols(c0, c1, c2)
    }

    /// Converts back from glam's equivalent matrix, column by column;
    /// the components are the matrix's stored bit patterns, in column
    /// order.
    pub fn from_glam(m: &glam::DMat3) -> (r: Double3x3)
        ensures
            ((r.x.x, r.x.y, r.x.z), (r.y.x, r.y.y, r.y.z), (r.z.x, r.z.y, r.z.z)) == dmat3_bits(*m),
    {
        let (c0, c1, c2) = dmat3_cols(m);
        Double3x3 { x: Double3::from_glam(&c0), y: Double3::from_glam(&c1), z: Double3::from_glam(&c2) }
    }

    /// Law: converting to the glam representation and back yields the
    /// original matrix bit for bit, column order preserved.
    pub fn glam_round_trip(&self) -> (r: Double3x3)
        ensures
            r == *self,
    {
        Double3x3::from_glam(&self.to_glam())
    }
}

impl Double4x4 {
    /// Converts to glam's equivalent matrix, column by column; every
    /// column's stored component bit patterns carry over unchanged, and
    /// column order is preserved.
    pub fn to_glam(&self) -> (r: glam::DMat4)
        ensures
            dmat4_bits(r) == ((self.x.x, self.x.y, self.x.z, self.x.w), (self.y.x, self.y.y, self.y.z, self.y.w), (self.z.x, self.z.y, self.z.z, self.z.w), (self.w.x, self.w.y, self.w.z, self.w.w)),
    {
        let c0 = self.x.to_glam();
        let c1 = self.y.to_glam();
        let c2 = self.z.to_glam();
        let c3 = self.w.to_glam();
        dmat4_of_cols(c0, c1, c2, c3)
    }

    /// Converts back from glam's equivalent matrix, column by column;
    /// the components are the matrix's stored bit patterns, in column
    /// order.
    pub fn from_glam(m: &glam::DMat4) -> (r: Double4x4)
        ensures
            ((r.x.x, r.x.y, r.x.z, r.x.w), (r.y.x, r.y.y, r.y.z, r.y.w), (r.z.x, r.z.y, r.z.z, r.z.w), (r.w.x, r.w.y, r.w.z, r.w.w)) == dmat4_bits(*m),
    {
        let (c0, c1, c2, c3) = dmat4_cols(m);
        Double4x4 { x: Double4::from_glam(&c0), y: Double4::from_glam(&c1), z: Double4::from_glam(&c2), w: Double4::from_glam(&c3) }
    }

    /// Law: converting to the glam representation and back yields the
    /// original matrix bit for bit, column order preserved.
    pub fn glam_round_trip(&self) -> (r: Double4x4)
        ensures
            r == *self,
    {
        Double4x4::from_glam(&self.to_glam())
    }
}

} // verus!
