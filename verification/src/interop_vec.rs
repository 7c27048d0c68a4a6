//! Conversions between the vector family and glam's equivalent vector
//! types: one operation per direction per supported pair. All eight
//! component kinds convert; each conversion is a pure, total,
//! component-for-component copy.
//!
//! Integer components carry over unchanged, since glam's integer vectors
//! use the same widths. Floating-point components carry over as their
//! exact bit patterns, so converting there and back is bit-identical; the
//! laws `glam_round_trip` state this. The one lossy path is the
//! documented narrowing of 32-bit unsigned components to glam's 16-bit
//! vector, which truncates to the low 16 bits.

use vstd::prelude::*;

use crate::glam_api::dvec2_bits;
use crate::glam_api::dvec2_of_bits;
use crate::glam_api::dvec2_to_bits;
use crate::glam_api::dvec3_bits;
use crate::glam_api::dvec3_of_bits;
use crate::glam_api::dvec3_to_bits;
use crate::glam_api::dvec4_bits;
use crate::glam_api::dvec4_of_bits;
use crate::glam_api::dvec4_to_bits;
use crate::glam_api::vec2_bits;
use crate::glam_api::vec2_of_bits;
use crate::glam_api::vec2_to_bits;
use crate::glam_api::vec3_bits;
use crate::glam_api::vec3_of_bits;
use crate::glam_api::vec3_to_bits;
use crate::glam_api::vec4_bits;
use crate::glam_api::vec4_of_bits;
use crate::glam_api::vec4_to_bits;

use crate::vectors::Byte2;
use crate::vectors::Byte3;
use crate::vectors::Byte4;
use crate::vectors::Ubyte2;
use crate::vectors::Ubyte3;
use crate::vectors::Ubyte4;
use crate::vectors::Short2;
use crate::vectors::Short3;
use crate::vectors::Short4;
use crate::vectors::Ushort2;
use crate::vectors::Ushort3;
use crate::vectors::Ushort4;
use crate::vectors::Int2;
use crate::vectors::Int3;
use crate::vectors::Int4;
use crate::vectors::Uint2;
use crate::vectors::Uint3;
use crate::vectors::Uint4;
use crate::vectors::Float2;
use crate::vectors::Float3;
use crate::vectors::Float4;
use crate::vectors::Double2;
use crate::vectors::Double3;
use crate::vectors::Double4;

verus! {

impl Byte2 {
    /// Converts to glam's equivalent vector; each component carries
    /// over unchanged, in order.
    pub fn to_glam(&self) -> (r: glam::I8Vec2)
        ensures
            r.x == self.x,
            r.y == self.y,
    {
        glam::I8Vec2 { x: self.x, y: self.y }
    }

    /// Converts back from glam's equivalent vector; each component
    /// carries over unchanged, in order.
    pub fn from_glam(v: &glam::I8Vec2) -> (r: Byte2)
        ensures
            r.x == v.x,
            r.y == v.y,
    {
        Byte2 { x: v.x, y: v.y }
    }
}

impl Byte3 {
    /// Converts to glam's equivalent vector; each component carries
    /// over unchanged, in order.
    pub fn to_glam(&self) -> (r: glam::I8Vec3)
        ensures
            r.x == self.x,
            r.y == self.y,
            r.z == self.z,
    {
        glam::I8Vec3 { x: self.x, y: self.y, z: self.z }
    }

    /// Converts back from glam's equivalent vector; each component
    /// carries over unchanged, in order.
    pub fn from_glam(v: &glam::I8Vec3) -> (r: Byte3)
        ensures
            r.x == v.x,
            r.y == v.y,
            r.z == v.z,
    {
        Byte3 { x: v.x, y: v.y, z: v.z }
    }
}

impl Byte4 {
    /// Converts to glam's equivalent vector; each component carries
    /// over unchanged, in order.
    pub fn to_glam(&self) -> (r: glam::I8Vec4)
        ensures
            r.x == self.x,
            r.y == self.y,
            r.z == self.z,
            r.w == self.w,
    {
        glam::I8Vec4 { x: self.x, y: self.y, z: self.z, w: self.w }
    }

    /// Converts back from glam's equivalent vector; each component
    /// carries over unchanged, in order.
    pub fn from_glam(v: &glam::I8Vec4) -> (r: Byte4)
        ensures
            r.x == v.x,
            r.y == v.y,
            r.z == v.z,
            r.w == v.w,
    {
        Byte4 { x: v.x, y: v.y, z: v.z, w: v.w }
    }
}

impl Ubyte2 {
    /// Converts to glam's equivalent vector; each component carries
    /// over unchanged, in order.
    pub fn to_glam(&self) -> (r: glam::U8Vec2)
        ensures
            r.x == self.x,
            r.y == self.y,
    {
        glam::U8Vec2 { x: self.x, y: self.y }
    }

    /// Converts back from glam's equivalent vector; each component
    /// carries over unchanged, in order.
    pub fn from_glam(v: &glam::U8Vec2) -> (r: Ubyte2)
        ensures
            r.x == v.x,
            r.y == v.y,
    {
        Ubyte2 { x: v.x, y: v.y }
    }
}

impl Ubyte3 {
    /// Converts to glam's equivalent vector; each component carries
    /// over unchanged, in order.
    pub fn to_glam(&self) -> (r: glam::U8Vec3)
        ensures
            r.x == self.x,
            r.y == self.y,
            r.z == self.z,
    {
        glam::U8Vec3 { x: self.x, y: self.y, z: self.z }
    }

    /// Converts back from glam's equivalent vector; each component
    /// carries over unchanged, in order.
    pub fn from_glam(v: &glam::U8Vec3) -> (r: Ubyte3)
        ensures
            r.x == v.x,
            r.y == v.y,
            r.z == v.z,
    {
        Ubyte3 { x: v.x, y: v.y, z: v.z }
    }
}

impl Ubyte4 {
    /// Converts to glam's equivalent vector; each component carries
    /// over unchanged, in order.
    pub fn to_glam(&self) -> (r: glam::U8Vec4)
        ensures
            r.x == self.x,
            r.y == self.y,
            r.z == self.z,
            r.w == self.w,
    {
        glam::U8Vec4 { x: self.x, y: self.y, z: self.z, w: self.w }
    }

    /// Converts back from glam's equivalent vector; each component
    /// carries over unchanged, in order.
    pub fn from_glam(v: &glam::U8Vec4) -> (r: Ubyte4)
        ensures
            r.x == v.x,
            r.y == v.y,
            r.z == v.z,
            r.w == v.w,
    {
        Ubyte4 { x: v.x, y: v.y, z: v.z, w: v.w }
    }
}

impl Short2 {
    /// Converts to glam's equivalent vector; each component carries
    /// over unchanged, in order.
    pub fn to_glam(&self) -> (r: glam::I16Vec2)
        ensures
            r.x == self.x,
            r.y == self.y,
    {
        glam::I16Vec2 { x: self.x, y: self.y }
    }

    /// Converts back from glam's equivalent vector; each component
    /// carries over unchanged, in order.
    pub fn from_glam(v: &glam::I16Vec2) -> (r: Short2)
        ensures
            r.x == v.x,
            r.y == v.y,
    {
        Short2 { x: v.x, y: v.y }
    }
}

impl Short3 {
    /// Converts to glam's equivalent vector; each component carries
    /// over unchanged, in order.
    pub fn to_glam(&self) -> (r: glam::I16Vec3)
        ensures
            r.x == self.x,
            r.y == self.y,
            r.z == self.z,
    {
        glam::I16Vec3 { x: self.x, y: self.y, z: self.z }
    }

    /// Converts back from glam's equivalent vector; each component
    /// carries over unchanged, in order.
    pub fn from_glam(v: &glam::I16Vec3) -> (r: Short3)
        ensures
            r.x == v.x,
            r.y == v.y,
            r.z == v.z,
    {
        Short3 { x: v.x, y: v.y, z: v.z }
    }
}

impl Short4 {
    /// Converts to glam's equivalent vector; each component carries
    /// over unchanged, in order.
    pub fn to_glam(&self) -> (r: glam::I16Vec4)
        ensures
            r.x == self.x,
            r.y == self.y,
            r.z == self.z,
            r.w == self.w,
    {
        glam::I16Vec4 { x: self.x, y: self.y, z: self.z, w: self.w }
    }

    /// Converts back from glam's equivalent vector; each component
    /// carries over unchanged, in order.
    pub fn from_glam(v: &glam::I16Vec4) -> (r: Short4)
        ensures
            r.x == v.x,
            r.y == v.y,
            r.z == v.z,
            r.w == v.w,
    {
        Short4 { x: v.x, y: v.y, z: v.z, w: v.w }
    }
}

impl Ushort2 {
    /// Converts to glam's equivalent vector; each component carries
    /// over unchanged, in order.
    pub fn to_glam(&self) -> (r: glam::U16Vec2)
        ensures
            r.x == self.x,
            r.y == self.y,
    {
        glam::U16Vec2 { x: self.x, y: self.y }
    }

    /// Converts back from glam's equivalent vector; each component
    /// carries over unchanged, in order.
    pub fn from_glam(v: &glam::U16Vec2) -> (r: Ushort2)
        ensures
            r.x == v.x,
            r.y == v.y,
    {
        Ushort2 { x: v.x, y: v.y }
    }
}

impl Ushort3 {
    /// Converts to glam's equivalent vector; each component carries
    /// over unchanged, in order.
    pub fn to_glam(&self) -> (r: glam::U16Vec3)
        ensures
            r.x == self.x,
            r.y == self.y,
            r.z == self.z,
    {
        glam::U16Vec3 { x: self.x, y: self.y, z: self.z }
    }

    /// Converts back from glam's equivalent vector; each component
    /// carries over unchanged, in order.
    pub fn from_glam(v: &glam::U16Vec3) -> (r: Ushort3)
        ensures
            r.x == v.x,
            r.y == v.y,
            r.z == v.z,
    {
        Ushort3 { x: v.x, y: v.y, z: v.z }
    }
}

impl Ushort4 {
    /// Converts to glam's equivalent vector; each component carries
    /// over unchanged, in order.
    pub fn to_glam(&self) -> (r: glam::U16Vec4)
        ensures
            r.x == self.x,
            r.y == self.y,
            r.z == self.z,
            r.w == self.w,
    {
        glam::U16Vec4 { x: self.x, y: self.y, z: self.z, w: self.w }
    }

    /// Converts back from glam's equivalent vector; each component
    /// carries over unchanged, in order.
    pub fn from_glam(v: &glam::U16Vec4) -> (r: Ushort4)
        ensures
            r.x == v.x,
            r.y == v.y,
            r.z == v.z,
            r.w == v.w,
    {
        Ushort4 { x: v.x, y: v.y, z: v.z, w: v.w }
    }
}

impl Int2 {
    /// Converts to glam's equivalent vector; each component carries
    /// over unchanged, in order.
    pub fn to_glam(&self) -> (r: glam::IVec2)
        ensures
            r.x == self.x,
            r.y == self.y,
    {
        glam::IVec2 { x: self.x, y: self.y }
    }

    /// Converts back from glam's equivalent vector; each component
    /// carries over unchanged, in order.
    pub fn from_glam(v: &glam::IVec2) -> (r: Int2)
        ensures
            r.x == v.x,
            r.y == v.y,
    {
        Int2 { x: v.x, y: v.y }
    }
}

impl Int3 {
    /// Converts to glam's equivalent vector; each component carries
    /// over unchanged, in order.
    pub fn to_glam(&self) -> (r: glam::IVec3)
        ensures
            r.x == self.x,
            r.y == self.y,
            r.z == self.z,
    {
        glam::IVec3 { x: self.x, y: self.y, z: self.z }
    }

    /// Converts back from glam's equivalent vector; each component
    /// carries over unchanged, in order.
    pub fn from_glam(v: &glam::IVec3) -> (r: Int3)
        ensures
            r.x == v.x,
            r.y == v.y,
            r.z == v.z,
    {
        Int3 { x: v.x, y: v.y, z: v.z }
    }
}

impl Int4 {
    /// Converts to glam's equivalent vector; each component carries
    /// over unchanged, in order.
    pub fn to_glam(&self) -> (r: glam::IVec4)
        ensures
            r.x == self.x,
            r.y == self.y,
            r.z == self.z,
            r.w == self.w,
    {
        glam::IVec4 { x: self.x, y: self.y, z: self.z, w: self.w }
    }

    /// Converts back from glam's equivalent vector; each component
    /// carries over unchanged, in order.
    pub fn from_glam(v: &glam::IVec4) -> (r: Int4)
        ensures
            r.x == v.x,
            r.y == v.y,
            r.z == v.z,
            r.w == v.w,
    {
        Int4 { x: v.x, y: v.y, z: v.z, w: v.w }
    }
}

impl Uint2 {
    /// Converts to glam's equivalent vector; each component carries
    /// over unchanged, in order.
    pub fn to_glam(&self) -> (r: glam::UVec2)
        ensures
            r.x == self.x,
            r.y == self.y,
    {
        glam::UVec2 { x: self.x, y: self.y }
    }

    /// Converts back from glam's equivalent vector; each component
    /// carries over unchanged, in order.
    pub fn from_glam(v: &glam::UVec2) -> (r: Uint2)
        ensures
            r.x == v.x,
            r.y == v.y,
    {
        Uint2 { x: v.x, y: v.y }
    }
}

impl Uint3 {
    /// Converts to glam's equivalent vector; each component carries
    /// over unchanged, in order.
    pub fn to_glam(&self) -> (r: glam::UVec3)
        ensures
            r.x == self.x,
            r.y == self.y,
            r.z == self.z,
    {
        glam::UVec3 { x: self.x, y: self.y, z: self.z }
    }

    /// Converts back from glam's equivalent vector; each component
    /// carries over unchanged, in order.
    pub fn from_glam(v: &glam::UVec3) -> (r: Uint3)
        ensures
            r.x == v.x,
            r.y == v.y,
            r.z == v.z,
    {
        Uint3 { x: v.x, y: v.y, z: v.z }
    }
}

impl Uint4 {
    /// Converts to glam's equivalent vector; each component carries
    /// over unchanged, in order.
    pub fn to_glam(&self) -> (r: glam::UVec4)
        ensures
            r.x == self.x,
            r.y == self.y,
            r.z == self.z,
            r.w == self.w,
    {
        glam::UVec4 { x: self.x, y: self.y, z: self.z, w: self.w }
    }

    /// Converts back from glam's equivalent vector; each component
    /// carries over unchanged, in order.
    pub fn from_glam(v: &glam::UVec4) -> (r: Uint4)
        ensures
            r.x == v.x,
            r.y == v.y,
            r.z == v.z,
            r.w == v.w,
    {
        Uint4 { x: v.x, y: v.y, z: v.z, w: v.w }
    }
}

impl Float2 {
    /// Converts to glam's equivalent floating-point vector; the stored
    /// component bit patterns carry over unchanged, in order.
    pub fn to_glam(&self) -> (r: glam::Vec2)
        ensures
            vec2_bits(r) == (self.x, self.y),
    {
        vec2_of_bits(self.x, self.y)
    }

    /// Converts back from glam's equivalent vector; the components are
    /// the vector's stored bit patterns, in order.
    pub fn from_glam(v: &glam::Vec2) -> (r: Float2)
        ensures
            (r.x, r.y) == vec2_bits(*v),
    {
        let (x, y) = vec2_to_bits(v);
        Float2 { x, y }
    }

    /// Law: converting to the glam representation and back yields the
    /// original components bit for bit.
    pub fn glam_round_trip(&self) -> (r: Float2)
        ensures
            r == *self,
    {
        Float2::from_glam(&self.to_glam())
    }
}

impl Float3 {
    /// Converts to glam's equivalent floating-point vector; the stored
    /// component bit patterns carry over unchanged, in order.
    pub fn to_glam(&self) -> (r: glam::Vec3)
        ensures
            vec3_bits(r) == (self.x, self.y, self.z),
    {
        vec3_of_bits(self.x, self.y, self.z)
    }

    /// Converts back from glam's equivalent vector; the components are
    /// the vector's stored bit patterns, in order.
    pub fn from_glam(v: &glam::Vec3) -> (r: Float3)
        ensures
            (r.x, r.y, r.z) == vec3_bits(*v),
    {
        let (x, y, z) = vec3_to_bits(v);
        Float3 { x, y, z }
    }

    /// Law: converting to the glam representation and back yields the
    /// original components bit for bit.
    pub fn glam_round_trip(&self) -> (r: Float3)
        ensures
            r == *self,
    {
        Float3::from_glam(&self.to_glam())
    }
}

impl Float4 {
    /// Converts to glam's equivalent floating-point vector; the stored
    /// component bit patterns carry over unchanged, in order.
    pub fn to_glam(&self) -> (r: glam::Vec4)
        ensures
            vec4_bits(r) == (self.x, self.y, self.z, self.w),
    {
        vec4_of_bits(self.x, self.y, self.z, self.w)
    }

    /// Converts back from glam's equivalent vector; the components are
    /// the vector's stored bit patterns, in order.
    pub fn from_glam(v: &glam::Vec4) -> (r: Float4)
        ensures
            (r.x, r.y, r.z, r.w) == vec4_bits(*v),
    {
        let (x, y, z, w) = vec4_to_bits(v);
        Float4 { x, y, z, w }
    }

    /// Law: converting to the glam representation and back yields the
    /// original components bit for bit.
    pub fn glam_round_trip(&self) -> (r: Float4)
        ensures
            r == *self,
    {
        Float4::from_glam(&self.to_glam())
    }
}

impl Double2 {
    /// Converts to glam's equivalent floating-point vector; the stored
    /// component bit patterns carry over unchanged, in order.
    pub fn to_glam(&self) -> (r: glam::DVec2)
        ensures
            dvec2_bits(r) == (self.x, self.y),
    {
        dvec2_of_bits(self.x, self.y)
    }

    /// Converts back from glam's equivalent vector; the components are
    /// the vector's stored bit patterns, in order.
    pub fn from_glam(v: &glam::DVec2) -> (r: Double2)
        ensures
            (r.x, r.y) == dvec2_bits(*v),
    {
        let (x, y) = dvec2_to_bits(v);
        Double2 { x, y }
    }

    /// Law: converting to the glam representation and back yields the
    /// original components bit for bit.
    pub fn glam_round_trip(&self) -> (r: Double2)
        ensures
            r == *self,
    {
        Double2::from_glam(&self.to_glam())
    }
}

impl Double3 {
    /// Converts to glam's equivalent floating-point vector; the stored
    /// component bit patterns carry over unchanged, in order.
    pub fn to_glam(&self) -> (r: glam::DVec3)
        ensures
            dvec3_bits(r) == (self.x, self.y, self.z),
    {
        dvec3_of_bits(self.x, self.y, self.z)
    }

    /// Converts back from glam's equivalent vector; the components are
    /// the vector's stored bit patterns, in order.
    pub fn from_glam(v: &glam::DVec3) -> (r: Double3)
        ensures
            (r.x, r.y, r.z) == dvec3_bits(*v),
    {
        let (x, y, z) = dvec3_to_bits(v);
        Double3 { x, y, z }
    }

    /// Law: converting to the glam representation and back yields the
    /// original components bit for bit.
    pub fn glam_round_trip(&self) -> (r: Double3)
        ensures
            r == *self,
    {
        Double3::from_glam(&self.to_glam())
    }
}

impl Double4 {
    /// Converts to glam's equivalent floating-point vector; the stored
    /// component bit patterns carry over unchanged, in order.
    pub fn to_glam(&self) -> (r: glam::DVec4)
        ensures
            dvec4_bits(r) == (self.x, self.y, self.z, self.w),
    {
        dvec4_of_bits(self.x, self.y, self.z, self.w)
    }

    /// Converts back from glam's equivalent vector; the components are
    /// the vector's stored bit patterns, in order.
    pub fn from_glam(v: &glam::DVec4) -> (r: Double4)
        ensures
            (r.x, r.y, r.z, r.w) == dvec4_bits(*v),
    {
        let (x, y, z, w) = dvec4_to_bits(v);
        Double4 { x, y, z, w }
    }

    /// Law: converting to the glam representation and back yields the
    /// original components bit for bit.
    pub fn glam_round_trip(&self) -> (r: Double4)
        ensures
            r == *self,
    {
        Double4::from_glam(&self.to_glam())
    }
}

/// Law: narrowing a 32-bit unsigned component to 16 bits keeps exactly
/// the low 16 bits of its value, as two's-complement truncation does.
pub proof fn lemma_narrowing_truncates(v: u32)
    ensures
        (v as u16) as u32 == v & 0xffff,
{
    assert((v as u16) as u32 == v & 0xffff) by (bit_vector);
}

impl Uint4 {
    /// Converts into glam's narrower 16-bit unsigned vector. Each
    /// component is truncated to its low 16 bits, two's-complement style:
    /// a documented, silent data-loss path, not an error.
    pub fn to_glam_narrowed(&self) -> (r: glam::U16Vec4)
        ensures
            r.x == self.x as u16,
            r.y == self.y as u16,
            r.z == self.z as u16,
            r.w == self.w as u16,
    {
        glam::U16Vec4 {
            x: self.x as u16,
            y: self.y as u16,
            z: self.z as u16,
            w: self.w as u16,
        }
    }
}

} // verus!
