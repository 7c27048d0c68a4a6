//! The trusted boundary to the `glam` linear-algebra crate: type
//! declarations for its vector and matrix types, names for the component
//! bits that its opaque floating-point values hold, and thin wrappers
//! around its constructors and accessors. Everything verified about the
//! conversion layer rests on the contracts in this module, each checked
//! against `glam`'s own source.
//!
//! glam's integer vectors are plain records of public integer fields, so
//! they are declared transparently and the conversion layer reads and
//! builds them directly, with no trusted contract beyond the declaration.
//! glam's floating-point vectors and matrices are declared opaquely; the
//! `..._bits` functions name the component bit patterns such a value
//! holds, and the wrappers state how glam's constructors and accessors
//! relate to those bits.

use vstd::prelude::*;

verus! {

/// glam's 2-component vector of `i8`, a plain record of public fields.
#[verifier::external_type_specification]
pub struct ExI8Vec2(glam::I8Vec2);

/// glam's 3-component vector of `i8`, a plain record of public fields.
#[verifier::external_type_specification]
pub struct ExI8Vec3(glam::I8Vec3);

/// glam's 4-component vector of `i8`, a plain record of public fields.
#[verifier::external_type_specification]
pub struct ExI8Vec4(glam::I8Vec4);

/// glam's 2-component vector of `u8`, a plain record of public fields.
#[verifier::external_type_specification]
pub struct ExU8Vec2(glam::U8Vec2);

/// glam's 3-component vector of `u8`, a plain record of public fields.
#[verifier::external_type_specification]
pub struct ExU8Vec3(glam::U8Vec3);

/// glam's 4-component vector of `u8`, a plain record of public fields.
#[verifier::external_type_specification]
pub struct ExU8Vec4(glam::U8Vec4);

/// glam's 2-component vector of `i16`, a plain record of public fields.
#[verifier::external_type_specification]
pub struct ExI16Vec2(glam::I16Vec2);

/// glam's 3-component vector of `i16`, a plain record of public fields.
#[verifier::external_type_specification]
pub struct ExI16Vec3(glam::I16Vec3);

/// glam's 4-component vector of `i16`, a plain record of public fields.
#[verifier::external_type_specification]
pub struct ExI16Vec4(glam::I16Vec4);

/// glam's 2-component vector of `u16`, a plain record of public fields.
#[verifier::external_type_specification]
pub struct ExU16Vec2(glam::U16Vec2);

/// glam's 3-component vector of `u16`, a plain record of public fields.
#[verifier::external_type_specification]
pub struct ExU16Vec3(glam::U16Vec3);

/// glam's 4-component vector of `u16`, a plain record of public fields.
#[verifier::external_type_specification]
pub struct ExU16Vec4(glam::U16Vec4);

/// glam's 2-component vector of `i32`, a plain record of public fields.
#[verifier::external_type_specification]
pub struct ExIVec2(glam::IVec2);

/// glam's 3-component vector of `i32`, a plain record of public fields.
#[verifier::external_type_specification]
pub struct ExIVec3(glam::IVec3);

/// glam's 4-component vector of `i32`, a plain record of public fields.
#[verifier::external_type_specification]
pub struct ExIVec4(glam::IVec4);

/// glam's 2-component vector of `u32`, a plain record of public fields.
#[verifier::external_type_specification]
pub struct ExUVec2(glam::UVec2);

/// glam's 3-component vector of `u32`, a plain record of public fields.
#[verifier::external_type_specification]
pub struct ExUVec3(glam::UVec3);

/// glam's 4-component vector of `u32`, a plain record of public fields.
#[verifier::external_type_specification]
pub struct ExUVec4(glam::UVec4);

/// glam's 2-component vector of 32-bit floating-point values. Opaque here: its
/// contents are reached only through [`vec2_bits`].
#[verifier::external_type_specification]
#[verifier::external_body]
pub struct ExVec2(glam::Vec2);

/// The IEEE-754 bit patterns of the 2 components a `glam::Vec2` holds, in
/// declaration order.
pub uninterp spec fn vec2_bits(v: glam::Vec2) -> (u32, u32);

/// Relies on `bytemuck::cast` and glam's `Pod` impl for `Vec2`: the
/// cast reinterprets the bit patterns in place, so the vector holds
/// exactly the given component bits, in order.
#[verifier::external_body]
pub(crate) fn vec2_of_bits(x: u32, y: u32) -> (v: glam::Vec2)
    ensures
        vec2_bits(v) == (x, y),
{
    bytemuck::cast([x, y])
}

/// Relies on `bytemuck::cast` and glam's `Pod` impl for `Vec2`:
/// reading the value back as raw bits yields the stored component bit
/// patterns, in order.
#[verifier::external_body]
pub(crate) fn vec2_to_bits(v: &glam::Vec2) -> (r: (u32, u32))
    ensures
        r == vec2_bits(*v),
{
    let a: [u32; 2] = bytemuck::cast(*v);
    (a[0], a[1])
}

/// glam's 3-component vector of 32-bit floating-point values. Opaque here: its
/// contents are reached only through [`vec3_bits`].
#[verifier::external_type_specification]
#[verifier::external_body]
pub struct ExVec3(glam::Vec3);

/// The IEEE-754 bit patterns of the 3 components a `glam::Vec3` holds, in
/// declaration order.
pub uninterp spec fn vec3_bits(v: glam::Vec3) -> (u32, u32, u32);

/// Relies on `bytemuck::cast` and glam's `Pod` impl for `Vec3`: the
/// cast reinterprets the bit patterns in place, so the vector holds
/// exactly the given component bits, in order.
#[verifier::external_body]
pub(crate) fn vec3_of_bits(x: u32, y: u32, z: u32) -> (v: glam::Vec3)
    ensures
        vec3_bits(v) == (x, y, z),
{
    bytemuck::cast([x, y, z])
}

/// Relies on `bytemuck::cast` and glam's `Pod` impl for `Vec3`:
/// reading the value back as raw bits yields the stored component bit
/// patterns, in order.
#[verifier::external_body]
pub(crate) fn vec3_to_bits(v: &glam::Vec3) -> (r: (u32, u32, u32))
    ensures
        r == vec3_bits(*v),
{
    let a: [u32; 3] = bytemuck::cast(*v);
    (a[0], a[1], a[2])
}

/// glam's 4-component vector of 32-bit floating-point values. Opaque here: its
/// contents are reached only through [`vec4_bits`].
#[verifier::external_type_specification]
#[verifier::external_body]
pub struct ExVec4(glam::Vec4);

/// The IEEE-754 bit patterns of the 4 components a `glam::Vec4` holds, in
/// declaration order.
pub uninterp spec fn vec4_bits(v: glam::Vec4) -> (u32, u32, u32, u32);

/// Relies on `bytemuck::cast` and glam's `Pod` impl for `Vec4`: the
/// cast reinterprets the bit patterns in place, so the vector holds
/// exactly the given component bits, in order.
#[verifier::external_body]
pub(crate) fn vec4_of_bits(x: u32, y: u32, z: u32, w: u32) -> (v: glam::Vec4)
    ensures
        vec4_bits(v) == (x, y, z, w),
{
    bytemuck::cast([x, y, z, w])
}

/// Relies on `bytemuck::cast` and glam's `Pod` impl for `Vec4`:
/// reading the value back as raw bits yields the stored component bit
/// patterns, in order.
#[verifier::external_body]
pub(crate) fn vec4_to_bits(v: &glam::Vec4) -> (r: (u32, u32, u32, u32))
    ensures
        r == vec4_bits(*v),
{
    let a: [u32; 4] = bytemuck::cast(*v);
    (a[0], a[1], a[2], a[3])
}

/// glam's 2-component vector of 64-bit floating-point values. Opaque here: its
/// contents are reached only through [`dvec2_bits`].
#[verifier::external_type_specification]
#[verifier::external_body]
pub struct ExDVec2(glam::DVec2);

/// The IEEE-754 bit patterns of the 2 components a `glam::DVec2` holds, in
/// declaration order.
pub uninterp spec fn dvec2_bits(v: glam::DVec2) -> (u64, u64);

/// Relies on `bytemuck::cast` and glam's `Pod` impl for `DVec2`: the
/// cast reinterprets the bit patterns in place, so the vector holds
/// exactly the given component bits, in order.
#[verifier::external_body]
pub(crate) fn dvec2_of_bits(x: u64, y: u64) -> (v: glam::DVec2)
    ensures
        dvec2_bits(v) == (x, y),
{
    bytemuck::cast([x, y])
}

/// Relies on `bytemuck::cast` and glam's `Pod` impl for `DVec2`:
/// reading the value back as raw bits yields the stored component bit
/// patterns, in order.
#[verifier::external_body]
pub(crate) fn dvec2_to_bits(v: &glam::DVec2) -> (r: (u64, u64))
    ensures
        r == dvec2_bits(*v),
{
    let a: [u64; 2] = bytemuck::cast(*v);
    (a[0], a[1])
}

/// glam's 3-component vector of 64-bit floating-point values. Opaque here: its
/// contents are reached only through [`dvec3_bits`].
#[verifier::external_type_specification]
#[verifier::external_body]
pub struct ExDVec3(glam::DVec3);

/// The IEEE-754 bit patterns of the 3 components a `glam::DVec3` holds, in
/// declaration order.
pub uninterp spec fn dvec3_bits(v: glam::DVec3) -> (u64, u64, u64);

/// Relies on `bytemuck::cast` and glam's `Pod` impl for `DVec3`: the
/// cast reinterprets the bit patterns in place, so the vector holds
/// exactly the given component bits, in order.
#[verifier::external_body]
pub(crate) fn dvec3_of_bits(x: u64, y: u64, z: u64) -> (v: glam::DVec3)
    ensures
        dvec3_bits(v) == (x, y, z),
{
    bytemuck::cast([x, y, z])
}

/// Relies on `bytemuck::cast` and glam's `Pod` impl for `DVec3`:
/// reading the value back as raw bits yields the stored component bit
/// patterns, in order.
#[verifier::external_body]
pub(crate) fn dvec3_to_bits(v: &glam::DVec3) -> (r: (u64, u64, u64))
    ensures
        r == dvec3_bits(*v),
{
    let a: [u64; 3] = bytemuck::cast(*v);
    (a[0], a[1], a[2])
}

/// glam's 4-component vector of 64-bit floating-point values. Opaque here: its
/// contents are reached only through [`dvec4_bits`].
#[verifier::external_type_specification]
#[verifier::external_body]
pub struct ExDVec4(glam::DVec4);

/// The IEEE-754 bit patterns of the 4 components a `glam::DVec4` holds, in
/// declaration order.
pub uninterp spec fn dvec4_bits(v: glam::DVec4) -> (u64, u64, u64, u64);

/// Relies on `bytemuck::cast` and glam's `Pod` impl for `DVec4`: the
/// cast reinterprets the bit patterns in place, so the vector holds
/// exactly the given component bits, in order.
#[verifier::external_body]
pub(crate) fn dvec4_of_bits(x: u64, y: u64, z: u64, w: u64) -> (v: glam::DVec4)
    ensures
        dvec4_bits(v) == (x, y, z, w),
{
    bytemuck::cast([x, y, z, w])
}

/// Relies on `bytemuck::cast` and glam's `Pod` impl for `DVec4`:
/// reading the value back as raw bits yields the stored component bit
/// patterns, in order.
#[verifier::external_body]
pub(crate) fn dvec4_to_bits(v: &glam::DVec4) -> (r: (u64, u64, u64, u64))
    ensures
        r == dvec4_bits(*v),
{
    let a: [u64; 4] = bytemuck::cast(*v);
    (a[0], a[1], a[2], a[3])
}

/// glam's 2-by-2 matrix of 32-bit floating-point values, stored as 2
/// column vectors. Opaque here: its contents are reached only through
/// [`mat2_bits`].
#[verifier::external_type_specification]
#[verifier::external_body]
pub struct ExMat2(glam::Mat2);

/// The IEEE-754 bit patterns a `glam::Mat2` holds: one tuple of component
/// bits per column, in column order.
pub uninterp spec fn mat2_bits(m: glam::Mat2) -> ((u32, u32), (u32, u32));

/// Relies on `glam::Mat2::from_cols`: the matrix stores the given
/// column vectors unchanged, in order.
#[verifier::external_body]
pub(crate) fn mat2_of_cols(c0: glam::Vec2, c1: glam::Vec2) -> (m: glam::Mat2)
    ensures
        mat2_bits(m) == (vec2_bits(c0), vec2_bits(c1)),
{
    glam::Mat2::from_cols(c0, c1)
}

/// Relies on `glam::Mat2::col`: reading the columns back yields
/// the stored column vectors, in order.
#[verifier::external_body]
pub(crate) fn mat2_cols(m: &glam::Mat2) -> (r: (glam::Vec2, glam::Vec2))
    ensures
        (vec2_bits(r.0), vec2_bits(r.1)) == mat2_bits(*m),
{
    (m.col(0), m.col(1))
}

/// glam's 3-by-3 matrix of 32-bit floating-point values, stored as 3
/// column vectors. Opaque here: its contents are reached only through
/// [`mat3_bits`].
#[verifier::external_type_specification]
#[verifier::external_body]
pub struct ExMat3(glam::Mat3);

/// The IEEE-754 bit patterns a `glam::Mat3` holds: one tuple of component
/// bits per column, in column order.
pub uninterp spec fn mat3_bits(m: glam::Mat3) -> ((u32, u32, u32), (u32, u32, u32), (u32, u32, u32));

/// Relies on `glam::Mat3::from_cols`: the matrix stores the given
/// column vectors unchanged, in order.
#[verifier::external_body]
pub(crate) fn mat3_of_cols(c0: glam::Vec3, c1: glam::Vec3, c2: glam::Vec3) -> (m: glam::Mat3)
    ensures
        mat3_bits(m) == (vec3_bits(c0), vec3_bits(c1), vec3_bits(c2)),
{
    glam::Mat3::from_cols(c0, c1, c2)
}

/// Relies on `glam::Mat3::col`: reading the columns back yields
/// the stored column vectors, in order.
#[verifier::external_body]
pub(crate) fn mat3_cols(m: &glam::Mat3) -> (r: (glam::Vec3, glam::Vec3, glam::Vec3))
    ensures
        (vec3_bits(r.0), vec3_bits(r.1), vec3_bits(r.2)) == mat3_bits(*m),
{
    (m.col(0), m.col(1), m.col(2))
}

/// glam's 4-by-4 matrix of 32-bit floating-point values, stored as 4
/// column vectors. Opaque here: its contents are reached only through
/// [`mat4_bits`].
#[verifier::external_type_specification]
#[verifier::external_body]
pub struct ExMat4(glam::Mat4);

/// The IEEE-754 bit patterns a `glam::Mat4` holds: one tuple of component
/// bits per column, in column order.
pub uninterp spec fn mat4_bits(m: glam::Mat4) -> ((u32, u32, u32, u32), (u32, u32, u32, u32), (u32, u32, u32, u32), (u32, u32, u32, u32));

/// Relies on `glam::Mat4::from_cols`: the matrix stores the given
/// column vectors unchanged, in order.
#[verifier::external_body]
pub(crate) fn mat4_of_cols(c0: glam::Vec4, c1: glam::Vec4, c2: glam::Vec4, c3: glam::Vec4) -> (m: glam::Mat4)
    ensures
        mat4_bits(m) == (vec4_bits(c0), vec4_bits(c1), vec4_bits(c2), vec4_bits(c3)),
{
    glam::Mat4::from_cols(c0, c1, c2, c3)
}

/// Relies on `glam::Mat4::col`: reading the columns back yields
/// the stored column vectors, in order.
#[verifier::external_body]
pub(crate) fn mat4_cols(m: &glam::Mat4) -> (r: (glam::Vec4, glam::Vec4, glam::Vec4, glam::Vec4))
    ensures
        (vec4_bits(r.0), vec4_bits(r.1), vec4_bits(r.2), vec4_bits(r.3)) == mat4_bits(*m),
{
    (m.col(0), m.col(1), m.col(2), m.col(3))
}

/// glam's 2-by-2 matrix of 64-bit floating-point values, stored as 2
/// column vectors. Opaque here: its contents are reached only through
/// [`dmat2_bits`].
#[verifier::external_type_specification]
#[verifier::external_body]
pub struct ExDMat2(glam::DMat2);

/// The IEEE-754 bit patterns a `glam::DMat2` holds: one tuple of component
/// bits per column, in column order.
pub uninterp spec fn dmat2_bits(m: glam::DMat2) -> ((u64, u64), (u64, u64));

/// Relies on `glam::DMat2::from_cols`: the matrix stores the given
/// column vectors unchanged, in order.
#[verifier::external_body]
pub(crate) fn dmat2_of_cols(c0: glam::DVec2, c1: glam::DVec2) -> (m: glam::DMat2)
    ensures
        dmat2_bits(m) == (dvec2_bits(c0), dvec2_bits(c1)),
{
    glam::DMat2::from_cols(c0, c1)
}

/// Relies on `glam::DMat2::col`: reading the columns back yields
/// the stored column vectors, in order.
#[verifier::external_body]
pub(crate) fn dmat2_cols(m: &glam::DMat2) -> (r: (glam::DVec2, glam::DVec2))
    ensures
        (dvec2_bits(r.0), dvec2_bits(r.1)) == dmat2_bits(*m),
{
    (m.col(0), m.col(1))
}

/// glam's 3-by-3 matrix of 64-bit floating-point values, stored as 3
/// column vectors. Opaque here: its contents are reached only through
/// [`dmat3_bits`].
#[verifier::external_type_specification]
#[verifier::external_body]
pub struct ExDMat3(glam::DMat3);

/// The IEEE-754 bit patterns a `glam::DMat3` holds: one tuple of component
/// bits per column, in column order.
pub uninterp spec fn dmat3_bits(m: glam::DMat3) -> ((u64, u64, u64), (u64, u64, u64), (u64, u64, u64));

/// Relies on `glam::DMat3::from_cols`: the matrix stores the given
/// column vectors unchanged, in order.
#[verifier::external_body]
pub(crate) fn dmat3_of_cols(c0: glam::DVec3, c1: glam::DVec3, c2: glam::DVec3) -> (m: glam::DMat3)
    ensures
        dmat3_bits(m) == (dvec3_bits(c0), dvec3_bits(c1), dvec3_bits(c2)),
{
    glam::DMat3::from_cols(c0, c1, c2)
}

/// Relies on `glam::DMat3::col`: reading the columns back yields
/// the stored column vectors, in order.
#[verifier::external_body]
pub(crate) fn dmat3_cols(m: &glam::DMat3) -> (r: (glam::DVec3, glam::DVec3, glam::DVec3))
    ensures
        (dvec3_bits(r.0), dvec3_bits(r.1), dvec3_bits(r.2)) == dmat3_bits(*m),
{
    (m.col(0), m.col(1), m.col(2))
}

/// glam's 4-by-4 matrix of 64-bit floating-point values, stored as 4
/// column vectors. Opaque here: its contents are reached only through
/// [`dmat4_bits`].
#[verifier::external_type_specification]
#[verifier::external_body]
pub struct ExDMat4(glam::DMat4);

/// The IEEE-754 bit patterns a `glam::DMat4` holds: one tuple of component
/// bits per column, in column order.
pub uninterp spec fn dmat4_bits(m: glam::DMat4) -> ((u64, u64, u64, u64), (u64, u64, u64, u64), (u64, u64, u64, u64), (u64, u64, u64, u64));

/// Relies on `glam::DMat4::from_cols`: the matrix stores the given
/// column vectors unchanged, in order.
#[verifier::external_body]
pub(crate) fn dmat4_of_cols(c0: glam::DVec4, c1: glam::DVec4, c2: glam::DVec4, c3: glam::DVec4) -> (m: glam::DMat4)
    ensures
        dmat4_bits(m) == (dvec4_bits(c0), dvec4_bits(c1), dvec4_bits(c2), dvec4_bits(c3)),
{
    glam::DMat4::from_cols(c0, c1, c2, c3)
}

/// Relies on `glam::DMat4::col`: reading the columns back yields
/// the stored column vectors, in order.
#[verifier::external_body]
pub(crate) fn dmat4_cols(m: &glam::DMat4) -> (r: (glam::DVec4, glam::DVec4, glam::DVec4, glam::DVec4))
    ensures
        (dvec4_bits(r.0), dvec4_bits(r.1), dvec4_bits(r.2), dvec4_bits(r.3)) == dmat4_bits(*m),
{
    (m.col(0), m.col(1), m.col(2), m.col(3))
}

} // verus!
