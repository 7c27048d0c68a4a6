//! Forward conversions checked against values built with glam itself, for
//! every vector arity and kind and every matrix type: the bridge must
//! produce glam's own notion of the same value, and reading back must
//! yield the original components.

use gpu_types::matrices::Double3x3;
use gpu_types::matrices::Double4x4;
use gpu_types::matrices::Float2x2;
use gpu_types::matrices::Float3x3;
use gpu_types::vectors::Byte2;
use gpu_types::vectors::Byte4;
use gpu_types::vectors::Double3;
use gpu_types::vectors::Double4;
use gpu_types::vectors::Float3;
use gpu_types::vectors::Float4;
use gpu_types::vectors::Int2;
use gpu_types::vectors::Int3;
use gpu_types::vectors::Ubyte2;
use gpu_types::vectors::Ubyte3;
use gpu_types::vectors::Ubyte4;
use gpu_types::vectors::Uint2;
use gpu_types::vectors::Uint3;
use gpu_types::vectors::Ushort2;
use gpu_types::vectors::Ushort4;
use gpu_types::vectors::Short2;
use gpu_types::vectors::Short3;
use gpu_types::vectors::Short4;

#[test]
fn every_integer_vector_converts_exactly() {
    assert_eq!(Byte2::new(-1, 2).to_glam(), glam::I8Vec2::new(-1, 2));
    assert_eq!(Byte4::new(-1, 2, -3, 4).to_glam(), glam::I8Vec4::new(-1, 2, -3, 4));
    assert_eq!(Ubyte2::new(1, 2).to_glam(), glam::U8Vec2::new(1, 2));
    assert_eq!(Ubyte3::new(1, 2, 3).to_glam(), glam::U8Vec3::new(1, 2, 3));
    assert_eq!(Ubyte4::new(1, 2, 3, 4).to_glam(), glam::U8Vec4::new(1, 2, 3, 4));
    assert_eq!(Short2::new(-100, 200).to_glam(), glam::I16Vec2::new(-100, 200));
    assert_eq!(Short3::new(-1, 0, 1).to_glam(), glam::I16Vec3::new(-1, 0, 1));
    assert_eq!(Short4::new(1, 2, 3, 4).to_glam(), glam::I16Vec4::new(1, 2, 3, 4));
    assert_eq!(Ushort2::new(1, 2).to_glam(), glam::U16Vec2::new(1, 2));
    assert_eq!(Ushort4::new(1, 2, 3, 4).to_glam(), glam::U16Vec4::new(1, 2, 3, 4));
    assert_eq!(Int2::new(-7, 7).to_glam(), glam::IVec2::new(-7, 7));
    assert_eq!(Int3::new(-7, 0, 7).to_glam(), glam::IVec3::new(-7, 0, 7));
    assert_eq!(Uint2::new(5, 6).to_glam(), glam::UVec2::new(5, 6));
    assert_eq!(Uint3::new(5, 6, 7).to_glam(), glam::UVec3::new(5, 6, 7));
    let back = Ubyte4::from_glam(&glam::U8Vec4::new(9, 8, 7, 6));
    assert_eq!((back.x, back.y, back.z, back.w), (9, 8, 7, 6));
    let back = Short2::from_glam(&glam::I16Vec2::new(-9, 9));
    assert_eq!((back.x, back.y), (-9, 9));
}

#[test]
fn every_float_vector_converts_exactly() {
    let v = Float3::new(1.0f32.to_bits(), 2.0f32.to_bits(), 3.0f32.to_bits());
    assert_eq!(v.to_glam(), glam::Vec3::new(1.0, 2.0, 3.0));
    let v = Float4::new(
        1.0f32.to_bits(),
        (-2.0f32).to_bits(),
        3.0f32.to_bits(),
        (-4.0f32).to_bits(),
    );
    assert_eq!(v.to_glam(), glam::Vec4::new(1.0, -2.0, 3.0, -4.0));
    let r = v.glam_round_trip();
    assert_eq!((r.x, r.y, r.z, r.w), (v.x, v.y, v.z, v.w));
    let d = Double3::new(1.5f64.to_bits(), 2.5f64.to_bits(), 3.5f64.to_bits());
    assert_eq!(d.to_glam(), glam::DVec3::new(1.5, 2.5, 3.5));
    let d = Double4::new(
        0.5f64.to_bits(),
        1.5f64.to_bits(),
        2.5f64.to_bits(),
        3.5f64.to_bits(),
    );
    assert_eq!(d.to_glam(), glam::DVec4::new(0.5, 1.5, 2.5, 3.5));
    let r = d.glam_round_trip();
    assert_eq!((r.x, r.y, r.z, r.w), (d.x, d.y, d.z, d.w));
    let back = Double3::from_glam(&glam::DVec3::new(4.0, 5.0, 6.0));
    assert_eq!(f64::from_bits(back.y), 5.0);
}

#[test]
fn every_matrix_type_converts_exactly() {
    let fcol2 = |a: f32, b: f32| {
        gpu_types::vectors::Float2::new(a.to_bits(), b.to_bits())
    };
    let m = Float2x2::new(fcol2(1.0, 2.0), fcol2(3.0, 4.0));
    let g = m.to_glam();
    assert_eq!(g, glam::Mat2::from_cols(glam::Vec2::new(1.0, 2.0), glam::Vec2::new(3.0, 4.0)));
    let r = m.glam_round_trip();
    assert_eq!((r.x.x, r.x.y, r.y.x, r.y.y), (m.x.x, m.x.y, m.y.x, m.y.y));

    let fcol3 = |a: f32, b: f32, c: f32| Float3::new(a.to_bits(), b.to_bits(), c.to_bits());
    let m = Float3x3::new(fcol3(1.0, 2.0, 3.0), fcol3(4.0, 5.0, 6.0), fcol3(7.0, 8.0, 9.0));
    let g = m.to_glam();
    assert_eq!(
        g,
        glam::Mat3::from_cols(
            glam::Vec3::new(1.0, 2.0, 3.0),
            glam::Vec3::new(4.0, 5.0, 6.0),
            glam::Vec3::new(7.0, 8.0, 9.0),
        )
    );
    let r = Float3x3::from_glam(&g);
    assert_eq!(f32::from_bits(r.z.y), 8.0);

    let dcol3 = |a: f64, b: f64, c: f64| Double3::new(a.to_bits(), b.to_bits(), c.to_bits());
    let m = Double3x3::new(dcol3(1.0, 2.0, 3.0), dcol3(4.0, 5.0, 6.0), dcol3(7.0, 8.0, 9.0));
    let g = m.to_glam();
    assert_eq!(
        g,
        glam::DMat3::from_cols(
            glam::DVec3::new(1.0, 2.0, 3.0),
            glam::DVec3::new(4.0, 5.0, 6.0),
            glam::DVec3::new(7.0, 8.0, 9.0),
        )
    );
    let r = m.glam_round_trip();
    assert_eq!((r.x.x, r.y.y, r.z.z), (m.x.x, m.y.y, m.z.z));

    let dcol4 = |a: f64, b: f64, c: f64, d: f64| {
        Double4::new(a.to_bits(), b.to_bits(), c.to_bits(), d.to_bits())
    };
    let m = Double4x4::new(
        dcol4(1.0, 0.0, 0.0, 0.0),
        dcol4(0.0, 1.0, 0.0, 0.0),
        dcol4(0.0, 0.0, 1.0, 0.0),
        dcol4(9.0, 8.0, 7.0, 1.0),
    );
    let g = m.to_glam();
    assert_eq!(g.w_axis, glam::DVec4::new(9.0, 8.0, 7.0, 1.0));
    let r = m.glam_round_trip();
    assert_eq!(f64::from_bits(r.w.x), 9.0);
    assert_eq!(f64::from_bits(r.z.z), 1.0);
}
