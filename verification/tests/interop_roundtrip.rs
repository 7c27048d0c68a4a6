//! The conversion bridge to glam: exact values in the forward direction,
//! bit-identical round trips back, and the documented truncation of the
//! narrowing path.

use gpu_types::matrices::Double2x2;
use gpu_types::matrices::Float4x4;
use gpu_types::vectors::Byte3;
use gpu_types::vectors::Double2;
use gpu_types::vectors::Float2;
use gpu_types::vectors::Float3;
use gpu_types::vectors::Int4;
use gpu_types::vectors::Uint4;
use gpu_types::vectors::Ushort3;

#[test]
fn float2_converts_to_glam_and_back_exactly() {
    let v = Float2::new(1.0f32.to_bits(), 2.0f32.to_bits());
    let g = v.to_glam();
    assert_eq!(g, glam::Vec2::new(1.0, 2.0));
    let back = Float2::from_glam(&g);
    assert_eq!(f32::from_bits(back.x), 1.0);
    assert_eq!(f32::from_bits(back.y), 2.0);
    assert_eq!(back.x, v.x);
    assert_eq!(back.y, v.y);
}

#[test]
fn float_vectors_round_trip_bit_for_bit() {
    let v = Float3::new(
        (-0.0f32).to_bits(),
        f32::MIN_POSITIVE.to_bits(),
        (1.0e30f32).to_bits(),
    );
    let r = v.glam_round_trip();
    assert_eq!((r.x, r.y, r.z), (v.x, v.y, v.z));
    let d = Double2::new((-3.5f64).to_bits(), f64::MAX.to_bits());
    let r = d.glam_round_trip();
    assert_eq!((r.x, r.y), (d.x, d.y));
}

#[test]
fn identity_matrix_round_trips_unchanged() {
    let col = |a: f32, b: f32, c: f32, d: f32| {
        gpu_types::vectors::Float4::new(a.to_bits(), b.to_bits(), c.to_bits(), d.to_bits())
    };
    let m = Float4x4::new(
        col(1.0, 0.0, 0.0, 0.0),
        col(0.0, 1.0, 0.0, 0.0),
        col(0.0, 0.0, 1.0, 0.0),
        col(0.0, 0.0, 0.0, 1.0),
    );
    let g = m.to_glam();
    assert_eq!(g, glam::Mat4::IDENTITY);
    let r = m.glam_round_trip();
    assert_eq!(
        (r.x.x, r.x.y, r.x.z, r.x.w),
        (m.x.x, m.x.y, m.x.z, m.x.w)
    );
    assert_eq!(
        (r.y.x, r.y.y, r.y.z, r.y.w),
        (m.y.x, m.y.y, m.y.z, m.y.w)
    );
    assert_eq!(
        (r.z.x, r.z.y, r.z.z, r.z.w),
        (m.z.x, m.z.y, m.z.z, m.z.w)
    );
    assert_eq!(
        (r.w.x, r.w.y, r.w.z, r.w.w),
        (m.w.x, m.w.y, m.w.z, m.w.w)
    );
}

#[test]
fn matrix_conversion_is_column_major_on_both_sides() {
    let dcol = |a: f64, b: f64| gpu_types::vectors::Double2::new(a.to_bits(), b.to_bits());
    let m = Double2x2::new(dcol(1.0, 2.0), dcol(3.0, 4.0));
    let g = m.to_glam();
    // glam stores columns as x_axis and y_axis; the first column must be
    // (1, 2) and the second (3, 4), or the bridge would transpose.
    assert_eq!(g.x_axis, glam::DVec2::new(1.0, 2.0));
    assert_eq!(g.y_axis, glam::DVec2::new(3.0, 4.0));
    let r = Double2x2::from_glam(&g);
    assert_eq!(f64::from_bits(r.y.x), 3.0);
    assert_eq!(f64::from_bits(r.x.y), 2.0);
}

#[test]
fn integer_vectors_convert_by_value_both_ways() {
    let v = Byte3::new(-128, 0, 127);
    let g = v.to_glam();
    assert_eq!(g, glam::I8Vec3::new(-128, 0, 127));
    let back = Byte3::from_glam(&g);
    assert_eq!((back.x, back.y, back.z), (-128, 0, 127));

    let v = Ushort3::new(0, 1, 65535);
    let g = v.to_glam();
    assert_eq!(g, glam::U16Vec3::new(0, 1, 65535));
    let back = Ushort3::from_glam(&g);
    assert_eq!((back.x, back.y, back.z), (0, 1, 65535));

    let v = Int4::new(i32::MIN, -1, 0, i32::MAX);
    let g = v.to_glam();
    assert_eq!(g, glam::IVec4::new(i32::MIN, -1, 0, i32::MAX));
    let back = Int4::from_glam(&g);
    assert_eq!((back.x, back.y, back.z, back.w), (i32::MIN, -1, 0, i32::MAX));

    let v = Uint4::new(u32::MAX, 0, 7, 42);
    let g = v.to_glam();
    assert_eq!(g, glam::UVec4::new(u32::MAX, 0, 7, 42));
    let back = Uint4::from_glam(&g);
    assert_eq!((back.x, back.y, back.z, back.w), (u32::MAX, 0, 7, 42));
}

#[test]
fn narrowing_truncates_to_the_low_sixteen_bits() {
    // 0x12345 is greater than 2^16; truncation keeps 0x2345.
    let v = Uint4::new(0x12345, 0x10000, 0xffff, u32::MAX);
    let g = v.to_glam_narrowed();
    assert_eq!(g, glam::U16Vec4::new(0x2345, 0, 0xffff, 0xffff));
    assert_eq!(g.x, (0x12345u32 & 0xffff) as u16);
}
