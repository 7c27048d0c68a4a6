//! Construction order: components are assigned positionally in
//! declaration order, for vectors and for matrix columns.

use gpu_types::matrices::Double3x3;
use gpu_types::matrices::Float3x3;
use gpu_types::matrices::Float4x4;
use gpu_types::vectors::Byte2;
use gpu_types::vectors::Byte4;
use gpu_types::vectors::Double4;
use gpu_types::vectors::Float3;
use gpu_types::vectors::Float4;
use gpu_types::vectors::Int3;
use gpu_types::vectors::Short4;
use gpu_types::vectors::Ubyte3;
use gpu_types::vectors::Uint4;
use gpu_types::vectors::Ushort2;

#[test]
fn four_component_vector_reads_back_in_order() {
    let v = Byte4::new(1, 2, 3, 4);
    assert_eq!((v.x, v.y, v.z, v.w), (1, 2, 3, 4));
    let v = Short4::new(-5, 6, -7, 8);
    assert_eq!((v.x, v.y, v.z, v.w), (-5, 6, -7, 8));
    let v = Uint4::new(9, 10, 11, 12);
    assert_eq!((v.x, v.y, v.z, v.w), (9, 10, 11, 12));
    let v = Float4::new(
        1.5f32.to_bits(),
        2.5f32.to_bits(),
        3.5f32.to_bits(),
        4.5f32.to_bits(),
    );
    assert_eq!(f32::from_bits(v.x), 1.5);
    assert_eq!(f32::from_bits(v.y), 2.5);
    assert_eq!(f32::from_bits(v.z), 3.5);
    assert_eq!(f32::from_bits(v.w), 4.5);
    let v = Double4::new(
        (-1.25f64).to_bits(),
        2.25f64.to_bits(),
        3.25f64.to_bits(),
        4.25f64.to_bits(),
    );
    assert_eq!(f64::from_bits(v.w), 4.25);
}

#[test]
fn two_and_three_component_vectors_read_back_in_order() {
    let v = Byte2::new(-1, 2);
    assert_eq!((v.x, v.y), (-1, 2));
    let v = Ushort2::new(7, 65535);
    assert_eq!((v.x, v.y), (7, 65535));
    let v = Ubyte3::new(0, 128, 255);
    assert_eq!((v.x, v.y, v.z), (0, 128, 255));
    let v = Int3::new(-1, 0, 1);
    assert_eq!((v.x, v.y, v.z), (-1, 0, 1));
}

#[test]
fn matrix_second_component_is_second_column() {
    let c0 = Float3::new(1f32.to_bits(), 2f32.to_bits(), 3f32.to_bits());
    let c1 = Float3::new(4f32.to_bits(), 5f32.to_bits(), 6f32.to_bits());
    let c2 = Float3::new(7f32.to_bits(), 8f32.to_bits(), 9f32.to_bits());
    let m = Float3x3::new(c0, c1, c2);
    assert_eq!(f32::from_bits(m.y.x), 4.0);
    assert_eq!(f32::from_bits(m.y.y), 5.0);
    assert_eq!(f32::from_bits(m.y.z), 6.0);
    assert_eq!(f32::from_bits(m.x.x), 1.0);
    assert_eq!(f32::from_bits(m.z.z), 9.0);
}

#[test]
fn double_matrix_columns_read_back_in_order() {
    let c0 = gpu_types::vectors::Double3::new(1f64.to_bits(), 2f64.to_bits(), 3f64.to_bits());
    let c1 = gpu_types::vectors::Double3::new(4f64.to_bits(), 5f64.to_bits(), 6f64.to_bits());
    let c2 = gpu_types::vectors::Double3::new(7f64.to_bits(), 8f64.to_bits(), 9f64.to_bits());
    let m = Double3x3::new(c0, c1, c2);
    assert_eq!(f64::from_bits(m.y.y), 5.0);
    assert_eq!(f64::from_bits(m.z.x), 7.0);
}

#[test]
fn four_by_four_matrix_reads_back_in_order() {
    let col = |a: f32, b: f32, c: f32, d: f32| {
        Float4::new(a.to_bits(), b.to_bits(), c.to_bits(), d.to_bits())
    };
    let m = Float4x4::new(
        col(1.0, 0.0, 0.0, 0.0),
        col(0.0, 1.0, 0.0, 0.0),
        col(0.0, 0.0, 1.0, 0.0),
        col(5.0, 6.0, 7.0, 1.0),
    );
    assert_eq!(f32::from_bits(m.w.x), 5.0);
    assert_eq!(f32::from_bits(m.w.w), 1.0);
    assert_eq!(f32::from_bits(m.z.z), 1.0);
    assert_eq!(f32::from_bits(m.z.w), 0.0);
}
