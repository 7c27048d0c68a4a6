//! The alignment table: the declared alignment of every (component kind,
//! arity) pair is the literal table value, and every size is a multiple
//! of the matching alignment.

use gpu_types::layout::matrix_alignment_bytes;
use gpu_types::layout::matrix_size_bytes;
use gpu_types::layout::vector_alignment_bytes;
use gpu_types::layout::vector_size_bytes;
use gpu_types::layout::ScalarKind;

#[test]
fn vector_alignments_match_the_table() {
    assert_eq!(vector_alignment_bytes(ScalarKind::I8, 2), 2);
    assert_eq!(vector_alignment_bytes(ScalarKind::I8, 3), 4);
    assert_eq!(vector_alignment_bytes(ScalarKind::I8, 4), 4);
    assert_eq!(vector_alignment_bytes(ScalarKind::U8, 2), 2);
    assert_eq!(vector_alignment_bytes(ScalarKind::U8, 3), 4);
    assert_eq!(vector_alignment_bytes(ScalarKind::U8, 4), 4);
    assert_eq!(vector_alignment_bytes(ScalarKind::I16, 2), 4);
    assert_eq!(vector_alignment_bytes(ScalarKind::I16, 3), 8);
    assert_eq!(vector_alignment_bytes(ScalarKind::I16, 4), 8);
    assert_eq!(vector_alignment_bytes(ScalarKind::U16, 2), 4);
    assert_eq!(vector_alignment_bytes(ScalarKind::U16, 3), 8);
    assert_eq!(vector_alignment_bytes(ScalarKind::U16, 4), 8);
    assert_eq!(vector_alignment_bytes(ScalarKind::I32, 2), 8);
    assert_eq!(vector_alignment_bytes(ScalarKind::I32, 3), 16);
    assert_eq!(vector_alignment_bytes(ScalarKind::I32, 4), 16);
    assert_eq!(vector_alignment_bytes(ScalarKind::U32, 2), 8);
    assert_eq!(vector_alignment_bytes(ScalarKind::U32, 3), 16);
    assert_eq!(vector_alignment_bytes(ScalarKind::U32, 4), 16);
    assert_eq!(vector_alignment_bytes(ScalarKind::F32, 2), 8);
    assert_eq!(vector_alignment_bytes(ScalarKind::F32, 3), 16);
    assert_eq!(vector_alignment_bytes(ScalarKind::F32, 4), 16);
    assert_eq!(vector_alignment_bytes(ScalarKind::F64, 2), 16);
    assert_eq!(vector_alignment_bytes(ScalarKind::F64, 3), 32);
    assert_eq!(vector_alignment_bytes(ScalarKind::F64, 4), 32);
}

#[test]
fn vector_sizes_are_multiples_of_their_alignment() {
    let all = [
        ScalarKind::I8,
        ScalarKind::U8,
        ScalarKind::I16,
        ScalarKind::U16,
        ScalarKind::I32,
        ScalarKind::U32,
        ScalarKind::F32,
        ScalarKind::F64,
    ];
    for kind in all {
        for arity in 2..5usize {
            let size = vector_size_bytes(kind, arity);
            let align = vector_alignment_bytes(kind, arity);
            assert_eq!(size % align, 0);
            assert!(align.is_power_of_two());
        }
    }
}

#[test]
fn matrix_alignments_and_sizes_match_the_table() {
    assert_eq!(matrix_alignment_bytes(ScalarKind::F32, 2), 8);
    assert_eq!(matrix_alignment_bytes(ScalarKind::F32, 3), 16);
    assert_eq!(matrix_alignment_bytes(ScalarKind::F32, 4), 16);
    assert_eq!(matrix_alignment_bytes(ScalarKind::F64, 2), 16);
    assert_eq!(matrix_alignment_bytes(ScalarKind::F64, 3), 32);
    assert_eq!(matrix_alignment_bytes(ScalarKind::F64, 4), 32);
    assert_eq!(matrix_size_bytes(ScalarKind::F32, 2), 16);
    assert_eq!(matrix_size_bytes(ScalarKind::F32, 3), 48);
    assert_eq!(matrix_size_bytes(ScalarKind::F32, 4), 64);
    assert_eq!(matrix_size_bytes(ScalarKind::F64, 2), 32);
    assert_eq!(matrix_size_bytes(ScalarKind::F64, 3), 96);
    assert_eq!(matrix_size_bytes(ScalarKind::F64, 4), 128);
    for kind in [ScalarKind::F32, ScalarKind::F64] {
        for arity in 2..5usize {
            let size = matrix_size_bytes(kind, arity);
            let align = matrix_alignment_bytes(kind, arity);
            assert_eq!(size % align, 0);
            assert!(align.is_power_of_two());
        }
    }
}
