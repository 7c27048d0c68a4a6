//! The byte-layout model of the type family: component widths, the
//! alignment table, and the sizes that follow from them.
//!
//! Every type in the family is meant to be copied directly into
//! graphics-API buffer memory, so its alignment is a fixed byte value
//! chosen per (component kind, arity) rather than whatever the platform
//! would pick naturally. This module states that table and proves its
//! basic soundness: sizes are multiples of alignments, alignments are
//! powers of two, and an alignment never shrinks below the component's
//! natural alignment.

use vstd::prelude::*;

verus! {

/// The eight primitive component kinds of the family: signed and unsigned
/// integers of 8, 16 and 32 bits, and 32- and 64-bit floating point.
#[derive(Clone, Copy, PartialEq, Eq, Structural, Debug)]
pub enum ScalarKind {
    I8,
    U8,
    I16,
    U16,
    I32,
    U32,
    F32,
    F64,
}

/// Whether matrices exist for this component kind: only the two floating
/// kinds form matrices.
pub open spec fn is_matrix_kind(kind: ScalarKind) -> bool {
    kind is F32 || kind is F64
}

/// The width of one component in bytes. For these primitives it is also
/// the component's natural alignment.
pub open spec fn scalar_size(kind: ScalarKind) -> nat {
    match kind {
        ScalarKind::I8 => 1,
        ScalarKind::U8 => 1,
        ScalarKind::I16 => 2,
        ScalarKind::U16 => 2,
        ScalarKind::I32 => 4,
        ScalarKind::U32 => 4,
        ScalarKind::F32 => 4,
        ScalarKind::F64 => 8,
    }
}

/// The declared alignment, in bytes, of a vector of `arity` components of
/// `kind`. These are the literal table values of the layout contract.
pub open spec fn vector_alignment(kind: ScalarKind, arity: nat) -> nat
    recommends
        2 <= arity <= 4,
{
    match kind {
        ScalarKind::I8 => if arity == 2 { 2 } else { 4 },
        ScalarKind::U8 => if arity == 2 { 2 } else { 4 },
        ScalarKind::I16 => if arity == 2 { 4 } else { 8 },
        ScalarKind::U16 => if arity == 2 { 4 } else { 8 },
        ScalarKind::I32 => if arity == 2 { 8 } else { 16 },
        ScalarKind::U32 => if arity == 2 { 8 } else { 16 },
        ScalarKind::F32 => if arity == 2 { 8 } else { 16 },
        ScalarKind::F64 => if arity == 2 { 16 } else { 32 },
    }
}

/// Rounds `n` up to the next multiple of `align`.
pub open spec fn round_up(n: nat, align: nat) -> nat
    recommends
        align > 0,
{
    (((n + align - 1) / (align as int)) * align) as nat
}

/// The size, in bytes, of a vector of `arity` components of `kind`: the
/// packed component bytes, padded out to the declared alignment.
pub open spec fn vector_size(kind: ScalarKind, arity: nat) -> nat
    recommends
        2 <= arity <= 4,
{
    round_up(arity * scalar_size(kind), vector_alignment(kind, arity))
}

/// The declared alignment of an `arity`-by-`arity` matrix of `kind`
/// components: a 2-by-2 matrix takes the alignment of its 2-component
/// column vector, and 3-by-3 and 4-by-4 matrices both take the alignment
/// of the 4-component vector of the same kind.
pub open spec fn matrix_alignment(kind: ScalarKind, arity: nat) -> nat
    recommends
        2 <= arity <= 4,
        is_matrix_kind(kind),
{
    if arity == 2 {
        vector_alignment(kind, 2)
    } else {
        vector_alignment(kind, 4)
    }
}

/// The size, in bytes, of an `arity`-by-`arity` matrix of `kind`
/// components: `arity` column vectors laid out one after another.
pub open spec fn matrix_size(kind: ScalarKind, arity: nat) -> nat
    recommends
        2 <= arity <= 4,
        is_matrix_kind(kind),
{
    arity * vector_size(kind, arity)
}

/// Whether `n` is a power of two.
pub open spec fn is_power_of_two(n: nat) -> bool
    decreases n,
{
    if n == 1 {
        true
    } else if n > 1 && n % 2 == 0 {
        is_power_of_two(n / 2)
    } else {
        false
    }
}

/// Rounding up to a multiple of `align` yields a multiple of `align`.
pub proof fn lemma_round_up_multiple(n: nat, align: nat)
    requires
        align > 0,
    ensures
        round_up(n, align) % align == 0,
{
    let q = (n + align - 1) as int / align as int;
    vstd::arithmetic::div_mod::lemma_div_pos_is_pos((n + align - 1) as int, align as int);
    vstd::arithmetic::div_mod::lemma_mod_multiples_basic(q, align as int);
}

/// The declared alignments that occur in the table, each a power of two.
proof fn lemma_table_alignments_are_powers_of_two()
    ensures
        is_power_of_two(2),
        is_power_of_two(4),
        is_power_of_two(8),
        is_power_of_two(16),
        is_power_of_two(32),
{
    reveal_with_fuel(is_power_of_two, 7);
}

/// Law: for every vector type of the family, the size is a multiple of
/// the alignment, the alignment is a power of two, and it never shrinks
/// below the component's natural alignment.
pub proof fn lemma_vector_layout(kind: ScalarKind, arity: nat)
    requires
        2 <= arity <= 4,
    ensures
        vector_size(kind, arity) % vector_alignment(kind, arity) == 0,
        is_power_of_two(vector_alignment(kind, arity)),
        vector_alignment(kind, arity) >= scalar_size(kind),
{
    lemma_round_up_multiple(arity * scalar_size(kind), vector_alignment(kind, arity));
    lemma_table_alignments_are_powers_of_two();
}

/// Law: for every matrix type of the family, the size is a multiple of
/// the alignment, the alignment is a power of two, and it never shrinks
/// below the component's natural alignment.
pub proof fn lemma_matrix_layout(kind: ScalarKind, arity: nat)
    requires
        2 <= arity <= 4,
        is_matrix_kind(kind),
    ensures
        matrix_size(kind, arity) % matrix_alignment(kind, arity) == 0,
        is_power_of_two(matrix_alignment(kind, arity)),
        matrix_alignment(kind, arity) >= scalar_size(kind),
{
    let va = vector_alignment(kind, arity);
    let ma = matrix_alignment(kind, arity);
    let vs = vector_size(kind, arity);
    // A matrix's alignment is its column vector's alignment: for arity 2
    // directly, and for arities 3 and 4 the table gives the same value to
    // the 3- and 4-component vectors.
    assert(ma == va);
    lemma_vector_layout(kind, arity);
    // The columns are laid out one after another, so the size stays a
    // multiple of the column alignment.
    let j = vs as int / va as int;
    vstd::arithmetic::div_mod::lemma_fundamental_div_mod(vs as int, va as int);
    assert(vs == va * j);
    assert(arity * vs == (arity * j) * va) by (nonlinear_arith)
        requires
            vs == va * j,
    ;
    vstd::arithmetic::div_mod::lemma_mod_multiples_basic(arity as int * j, va as int);
    assert(matrix_size(kind, arity) == arity * vs);
}

/// The padded vector sizes that the table yields, one value per
/// (kind, arity) pair.
proof fn lemma_vector_size_values()
    ensures
        vector_size(ScalarKind::I8, 2) == 2,
        vector_size(ScalarKind::I8, 3) == 4,
        vector_size(ScalarKind::I8, 4) == 4,
        vector_size(ScalarKind::U8, 2) == 2,
        vector_size(ScalarKind::U8, 3) == 4,
        vector_size(ScalarKind::U8, 4) == 4,
        vector_size(ScalarKind::I16, 2) == 4,
        vector_size(ScalarKind::I16, 3) == 8,
        vector_size(ScalarKind::I16, 4) == 8,
        vector_size(ScalarKind::U16, 2) == 4,
        vector_size(ScalarKind::U16, 3) == 8,
        vector_size(ScalarKind::U16, 4) == 8,
        vector_size(ScalarKind::I32, 2) == 8,
        vector_size(ScalarKind::I32, 3) == 16,
        vector_size(ScalarKind::I32, 4) == 16,
        vector_size(ScalarKind::U32, 2) == 8,
        vector_size(ScalarKind::U32, 3) == 16,
        vector_size(ScalarKind::U32, 4) == 16,
        vector_size(ScalarKind::F32, 2) == 8,
        vector_size(ScalarKind::F32, 3) == 16,
        vector_size(ScalarKind::F32, 4) == 16,
        vector_size(ScalarKind::F64, 2) == 16,
        vector_size(ScalarKind::F64, 3) == 32,
        vector_size(ScalarKind::F64, 4) == 32,
{
    assert(vector_size(ScalarKind::I8, 2) == round_up(2, 2));
    assert(round_up(2, 2) == 2);
    assert(vector_size(ScalarKind::I8, 3) == round_up(3, 4));
    assert(round_up(3, 4) == 4);
    assert(vector_size(ScalarKind::I8, 4) == round_up(4, 4));
    assert(round_up(4, 4) == 4);
    assert(vector_size(ScalarKind::U8, 2) == round_up(2, 2));
    assert(vector_size(ScalarKind::U8, 3) == round_up(3, 4));
    assert(vector_size(ScalarKind::U8, 4) == round_up(4, 4));
    assert(vector_size(ScalarKind::I16, 2) == round_up(4, 4));
    assert(vector_size(ScalarKind::I16, 3) == round_up(6, 8));
    assert(round_up(6, 8) == 8);
    assert(vector_size(ScalarKind::I16, 4) == round_up(8, 8));
    assert(round_up(8, 8) == 8);
    assert(vector_size(ScalarKind::U16, 2) == round_up(4, 4));
    assert(vector_size(ScalarKind::U16, 3) == round_up(6, 8));
    assert(vector_size(ScalarKind::U16, 4) == round_up(8, 8));
    assert(vector_size(ScalarKind::I32, 2) == round_up(8, 8));
    assert(vector_size(ScalarKind::I32, 3) == round_up(12, 16));
    assert(round_up(12, 16) == 16);
    assert(vector_size(ScalarKind::I32, 4) == round_up(16, 16));
    assert(round_up(16, 16) == 16);
    assert(vector_size(ScalarKind::U32, 2) == round_up(8, 8));
    assert(vector_size(ScalarKind::U32, 3) == round_up(12, 16));
    assert(vector_size(ScalarKind::U32, 4) == round_up(16, 16));
    assert(vector_size(ScalarKind::F32, 2) == round_up(8, 8));
    assert(vector_size(ScalarKind::F32, 3) == round_up(12, 16));
    assert(vector_size(ScalarKind::F32, 4) == round_up(16, 16));
    assert(vector_size(ScalarKind::F64, 2) == round_up(16, 16));
    assert(vector_size(ScalarKind::F64, 3) == round_up(24, 32));
    assert(round_up(24, 32) == 32);
    assert(vector_size(ScalarKind::F64, 4) == round_up(32, 32));
    assert(round_up(32, 32) == 32);
}
/// The matrix sizes that the model yields, one value per pair.
proof fn lemma_matrix_size_values()
    ensures
        matrix_size(ScalarKind::F32, 2) == 16,
        matrix_size(ScalarKind::F32, 3) == 48,
        matrix_size(ScalarKind::F32, 4) == 64,
        matrix_size(ScalarKind::F64, 2) == 32,
        matrix_size(ScalarKind::F64, 3) == 96,
        matrix_size(ScalarKind::F64, 4) == 128,
{
    lemma_vector_size_values();
    assert(matrix_size(ScalarKind::F32, 2) == 2 * vector_size(ScalarKind::F32, 2));
    assert(2 * vector_size(ScalarKind::F32, 2) == 16);
    assert(matrix_size(ScalarKind::F32, 3) == 3 * vector_size(ScalarKind::F32, 3));
    assert(3 * vector_size(ScalarKind::F32, 3) == 48);
    assert(matrix_size(ScalarKind::F32, 4) == 4 * vector_size(ScalarKind::F32, 4));
    assert(4 * vector_size(ScalarKind::F32, 4) == 64);
    assert(matrix_size(ScalarKind::F64, 2) == 2 * vector_size(ScalarKind::F64, 2));
    assert(2 * vector_size(ScalarKind::F64, 2) == 32);
    assert(matrix_size(ScalarKind::F64, 3) == 3 * vector_size(ScalarKind::F64, 3));
    assert(3 * vector_size(ScalarKind::F64, 3) == 96);
    assert(matrix_size(ScalarKind::F64, 4) == 4 * vector_size(ScalarKind::F64, 4));
    assert(4 * vector_size(ScalarKind::F64, 4) == 128);
}

/// The alignment table as an executable function: the declared alignment,
/// in bytes, of a vector of `arity` components of `kind`.
pub fn vector_alignment_bytes(kind: ScalarKind, arity: usize) -> (r: usize)
    requires
        2 <= arity <= 4,
    ensures
        r as nat == vector_alignment(kind, arity as nat),
{
    match kind {
        ScalarKind::I8 => if arity == 2 { 2 } else { 4 },
        ScalarKind::U8 => if arity == 2 { 2 } else { 4 },
        ScalarKind::I16 => if arity == 2 { 4 } else { 8 },
        ScalarKind::U16 => if arity == 2 { 4 } else { 8 },
        ScalarKind::I32 => if arity == 2 { 8 } else { 16 },
        ScalarKind::U32 => if arity == 2 { 8 } else { 16 },
        ScalarKind::F32 => if arity == 2 { 8 } else { 16 },
        ScalarKind::F64 => if arity == 2 { 16 } else { 32 },
    }
}

/// The size, in bytes, of a vector of `arity` components of `kind`.
pub fn vector_size_bytes(kind: ScalarKind, arity: usize) -> (r: usize)
    requires
        2 <= arity <= 4,
    ensures
        r as nat == vector_size(kind, arity as nat),
{
    proof {
        lemma_vector_size_values();
        assert(arity == 2 || arity == 3 || arity == 4);
    }
    match kind {
        ScalarKind::I8 => if arity == 2 { 2 } else { 4 },
        ScalarKind::U8 => if arity == 2 { 2 } else { 4 },
        ScalarKind::I16 => if arity == 2 { 4 } else { 8 },
        ScalarKind::U16 => if arity == 2 { 4 } else { 8 },
        ScalarKind::I32 => if arity == 2 { 8 } else { 16 },
        ScalarKind::U32 => if arity == 2 { 8 } else { 16 },
        ScalarKind::F32 => if arity == 2 { 8 } else { 16 },
        ScalarKind::F64 => if arity == 2 { 16 } else { 32 },
    }
}

/// The declared alignment, in bytes, of an `arity`-by-`arity` matrix of
/// `kind` components.
pub fn matrix_alignment_bytes(kind: ScalarKind, arity: usize) -> (r: usize)
    requires
        2 <= arity <= 4,
        is_matrix_kind(kind),
    ensures
        r as nat == matrix_alignment(kind, arity as nat),
{
    if arity == 2 {
        vector_alignment_bytes(kind, 2)
    } else {
        vector_alignment_bytes(kind, 4)
    }
}

/// The size, in bytes, of an `arity`-by-`arity` matrix of `kind`
/// components: `arity` columns of the padded column-vector size.
pub fn matrix_size_bytes(kind: ScalarKind, arity: usize) -> (r: usize)
    requires
        2 <= arity <= 4,
        is_matrix_kind(kind),
    ensures
        r as nat == matrix_size(kind, arity as nat),
{
    proof {
        lemma_matrix_size_values();
        assert(arity == 2 || arity == 3 || arity == 4);
    }
    match kind {
        ScalarKind::F32 => if arity == 2 { 16 } else if arity == 3 { 48 } else { 64 },
        ScalarKind::F64 => if arity == 2 { 32 } else if arity == 3 { 96 } else { 128 },
        // The integer kinds form no matrices; unreachable under the
        // precondition.
        _ => 0,
    }
}

} // verus!

