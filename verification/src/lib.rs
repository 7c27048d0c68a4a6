//! Fixed-layout numeric vector and matrix types for GPU-facing buffers,
//! with a verified model of their byte layout and a conversion layer to
//! the `glam` linear-algebra types.

pub mod glam_api;
pub mod hir;
pub mod interop_mat;
pub mod interop_vec;
pub mod layout;
pub mod matrices;
pub mod vectors;
