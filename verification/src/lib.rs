//! Krylov-subspace iterative solvers for sparse linear systems.
//!
//! The crate provides two solver engines — BiCGSTAB for general square
//! systems and MINRES for symmetric/Hermitian indefinite ones — together
//! with the vector algebra and the compressed-sparse-row operator they run
//! on. Scalars are double-precision complex numbers carried as IEEE 754
//! bit patterns, so that every structural decision the solvers make is
//! stated and checked over plain values.
//!
//! The scalar field is complex double precision only: real problems are
//! carried as complex numbers with zero imaginary parts, and no
//! single-precision instantiation is offered. A real problem therefore
//! rounds as its complex embedding does (division, for one, goes through
//! the complex norm-squared formula), not as a native real instantiation
//! would.

use vstd::prelude::*;

pub mod bicg_stab;
pub mod csr;
pub mod error;
pub mod mat;
pub mod minres;
pub mod scalar;
pub mod vecalg;

pub use bicg_stab::BiCGStab;
pub use csr::CsrMat;
pub use mat::MatVecMul;
pub use minres::MinRes;

verus! {

/// Relies on `core::any::TypeId::of`: the two type identifiers are
/// compared, and they are equal exactly for equal types. Verus has no
/// notion of type identity, so nothing is claimed of the result.
#[verifier::external_body]
fn type_ids_equal<A: 'static, B: 'static>() -> bool {
    core::any::TypeId::of::<A>() == core::any::TypeId::of::<B>()
}

/// Returns `true` if `A` and `B` are the same type.
pub fn same_type<A: 'static, B: 'static>() -> bool {
    type_ids_equal::<A, B>()
}

} // verus!
