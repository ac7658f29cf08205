//! The linear-operator capability the solver engines consume.

use vstd::prelude::*;

use crate::scalar::Scalar;
use crate::vecalg::spec_conj_dot;

verus! {

/// A square linear operator `A` that multiplies vectors of [`Scalar`]s.
///
/// `apply` fixes, as a mathematical function of the operator and the input
/// sequence, the exact bit patterns a multiplication writes; the two
/// executable methods are specified against it. The fused `mul_vec_dot`
/// additionally returns `conj(v_in)·(A·v_in)`, which some back-ends can
/// produce more cheaply than two separate passes.
pub trait MatVecMul: Sized {
    /// The operator is in a usable state: a validated square structure.
    spec fn wf(&self) -> bool;

    /// The dimension `n` of the square operator.
    spec fn dim(&self) -> nat;

    /// The exact result of multiplying the operator with `v`.
    spec fn apply(&self, v: Seq<Scalar>) -> Seq<Scalar>;

    /// A multiplication result always has the operator's dimension.
    proof fn apply_len(&self, v: Seq<Scalar>)
        ensures
            self.apply(v).len() == self.dim(),
    ;

    /// Computes `v_out = A·v_in`.
    fn mul_vec(&self, v_in: &Vec<Scalar>, v_out: &mut Vec<Scalar>)
        requires
            self.wf(),
            v_in@.len() == self.dim(),
            old(v_out)@.len() == self.dim(),
        ensures
            final(v_out)@ == self.apply(v_in@),
    ;

    /// Computes `v_out = A·v_in` and returns `conj(v_in)·v_out` from the
    /// same pass.
    fn mul_vec_dot(&self, v_in: &Vec<Scalar>, v_out: &mut Vec<Scalar>) -> (r: Scalar)
        requires
            self.wf(),
            v_in@.len() == self.dim(),
            old(v_out)@.len() == self.dim(),
        ensures
            final(v_out)@ == self.apply(v_in@),
            r == spec_conj_dot(v_in@, self.apply(v_in@)),
    ;
}

} // verus!
