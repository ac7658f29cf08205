//! Linear algebra operations on vectors of [`Scalar`] values.
//!
//! Every function is specified elementwise (or, for the reductions, as a
//! left fold in index order) over the rounded scalar operations, so a
//! caller knows the exact bit pattern each entry ends up with, as a
//! function of the inputs.

use vstd::prelude::*;
use vstd::pervasive::VecAdditionalExecFns;

use crate::scalar::{
    c_add, c_add_of, c_conj, c_mul, c_mul_of, c_mul_real, c_mul_real_of, c_square, c_square_of,
    c_zero, r_add, r_add_of, r_sqrt, r_sqrt_of, r_zero, spec_conj, Real, Scalar,
};

verus! {

/// The left fold `((0 + x[0]*y[0]) + x[1]*y[1]) + ...` over the first `n`
/// entries, in index order, with rounded operations.
pub open spec fn dot_prefix(x: Seq<Scalar>, y: Seq<Scalar>, n: int) -> Scalar
    decreases n,
{
    if n <= 0 {
        c_zero()
    } else {
        c_add_of(dot_prefix(x, y, n - 1), c_mul_of(x[n - 1], y[n - 1]))
    }
}

/// The unconjugated dot product `xᵀ·y` of two equal-length vectors.
pub open spec fn spec_dot(x: Seq<Scalar>, y: Seq<Scalar>) -> Scalar {
    dot_prefix(x, y, x.len() as int)
}

/// The left fold of `conj(x[i])*y[i]` over the first `n` entries.
pub open spec fn conj_dot_prefix(x: Seq<Scalar>, y: Seq<Scalar>, n: int) -> Scalar
    decreases n,
{
    if n <= 0 {
        c_zero()
    } else {
        c_add_of(conj_dot_prefix(x, y, n - 1), c_mul_of(spec_conj(x[n - 1]), y[n - 1]))
    }
}

/// The conjugated dot product `xᴴ·y` of two equal-length vectors.
pub open spec fn spec_conj_dot(x: Seq<Scalar>, y: Seq<Scalar>) -> Scalar {
    conj_dot_prefix(x, y, x.len() as int)
}

/// The left fold of the squared magnitudes of the first `n` entries.
pub open spec fn sumsq_prefix(x: Seq<Scalar>, n: int) -> Real
    decreases n,
{
    if n <= 0 {
        r_zero()
    } else {
        r_add_of(sumsq_prefix(x, n - 1), c_square_of(x[n - 1]))
    }
}

/// The Euclidean norm: the rounded square root of the summed squared
/// magnitudes.
pub open spec fn spec_norm2(x: Seq<Scalar>) -> Real {
    r_sqrt_of(sumsq_prefix(x, x.len() as int))
}

/// The elementwise result of `y += a·x`: each entry of `y` becomes
/// `y[i] + x[i]*a` with rounded operations.
pub open spec fn spec_axpy(a: Scalar, x: Seq<Scalar>, y: Seq<Scalar>) -> Seq<Scalar> {
    Seq::new(y.len(), |i: int| c_add_of(y[i], c_mul_of(x[i], a)))
}

/// The elementwise result of `v = v * a` with rounded multiplication.
pub open spec fn spec_scale(a: Scalar, v: Seq<Scalar>) -> Seq<Scalar> {
    Seq::new(v.len(), |i: int| c_mul_of(v[i], a))
}

/// A sequence of `n` complex zeros.
pub open spec fn zero_seq(n: nat) -> Seq<Scalar> {
    Seq::new(n, |i: int| c_zero())
}

/// Computes `x·y = xᵀ·y`; no conjugate is taken on complex entries.
pub fn dot(vec1: &Vec<Scalar>, vec2: &Vec<Scalar>) -> (r: Scalar)
    requires
        vec1@.len() == vec2@.len(),
    ensures
        r == spec_dot(vec1@, vec2@),
{
    let n = vec1.len();
    let mut acc = Scalar::zero();
    for i in 0..n
        invariant
            n == vec1@.len(),
            vec1@.len() == vec2@.len(),
            acc == dot_prefix(vec1@, vec2@, i as int),
    {
        acc = c_add(acc, c_mul(vec1[i], vec2[i]));
    }
    acc
}

/// Computes `x·y = xᴴ·y`: conjugate-linear in the first argument, linear
/// in the second.
pub fn conj_dot(vec1: &Vec<Scalar>, vec2: &Vec<Scalar>) -> (r: Scalar)
    requires
        vec1@.len() == vec2@.len(),
    ensures
        r == spec_conj_dot(vec1@, vec2@),
{
    let n = vec1.len();
    let mut acc = Scalar::zero();
    for i in 0..n
        invariant
            n == vec1@.len(),
            vec1@.len() == vec2@.len(),
            acc == conj_dot_prefix(vec1@, vec2@, i as int),
    {
        acc = c_add(acc, c_mul(c_conj(vec1[i]), vec2[i]));
    }
    acc
}

/// Computes the Euclidean norm of a vector. An all-zero vector has norm
/// exactly `+0.0`.
pub fn norm2(vec: &Vec<Scalar>) -> (r: Real)
    ensures
        r == spec_norm2(vec@),
        (forall|i: int| 0 <= i < vec@.len() ==> vec@[i] == c_zero()) ==> r == r_zero(),
{
    let n = vec.len();
    let mut acc = Real::zero();
    for i in 0..n
        invariant
            n == vec@.len(),
            acc == sumsq_prefix(vec@, i as int),
            (forall|j: int| 0 <= j < i ==> vec@[j] == c_zero()) ==> acc == r_zero(),
    {
        acc = r_add(acc, c_square(vec[i]));
    }
    r_sqrt(acc)
}

/// Computes `vec = vec * a` in place.
pub fn scale(a: Scalar, vec: &mut Vec<Scalar>)
    ensures
        final(vec)@.len() == old(vec)@.len(),
        final(vec)@ == spec_scale(a, old(vec)@),
{
    let n = vec.len();
    for i in 0..n
        invariant
            n == vec@.len(),
            vec@.len() == old(vec)@.len(),
            forall|j: int| 0 <= j < i ==> vec@[j] == c_mul_of(old(vec)@[j], a),
            forall|j: int| i <= j < n ==> vec@[j] == old(vec)@[j],
    {
        let v = c_mul(vec[i], a);
        vec.set(i, v);
    }
    assert(vec@ =~= spec_scale(a, old(vec)@));
}

/// Computes `vec = vec * a` in place, where `a` is a real number.
pub fn rscale(a: Real, vec: &mut Vec<Scalar>)
    ensures
        final(vec)@.len() == old(vec)@.len(),
        forall|i: int| 0 <= i < old(vec)@.len() ==> final(vec)@[i] == c_mul_real_of(
            old(vec)@[i],
            a,
        ),
{
    let n = vec.len();
    for i in 0..n
        invariant
            n == vec@.len(),
            vec@.len() == old(vec)@.len(),
            forall|j: int| 0 <= j < i ==> vec@[j] == c_mul_real_of(old(vec)@[j], a),
            forall|j: int| i <= j < n ==> vec@[j] == old(vec)@[j],
    {
        let v = c_mul_real(vec[i], a);
        vec.set(i, v);
    }
}

/// Writes the elementwise conjugate of `vec_in` into `vec_out`.
pub fn conj(vec_in: &Vec<Scalar>, vec_out: &mut Vec<Scalar>)
    requires
        vec_in@.len() == old(vec_out)@.len(),
    ensures
        final(vec_out)@.len() == old(vec_out)@.len(),
        forall|i: int| 0 <= i < vec_in@.len() ==> final(vec_out)@[i] == spec_conj(vec_in@[i]),
{
    let n = vec_in.len();
    for i in 0..n
        invariant
            n == vec_in@.len(),
            vec_in@.len() == vec_out@.len(),
            forall|j: int| 0 <= j < i ==> vec_out@[j] == spec_conj(vec_in@[j]),
    {
        let v = c_conj(vec_in[i]);
        vec_out.set(i, v);
    }
}

/// The standard `axpy` operation as in BLAS: `vec2 = vec2 + a*vec1`.
pub fn axpy(a: Scalar, vec1: &Vec<Scalar>, vec2: &mut Vec<Scalar>)
    requires
        vec1@.len() == old(vec2)@.len(),
    ensures
        final(vec2)@.len() == old(vec2)@.len(),
        final(vec2)@ == spec_axpy(a, vec1@, old(vec2)@),
{
    let n = vec1.len();
    for i in 0..n
        invariant
            n == vec1@.len(),
            vec1@.len() == vec2@.len(),
            vec2@.len() == old(vec2)@.len(),
            forall|j: int| 0 <= j < i ==> vec2@[j] == c_add_of(
                old(vec2)@[j],
                c_mul_of(vec1@[j], a),
            ),
            forall|j: int| i <= j < n ==> vec2@[j] == old(vec2)@[j],
    {
        let v = c_add(vec2[i], c_mul(vec1[i], a));
        vec2.set(i, v);
    }
    assert(vec2@ =~= spec_axpy(a, vec1@, old(vec2)@));
}

/// The `axpby` operation as in BLAS extensions: `vec2 = a*vec1 + b*vec2`.
pub fn axpby(a: Scalar, vec1: &Vec<Scalar>, b: Scalar, vec2: &mut Vec<Scalar>)
    requires
        vec1@.len() == old(vec2)@.len(),
    ensures
        final(vec2)@.len() == old(vec2)@.len(),
        forall|i: int| 0 <= i < old(vec2)@.len() ==> final(vec2)@[i] == c_add_of(
            c_mul_of(vec1@[i], a),
            c_mul_of(old(vec2)@[i], b),
        ),
{
    let n = vec1.len();
    for i in 0..n
        invariant
            n == vec1@.len(),
            vec1@.len() == vec2@.len(),
            vec2@.len() == old(vec2)@.len(),
            forall|j: int| 0 <= j < i ==> vec2@[j] == c_add_of(
                c_mul_of(vec1@[j], a),
                c_mul_of(old(vec2)@[j], b),
            ),
            forall|j: int| i <= j < n ==> vec2@[j] == old(vec2)@[j],
    {
        let v = c_add(c_mul(vec1[i], a), c_mul(vec2[i], b));
        vec2.set(i, v);
    }
}

/// Overwrites `dst` with the contents of `src`.
pub fn copy_from(src: &Vec<Scalar>, dst: &mut Vec<Scalar>)
    requires
        src@.len() == old(dst)@.len(),
    ensures
        final(dst)@ == src@,
{
    let n = src.len();
    for i in 0..n
        invariant
            n == src@.len(),
            src@.len() == dst@.len(),
            forall|j: int| 0 <= j < i ==> dst@[j] == src@[j],
    {
        let v = src[i];
        dst.set(i, v);
    }
    assert(dst@ =~= src@);
}

/// Allocates a vector of `n` complex zeros.
pub fn zeros(n: usize) -> (v: Vec<Scalar>)
    ensures
        v@.len() == n,
        v@ == zero_seq(n as nat),
{
    let mut v: Vec<Scalar> = Vec::new();
    for i in 0..n
        invariant
            v@.len() == i,
            forall|j: int| 0 <= j < i ==> v@[j] == c_zero(),
    {
        v.push(Scalar::zero());
    }
    assert(v@ =~= zero_seq(n as nat));
    v
}

/// Sets every entry of `vec` to the complex zero.
pub fn set_zero(vec: &mut Vec<Scalar>)
    ensures
        final(vec)@.len() == old(vec)@.len(),
        final(vec)@ == zero_seq(old(vec)@.len()),
        forall|i: int| 0 <= i < final(vec)@.len() ==> final(vec)@[i] == c_zero(),
{
    let n = vec.len();
    for i in 0..n
        invariant
            n == vec@.len(),
            vec@.len() == old(vec)@.len(),
            forall|j: int| 0 <= j < i ==> vec@[j] == c_zero(),
    {
        let v = Scalar::zero();
        vec.set(i, v);
    }
    assert(vec@ =~= zero_seq(old(vec)@.len()));
}

} // verus!
