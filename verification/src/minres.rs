//! The MINRES solver engine: a three-term Lanczos recurrence with rolling
//! Givens-rotation QR updates, for symmetric (real) or Hermitian (complex)
//! indefinite systems.
//!
//! Whether the operator really is symmetric or Hermitian is a caller
//! obligation that is never checked; violating it silently yields a wrong
//! answer, not an error.

use vstd::prelude::*;

use crate::error::{SolveResult, SolverError};
use crate::mat::MatVecMul;
use crate::scalar::{
    c_add, c_add_of, c_div_real, c_div_real_of, c_from_real, c_mul, c_mul_of, c_mul_real,
    c_mul_real_of, c_neg, c_one, c_sub, c_sub_of, c_square, c_square_of, c_zero, r_abs, r_add,
    r_add_of, r_div, r_div_of, r_eps, r_le, r_lt, r_mul, r_mul_of, r_neg, r_one, r_sqrt,
    r_sqrt_of, r_zero, lemma_zero_le_eps, spec_abs, spec_c_neg, spec_from_real, spec_le, spec_lt,
    spec_neg, Real, Scalar,
};
use crate::vecalg::{
    axpy, copy_from, norm2, scale, set_zero, spec_axpy, spec_conj_dot, spec_norm2, spec_scale,
    zero_seq, zeros,
};

verus! {

broadcast use vstd::string::to_string_from_display_ensures_for_str;

/// The transient state of the MINRES recurrence between iterations: the
/// two live Lanczos vectors, the two live direction vectors, the current
/// iterate, the rotation history and the running scalars. (The other two
/// scratch windows carry no information across iterations: they are fully
/// overwritten before they are read.)
pub struct MinResState {
    pub x: Seq<Scalar>,
    pub v: Seq<Scalar>,
    pub v_new: Seq<Scalar>,
    pub p_old: Seq<Scalar>,
    pub p: Seq<Scalar>,
    pub c: Scalar,
    pub c_old: Scalar,
    pub s: Real,
    pub s_old: Real,
    pub eta: Scalar,
    pub res_norm: Real,
    pub beta_new: Real,
    pub beta_one: Real,
}

/// The state the engine sets up before its first iteration: the entry
/// residual `rhs - A·x0`, normalized, as the fresh Lanczos vector; zeroed
/// previous vectors and directions; unit rotation history.
pub open spec fn minres_init<M: MatVecMul>(a: M, x0: Seq<Scalar>, rhs: Seq<Scalar>) -> MinResState {
    let w0 = spec_axpy(spec_c_neg(c_one()), a.apply(x0), rhs);
    let res0 = spec_norm2(w0);
    MinResState {
        x: x0,
        v: zero_seq(rhs.len()),
        v_new: spec_scale(spec_from_real(r_div_of(r_one(), res0)), w0),
        p_old: zero_seq(rhs.len()),
        p: zero_seq(rhs.len()),
        c: c_one(),
        c_old: c_one(),
        s: r_zero(),
        s_old: r_zero(),
        eta: c_one(),
        res_norm: res0,
        beta_new: res0,
        beta_one: res0,
    }
}

/// One MINRES iteration, exactly as the engine computes it: the fused
/// Lanczos step, the two previous Givens rotations folded into the new
/// tridiagonal column, the new rotation, the three-term direction update
/// and the solution update, all over the rounded scalar operations.
pub open spec fn minres_step<M: MatVecMul>(a: M, st: MinResState) -> MinResState {
    let beta = st.beta_new;
    let v_cur = st.v_new;
    let mv = a.apply(v_cur);
    let alpha = spec_conj_dot(v_cur, mv);
    let w2 = spec_axpy(
        spec_c_neg(alpha),
        v_cur,
        spec_axpy(spec_from_real(spec_neg(beta)), st.v, mv),
    );
    let beta_n = spec_norm2(w2);
    let r3 = r_mul_of(st.s_old, beta);
    let tr = c_mul_real_of(st.c_old, beta);
    let r2 = c_add_of(c_mul_real_of(alpha, st.s), c_mul_of(st.c, tr));
    let r1_hat = c_sub_of(c_mul_of(st.c, alpha), c_mul_real_of(tr, st.s));
    let r1 = r_sqrt_of(r_add_of(c_square_of(r1_hat), r_mul_of(beta_n, beta_n)));
    let c_new = c_div_real_of(r1_hat, r1);
    let s_new = r_div_of(beta_n, r1);
    let p_new = spec_scale(
        spec_from_real(r_div_of(r_one(), r1)),
        spec_axpy(spec_from_real(spec_neg(r3)), st.p_old, spec_axpy(spec_c_neg(r2), st.p, v_cur)),
    );
    MinResState {
        x: spec_axpy(c_mul_real_of(c_mul_of(c_new, st.eta), st.beta_one), p_new, st.x),
        v: v_cur,
        v_new: spec_scale(spec_from_real(r_div_of(r_one(), beta_n)), w2),
        p_old: st.p,
        p: p_new,
        c: c_new,
        c_old: st.c,
        s: s_new,
        s_old: st.s,
        eta: c_mul_real_of(st.eta, spec_neg(s_new)),
        res_norm: r_mul_of(st.res_norm, spec_abs(s_new)),
        beta_new: beta_n,
        beta_one: st.beta_one,
    }
}

/// The whole iteration from a given state and iteration index: the result
/// the engine returns and the final contents of `x`. Each pass performs
/// one step, succeeds when the running residual-norm estimate falls
/// strictly below the threshold, and gives up when the budget is spent.
pub open spec fn minres_run<M: MatVecMul>(
    a: M,
    st: MinResState,
    rhs_norm: Real,
    threshold: Real,
    its: int,
    max_iter: int,
) -> (SolveResult<(usize, Real)>, Seq<Scalar>)
    decreases max_iter - its,
{
    if its >= max_iter {
        (Err(SolverError::InsufficientIterNum(max_iter as usize)), st.x)
    } else {
        let st1 = minres_step(a, st);
        if spec_lt(st1.res_norm, threshold) {
            (Ok((its as usize, r_div_of(st1.res_norm, rhs_norm))), st1.x)
        } else {
            minres_run(a, st1, rhs_norm, threshold, its + 1, max_iter)
        }
    }
}

/// What a finished MINRES `solve` call promises, over the system size, the
/// right-hand side, the initial and final contents of `x`, the iteration
/// budget and the tolerance.
///
/// - A dimension mismatch is reported, exactly and only then, as
///   `IncompatibleMatrixFormat`, with `x` untouched.
/// - A right-hand side of norm at most machine epsilon short-circuits to
///   `Ok((0, ‖rhs‖))` with `x` zeroed; an all-zero right-hand side thus
///   returns `Ok((0, +0.0))` exactly.
/// - Otherwise the result and the final contents of `x` are exactly what
///   [`minres_run`] yields for the set-up state: the recurrence is pinned
///   down step by step over the rounded scalar operations, so a success
///   `Ok((its, rel))` has `its < max_iter` and reports the running
///   residual-norm estimate that fell strictly below `tol·‖rhs‖`, divided
///   by `‖rhs‖`; an exhausted budget means no pass within the budget met
///   the threshold, is reported as `InsufficientIterNum(max_iter)`, and
///   leaves in `x` the last iterate reached; the method has no breakdown
///   exit.
pub open spec fn minres_solve_contract<M: MatVecMul>(
    op: M,
    size: usize,
    rhs: Seq<Scalar>,
    x0: Seq<Scalar>,
    x1: Seq<Scalar>,
    max_iter: usize,
    tol: Real,
    res: SolveResult<(usize, Real)>,
) -> bool {
    let dims_ok = rhs.len() == size && x0.len() == size;
    let rhs_norm = spec_norm2(rhs);
    let trivial = spec_le(rhs_norm, r_eps());
    &&& (res matches Err(e) && e is IncompatibleMatrixFormat) <==> !dims_ok
    &&& !dims_ok ==> x1 == x0
    &&& rhs.len() != size ==> (res matches Err(SolverError::IncompatibleMatrixFormat(m))
        && m@ == "Input vec dimension doesn't match the matrix size"@)
    &&& rhs.len() == size && x0.len() != size ==> (res matches Err(
        SolverError::IncompatibleMatrixFormat(m),
    ) && m@ == "Input and output vec dimension do not match"@)
    &&& dims_ok && trivial ==> (res matches Ok(p) && p.0 == 0 && p.1 == rhs_norm && forall|
        i: int,
    |
        0 <= i < x1.len() ==> x1[i] == c_zero())
    &&& dims_ok && (forall|i: int| 0 <= i < rhs.len() ==> rhs[i] == c_zero()) ==> (
    res matches Ok(p) && p.0 == 0 && p.1 == r_zero() && forall|i: int|
        0 <= i < x1.len() ==> x1[i] == c_zero())
    &&& dims_ok && !trivial ==> (res matches Ok(p) ==> p.0 < max_iter && (exists|rn: Real|
        p.1 == r_div_of(rn, rhs_norm) && #[trigger] spec_lt(rn, r_mul_of(tol, rhs_norm))))
    &&& dims_ok && !trivial ==> {
        let out = minres_run(
            op,
            minres_init(op, x0, rhs),
            rhs_norm,
            r_mul_of(tol, rhs_norm),
            0,
            max_iter as int,
        );
        res == out.0 && x1 == out.1
    }
    &&& res matches Err(SolverError::InsufficientIterNum(m)) ==> m == max_iter && dims_ok
        && !trivial
    &&& !(res matches Err(SolverError::BreakDown(_)))
}

/// The MINRES solver bound to a symmetric/Hermitian operator.
pub struct MinRes<'data, M: MatVecMul> {
    a: &'data M,
    size: usize,
    v_old: Vec<Scalar>,
    v_new: Vec<Scalar>,
    v: Vec<Scalar>,
    p_old: Vec<Scalar>,
    p_oold: Vec<Scalar>,
    p: Vec<Scalar>,
}

impl<'data, M: MatVecMul> MinRes<'data, M> {
    /// The operator the solver was bound to.
    pub closed spec fn opm(&self) -> M {
        *self.a
    }

    /// The system size the solver was built for.
    pub closed spec fn size_spec(&self) -> usize {
        self.size
    }

    /// The solver is usable: the operator is valid and matches the size,
    /// and all six scratch windows have that size.
    pub closed spec fn wf(&self) -> bool {
        &&& self.a.wf()
        &&& self.a.dim() == self.size
        &&& self.v_old@.len() == self.size
        &&& self.v_new@.len() == self.size
        &&& self.v@.len() == self.size
        &&& self.p_old@.len() == self.size
        &&& self.p_oold@.len() == self.size
        &&& self.p@.len() == self.size
    }

    /// Binds a solver to an operator of dimension `size`, allocating the
    /// six scratch windows it reuses across `solve` calls.
    pub fn new(a: &'data M, size: usize) -> (s: MinRes<'data, M>)
        requires
            a.wf(),
            a.dim() == size,
        ensures
            s.wf(),
            s.opm() == *a,
            s.size_spec() == size,
    {
        MinRes {
            a,
            size,
            v_old: zeros(size),
            v_new: zeros(size),
            v: zeros(size),
            p_old: zeros(size),
            p_oold: zeros(size),
            p: zeros(size),
        }
    }

    /// Solves `A·x = rhs` without a preconditioner, using `x` as the
    /// initial guess; the promise is [`minres_solve_contract`]. The
    /// operator is assumed symmetric/Hermitian and this is not checked.
    pub fn solve(
        &mut self,
        rhs: &Vec<Scalar>,
        x: &mut Vec<Scalar>,
        max_iter: usize,
        tol: Real,
    ) -> (res: SolveResult<(usize, Real)>)
        requires
            old(self).wf(),
        ensures
            final(self).wf(),
            final(self).opm() == old(self).opm(),
            final(self).size_spec() == old(self).size_spec(),
            final(x)@.len() == old(x)@.len(),
            !(rhs@.len() == old(self).size_spec() && old(x)@.len() == rhs@.len())
                ==> *final(self) == *old(self),
            minres_solve_contract(
                old(self).opm(),
                old(self).size_spec(),
                rhs@,
                old(x)@,
                final(x)@,
                max_iter,
                tol,
                res,
            ),
    {
        let n = rhs.len();
        if n != self.size {
            return Err(
                SolverError::IncompatibleMatrixFormat(
                    "Input vec dimension doesn't match the matrix size".to_string(),
                ),
            );
        }
        if n != x.len() {
            return Err(
                SolverError::IncompatibleMatrixFormat(
                    "Input and output vec dimension do not match".to_string(),
                ),
            );
        }

        let rhs_norm = norm2(rhs);
        if r_le(rhs_norm, Real::epsilon()) {
            // when rhs = 0, x is set to zero.
            set_zero(x);
            return Ok((0, rhs_norm));
        }
        proof {
            // past the short-circuit, some entry of rhs is nonzero: an
            // all-zero rhs has norm exactly +0.0, which is at most epsilon
            lemma_zero_le_eps();
            if forall|i: int| 0 <= i < rhs@.len() ==> rhs@[i] == c_zero() {
                assert(rhs_norm == r_zero());
                assert(false);
            }
        }
        let threshold = r_mul(tol, rhs_norm);

        // initialize the rotation history and the update scaling
        let mut c = Scalar::one();
        let mut c_old = Scalar::one();
        let mut s = Real::zero();
        let mut s_old = Real::zero();
        let mut eta = Scalar::one();

        // v_new = rhs - A*x, normalized; res_norm tracks its norm
        copy_from(rhs, &mut self.v_new);
        let a = self.a;
        a.mul_vec(x, &mut self.v_old);
        proof {
            a.apply_len(x@);
        }
        axpy(c_neg(Scalar::one()), &self.v_old, &mut self.v_new);
        let mut res_norm = norm2(&self.v_new);
        let mut beta_new = res_norm;
        let beta_one = beta_new;
        scale(c_from_real(r_div(Real::one(), beta_new)), &mut self.v_new);

        set_zero(&mut self.v);
        set_zero(&mut self.p_old);
        set_zero(&mut self.p);

        let ghost rhs_norm_g = spec_norm2(rhs@);
        let ghost op = *old(self).a;
        let ghost st0 = minres_init(op, old(x)@, rhs@);
        let ghost mut st = st0;
        proof {
            assert(self.v_new@ == st.v_new);
            assert(self.v@ == st.v);
            assert(self.p_old@ == st.p_old);
            assert(self.p@ == st.p);
        }
        let mut its: usize = 0;
        while its < max_iter
            invariant
                self.wf(),
                self.a == old(self).a,
                self.size == old(self).size,
                n == self.size,
                rhs@.len() == n,
                x@.len() == n,
                old(x)@.len() == n,
                rhs_norm == rhs_norm_g,
                rhs_norm_g == spec_norm2(rhs@),
                !spec_le(rhs_norm_g, r_eps()),
                threshold == r_mul_of(tol, rhs_norm_g),
                exists|i: int| 0 <= i < rhs@.len() && rhs@[i] != c_zero(),
                op == *old(self).a,
                st0 == minres_init(op, old(x)@, rhs@),
                x@ == st.x,
                self.v@ == st.v,
                self.v_new@ == st.v_new,
                self.p_old@ == st.p_old,
                self.p@ == st.p,
                c == st.c,
                c_old == st.c_old,
                s == st.s,
                s_old == st.s_old,
                eta == st.eta,
                res_norm == st.res_norm,
                beta_new == st.beta_new,
                beta_one == st.beta_one,
                minres_run(op, st, rhs_norm_g, threshold, its as int, max_iter as int)
                    == minres_run(op, st0, rhs_norm_g, threshold, 0, max_iter as int),
            decreases max_iter - its,
        {
            let ghost st_pre = st;
            let beta = beta_new;
            // rotate the Lanczos windows by index, not by copying:
            // v_old <- v, v <- v_new, v_new <- v_old
            core::mem::swap(&mut self.v_old, &mut self.v);
            core::mem::swap(&mut self.v, &mut self.v_new);

            // v_new = A*v fused with alpha = conj(v).v_new, then
            // orthogonalize against the two previous Lanczos vectors
            let a = self.a;
            let alpha = a.mul_vec_dot(&self.v, &mut self.v_new);
            proof {
                a.apply_len(self.v@);
            }
            axpy(c_from_real(r_neg(beta)), &self.v_old, &mut self.v_new);
            axpy(c_neg(alpha), &self.v, &mut self.v_new);

            beta_new = norm2(&self.v_new);
            scale(c_from_real(r_div(Real::one(), beta_new)), &mut self.v_new);

            // fold the new tridiagonal column into the running QR factor
            // with the two previous Givens rotations
            let r3 = r_mul(s_old, beta);
            let tr = c_mul_real(c_old, beta);
            let r2 = c_add(c_mul_real(alpha, s), c_mul(c, tr));
            let r1_hat = c_sub(c_mul(c, alpha), c_mul_real(tr, s));
            // the new rotation comes from [r1_hat, beta_new]
            let r1 = r_sqrt(r_add(c_square(r1_hat), r_mul(beta_new, beta_new)));

            c_old = c;
            s_old = s;
            c = c_div_real(r1_hat, r1);
            s = r_div(beta_new, r1);

            // rotate the direction windows: p_oold <- p_old, p_old <- p
            core::mem::swap(&mut self.p_oold, &mut self.p_old);
            core::mem::swap(&mut self.p_old, &mut self.p);
            // p = (v - r2*p_old - r3*p_oold) / r1
            copy_from(&self.v, &mut self.p);
            axpy(c_neg(r2), &self.p_old, &mut self.p);
            axpy(c_from_real(r_neg(r3)), &self.p_oold, &mut self.p);
            scale(c_from_real(r_div(Real::one(), r1)), &mut self.p);

            // x += beta_one*c*eta*p
            axpy(c_mul_real(c_mul(c, eta), beta_one), &self.p, x);

            // the rotation sine tracks the residual norm algebraically
            res_norm = r_mul(res_norm, r_abs(s));
            proof {
                st = minres_step(op, st_pre);
                assert(self.v@ == st.v);
                assert(self.v_new@ == st.v_new);
                assert(self.p_old@ == st.p_old);
                assert(self.p@ == st.p);
                assert(x@ == st.x);
                assert(res_norm == st.res_norm);
            }
            if r_lt(res_norm, threshold) {
                proof {
                    assert(minres_run(op, st_pre, rhs_norm_g, threshold, its as int,
                        max_iter as int) == (
                        Ok::<(usize, Real), SolverError>((its, r_div_of(st.res_norm, rhs_norm_g))),
                        st.x,
                    ));
                }
                return Ok((its, r_div(res_norm, rhs_norm)));
            }
            eta = c_mul_real(eta, r_neg(s));
            its += 1;
            proof {
                assert(minres_run(op, st, rhs_norm_g, threshold, its as int, max_iter as int)
                    == minres_run(op, st_pre, rhs_norm_g, threshold, its - 1, max_iter as int));
            }
        }

        proof {
            assert(minres_run(op, st, rhs_norm_g, threshold, its as int, max_iter as int) == (
                Err::<(usize, Real), SolverError>(SolverError::InsufficientIterNum(max_iter)),
                st.x,
            ));
        }
        Err(SolverError::InsufficientIterNum(max_iter))
    }
}

} // verus!
