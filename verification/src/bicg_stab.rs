//! The BiCGSTAB solver engine: the stabilized biconjugate-gradient method
//! for general (non-symmetric) square sparse systems.

use vstd::prelude::*;

use crate::csr::CsrMat;
use crate::error::{SolveResult, SolverError};
use crate::mat::MatVecMul;
use crate::scalar::{
    c_abs, c_div, c_div_of, c_from_real, c_mul, c_mul_of, c_neg, c_zero, c_one, r_div, r_div_of,
    r_eps, r_le, r_lt, r_mul, r_mul_of, r_zero, spec_c_neg, spec_from_real, spec_le, spec_lt,
    Real, Scalar,
};
use crate::vecalg::{
    axpy, conj_dot, copy_from, norm2, scale, set_zero, spec_axpy, spec_conj_dot, spec_norm2,
    spec_scale, zeros,
};

verus! {

broadcast use vstd::string::to_string_from_display_ensures_for_str;

/// The residual `A·x0 - rhs` exactly as the engine computes it at entry:
/// the product `A·x0` followed by an axpy with coefficient `-1` and `rhs`.
pub open spec fn bicg_entry_residual(m: CsrMat, x0: Seq<Scalar>, rhs: Seq<Scalar>) -> Seq<Scalar> {
    spec_axpy(spec_c_neg(c_one()), rhs, m.spec_apply(x0))
}

/// The transient state of the BiCGSTAB recurrence between iterations: the
/// iterate, the residual and shadow residual, the search direction and its
/// product, and the three recurrence coefficients. (The two remaining
/// scratch windows are fully overwritten each pass before they are read.)
pub struct BiCGState {
    pub x: Seq<Scalar>,
    pub r: Seq<Scalar>,
    pub r0: Seq<Scalar>,
    pub y: Seq<Scalar>,
    pub v: Seq<Scalar>,
    pub w: Scalar,
    pub rho: Scalar,
    pub alpha: Scalar,
}

/// The state after the engine's unrolled first half-step, exactly as it
/// computes it: `rho = ‖r0‖²`, one direction and stabilization update,
/// and the first correction of `x` and `r`, over the rounded operations.
pub open spec fn bicg_unrolled(op: CsrMat, x0: Seq<Scalar>, rhs: Seq<Scalar>) -> BiCGState {
    let r = bicg_entry_residual(op, x0, rhs);
    let r0_norm = spec_norm2(r);
    let rho = spec_from_real(r_mul_of(r0_norm, r0_norm));
    let v = op.spec_apply(r);
    let alpha = c_div_of(rho, spec_conj_dot(r, v));
    let s = spec_axpy(spec_c_neg(alpha), v, r);
    let t = op.spec_apply(s);
    let tt = spec_conj_dot(t, t);
    let w = if spec_lt(r_zero(), tt.re) {
        c_div_of(spec_conj_dot(t, s), tt)
    } else {
        c_one()
    };
    BiCGState {
        x: spec_axpy(spec_c_neg(w), s, spec_axpy(spec_c_neg(alpha), r, x0)),
        r: spec_axpy(spec_c_neg(w), t, s),
        r0: r,
        y: r,
        v: v,
        w: w,
        rho: rho,
        alpha: alpha,
    }
}

/// The engine's main loop from a given state and iteration index: the
/// result it returns and the final contents of `x`.
///
/// Two branch tests per pass rest on the complex magnitude, which the
/// scalar layer leaves unstated (it goes through the platform's `hypot`):
/// whether the shadow-residual product had collapsed, triggering the
/// silent restart, and whether the direction denominator was flagged as an
/// unrecoverable breakdown. The run is therefore parameterized over those
/// two decision streams, consumed one entry per pass; everything else —
/// the convergence test, both restart outcomes, the recurrence itself —
/// is pinned down exactly.
pub open spec fn bicg_run(
    op: CsrMat,
    st: BiCGState,
    rhs: Seq<Scalar>,
    rhs_norm: Real,
    tol2: Real,
    restarts: Seq<bool>,
    breakdowns: Seq<bool>,
    its: int,
    max_iter: int,
) -> (SolveResult<(usize, Real)>, Seq<Scalar>)
    decreases max_iter - its,
{
    if its >= max_iter {
        (Err(SolverError::InsufficientIterNum(max_iter as usize)), st.x)
    } else {
        let r_norm = spec_norm2(st.r);
        if spec_le(r_norm, tol2) {
            (Ok((its as usize, r_div_of(r_norm, rhs_norm))), st.x)
        } else {
            let rho_old = st.rho;
            let r_b = if restarts[0] {
                spec_axpy(spec_c_neg(c_one()), rhs, op.spec_apply(st.x))
            } else {
                st.r
            };
            let r0_b = if restarts[0] {
                r_b
            } else {
                st.r0
            };
            let rho_b = if restarts[0] {
                spec_conj_dot(r_b, r_b)
            } else {
                spec_conj_dot(st.r0, st.r)
            };
            let beta = c_mul_of(c_div_of(rho_b, rho_old), c_div_of(st.alpha, st.w));
            let y_b = spec_axpy(
                c_one(),
                r_b,
                spec_scale(beta, spec_axpy(spec_c_neg(st.w), st.v, st.y)),
            );
            let v_b = op.spec_apply(y_b);
            if breakdowns[0] {
                (Err(SolverError::BreakDown(its as usize)), st.x)
            } else {
                let alpha_b = c_div_of(rho_b, spec_conj_dot(r0_b, v_b));
                let s = spec_axpy(spec_c_neg(alpha_b), v_b, r_b);
                let t = op.spec_apply(s);
                let tt = spec_conj_dot(t, t);
                let w_b = if spec_lt(r_zero(), tt.re) {
                    c_div_of(spec_conj_dot(t, s), tt)
                } else {
                    st.w
                };
                bicg_run(
                    op,
                    BiCGState {
                        x: spec_axpy(spec_c_neg(w_b), s, spec_axpy(spec_c_neg(alpha_b), y_b, st.x)),
                        r: spec_axpy(spec_c_neg(w_b), t, s),
                        r0: r0_b,
                        y: y_b,
                        v: v_b,
                        w: w_b,
                        rho: rho_b,
                        alpha: alpha_b,
                    },
                    rhs,
                    rhs_norm,
                    tol2,
                    restarts.drop_first(),
                    breakdowns.drop_first(),
                    its + 1,
                    max_iter,
                )
            }
        }
    }
}

/// The BiCGSTAB solver bound to a compressed-sparse-row operator.
pub struct BiCGStab<'data> {
    solver: BiCGStab_Backup<'data>,
}

impl<'data> BiCGStab<'data> {
    /// The operator the solver was bound to.
    pub closed spec fn opm(&self) -> CsrMat {
        self.solver.opm()
    }

    /// The solver is usable: its operator is valid and square and its
    /// scratch windows have the operator's dimension.
    pub closed spec fn wf(&self) -> bool {
        self.solver.wf()
    }

    /// Binds a solver to a square operator; a non-square operator is
    /// rejected before any allocation.
    pub fn new(a: &'data CsrMat) -> (res: SolveResult<BiCGStab<'data>>)
        requires
            a.structure_wf(),
        ensures
            res is Ok <==> a.spec_rows() == a.spec_cols(),
            res matches Ok(s) ==> s.wf() && s.opm() == *a,
            res matches Err(e) ==> e matches SolverError::IncompatibleMatrixFormat(m)
                && m@ == "Not a square matrix"@,
    {
        match BiCGStab_Backup::new(a) {
            Ok(solver) => Ok(BiCGStab { solver }),
            Err(e) => Err(e),
        }
    }

    /// Solves `A·x = rhs`; see [`BiCGStab_Backup::solve`] for the contract.
    pub fn solve(
        &mut self,
        rhs: &Vec<Scalar>,
        x: &mut Vec<Scalar>,
        max_iter: usize,
        tol: Real,
    ) -> (res: SolveResult<(usize, Real)>)
        requires
            old(self).wf(),
        ensures
            final(self).wf(),
            final(self).opm() == old(self).opm(),
            final(x)@.len() == old(x)@.len(),
            !(rhs@.len() == old(self).opm().spec_rows() && old(x)@.len() == rhs@.len())
                ==> *final(self) == *old(self),
            solve_contract(
                old(self).opm(),
                rhs@,
                old(x)@,
                final(x)@,
                max_iter,
                tol,
                res,
            ),
    {
        self.solver.solve(rhs, x, max_iter, tol)
    }
}

/// The fallback implementation of the BiCGSTAB algorithm, written for
/// correctness rather than speed.
#[allow(non_camel_case_types)]
pub struct BiCGStab_Backup<'data> {
    a: &'data CsrMat,
    r: Vec<Scalar>,
    r0: Vec<Scalar>,
    s_z: Vec<Scalar>,
    y: Vec<Scalar>,
    v: Vec<Scalar>,
    t: Vec<Scalar>,
}

/// What a finished `solve` call promises, over the operator, the
/// right-hand side, the initial and final contents of `x`, the iteration
/// budget and the tolerance.
///
/// - A dimension mismatch is reported, exactly and only then, as
///   `IncompatibleMatrixFormat`, with `x` untouched.
/// - A right-hand side of norm at most machine epsilon short-circuits to
///   `Ok((0, ‖rhs‖))` with `x` zeroed; an all-zero right-hand side thus
///   returns `Ok((0, +0.0))` exactly.
/// - When the entry residual `A·x0 - rhs` already meets `tol·‖rhs‖`, the
///   call returns `Ok((0, ‖r0‖/‖rhs‖))` with `x` untouched.
/// - Otherwise the iteration runs, and the result together with the final
///   contents of `x` is exactly what [`bicg_run`] yields from the unrolled
///   first half-step, for some pair of decision streams at the two
///   magnitude-guarded branches (restart and breakdown, see `bicg_run`):
///   whatever those tests decide, the recurrence is followed, so a success
///   `Ok((its, rel))` has `1 <= its < max_iter` and reports a residual
///   norm that passed the tolerance test, divided by `‖rhs‖`;
///   `BreakDown(k)` can only arise mid-iteration with `1 <= k < max_iter`,
///   leaving the iterate reached so far in `x`; an exhausted budget is
///   reported as `InsufficientIterNum(max_iter)` with the last iterate in
///   `x`, and can only happen when no pass within the budget met the
///   tolerance under those decisions.
/// - The first pass's convergence test precedes both guarded branches, so
///   its success is promised outright: when the unrolled half-step's
///   residual already meets `tol·‖rhs‖` (and the budget allows a pass),
///   the call returns `Ok((1, ‖r‖/‖rhs‖))` with that half-step's iterate.
pub open spec fn solve_contract(
    op: CsrMat,
    rhs: Seq<Scalar>,
    x0: Seq<Scalar>,
    x1: Seq<Scalar>,
    max_iter: usize,
    tol: Real,
    res: SolveResult<(usize, Real)>,
) -> bool {
    let n = op.spec_rows();
    let dims_ok = rhs.len() == n && x0.len() == n;
    let rhs_norm = spec_norm2(rhs);
    let trivial = spec_le(rhs_norm, r_eps());
    let r0 = bicg_entry_residual(op, x0, rhs);
    let tol2 = r_mul_of(tol, rhs_norm);
    let early = spec_le(spec_norm2(r0), tol2);
    &&& (res matches Err(e) && e is IncompatibleMatrixFormat) <==> !dims_ok
    &&& !dims_ok ==> x1 == x0
    &&& rhs.len() != n ==> (res matches Err(SolverError::IncompatibleMatrixFormat(m))
        && m@ == "Input vec dimension doesn't match the matrix size"@)
    &&& rhs.len() == n && x0.len() != n ==> (res matches Err(
        SolverError::IncompatibleMatrixFormat(m),
    ) && m@ == "Input and output vec dimension do not match"@)
    &&& dims_ok && trivial ==> (res matches Ok(p) && p.0 == 0 && p.1 == rhs_norm && forall|
        i: int,
    |
        0 <= i < x1.len() ==> x1[i] == c_zero())
    &&& dims_ok && (forall|i: int| 0 <= i < rhs.len() ==> rhs[i] == c_zero()) ==> (
    res matches Ok(p) && p.0 == 0 && p.1 == r_zero() && forall|i: int|
        0 <= i < x1.len() ==> x1[i] == c_zero())
    &&& dims_ok && !trivial && early ==> (res matches Ok(p) && p.0 == 0 && p.1 == r_div_of(
        spec_norm2(r0),
        rhs_norm,
    ) && x1 == x0)
    &&& dims_ok && !trivial && !early ==> {
        &&& res matches Ok(p) ==> 1 <= p.0 < max_iter && (exists|rn: Real|
            p.1 == r_div_of(rn, rhs_norm) && #[trigger] spec_le(rn, tol2))
        &&& res matches Err(SolverError::BreakDown(k)) ==> 1 <= k < max_iter
        &&& res matches Err(SolverError::InsufficientIterNum(m)) ==> m == max_iter
        &&& exists|restarts: Seq<bool>, breakdowns: Seq<bool>|
            {
                let out = #[trigger] bicg_run(
                    op,
                    bicg_unrolled(op, x0, rhs),
                    rhs,
                    rhs_norm,
                    tol2,
                    restarts,
                    breakdowns,
                    1,
                    max_iter as int,
                );
                res == out.0 && x1 == out.1
            }
        &&& max_iter > 1 && spec_le(spec_norm2(bicg_unrolled(op, x0, rhs).r), tol2) ==> (
        res matches Ok(p) && p.0 == 1 && p.1 == r_div_of(
            spec_norm2(bicg_unrolled(op, x0, rhs).r),
            rhs_norm,
        ) && x1 == bicg_unrolled(op, x0, rhs).x)
    }
    &&& res matches Err(SolverError::BreakDown(k)) ==> dims_ok && !trivial && !early
    &&& res matches Err(SolverError::InsufficientIterNum(m)) ==> dims_ok && !trivial && !early
}

impl<'data> BiCGStab_Backup<'data> {
    /// The operator the solver was bound to.
    pub closed spec fn opm(&self) -> CsrMat {
        *self.a
    }

    /// The solver is usable: the operator is valid and square, and all six
    /// scratch windows have the operator's dimension.
    pub closed spec fn wf(&self) -> bool {
        &&& self.a.structure_wf()
        &&& self.a.spec_rows() == self.a.spec_cols()
        &&& self.r@.len() == self.a.spec_rows()
        &&& self.r0@.len() == self.a.spec_rows()
        &&& self.s_z@.len() == self.a.spec_rows()
        &&& self.y@.len() == self.a.spec_rows()
        &&& self.v@.len() == self.a.spec_rows()
        &&& self.t@.len() == self.a.spec_rows()
    }

    /// Binds a solver to a square operator, allocating the six scratch
    /// windows it reuses across `solve` calls.
    pub fn new(a: &'data CsrMat) -> (res: SolveResult<BiCGStab_Backup<'data>>)
        requires
            a.structure_wf(),
        ensures
            res is Ok <==> a.spec_rows() == a.spec_cols(),
            res matches Ok(s) ==> s.wf() && s.opm() == *a,
            res matches Err(e) ==> e matches SolverError::IncompatibleMatrixFormat(m)
                && m@ == "Not a square matrix"@,
    {
        if a.rows() != a.cols() {
            return Err(
                SolverError::IncompatibleMatrixFormat("Not a square matrix".to_string()),
            );
        }
        let n = a.rows();
        Ok(
            BiCGStab_Backup {
                a,
                r: zeros(n),
                r0: zeros(n),
                s_z: zeros(n),
                y: zeros(n),
                v: zeros(n),
                t: zeros(n),
            },
        )
    }

    /// Solves `A·x = rhs` without a preconditioner, using `x` as the
    /// initial guess; the promise is [`solve_contract`].
    #[verifier::rlimit(100)]
    pub fn solve(
        &mut self,
        rhs: &Vec<Scalar>,
        x: &mut Vec<Scalar>,
        max_iter: usize,
        tol: Real,
    ) -> (res: SolveResult<(usize, Real)>)
        requires
            old(self).wf(),
        ensures
            final(self).wf(),
            final(self).opm() == old(self).opm(),
            final(x)@.len() == old(x)@.len(),
            !(rhs@.len() == old(self).opm().spec_rows() && old(x)@.len() == rhs@.len())
                ==> *final(self) == *old(self),
            solve_contract(
                old(self).opm(),
                rhs@,
                old(x)@,
                final(x)@,
                max_iter,
                tol,
                res,
            ),
    {
        let ghost op = *self.a;
        let n = rhs.len();
        if n != self.a.rows() {
            return Err(
                SolverError::IncompatibleMatrixFormat(
                    "Input vec dimension doesn't match the matrix size".to_string(),
                ),
            );
        }
        if n != x.len() {
            return Err(
                SolverError::IncompatibleMatrixFormat(
                    "Input and output vec dimension do not match".to_string(),
                ),
            );
        }

        let rhs_norm = norm2(rhs);
        if r_le(rhs_norm, Real::epsilon()) {
            set_zero(x);
            return Ok((0, rhs_norm));
        }
        proof {
            // past the short-circuit, some entry of rhs is nonzero: an
            // all-zero rhs has norm exactly +0.0, which is at most epsilon
            crate::scalar::lemma_zero_le_eps();
            if forall|i: int| 0 <= i < rhs@.len() ==> rhs@[i] == c_zero() {
                assert(rhs_norm == r_zero());
                assert(false);
            }
        }
        let tol2 = r_mul(tol, rhs_norm);

        // r = A*x - rhs
        let a = self.a;
        a.mul_vec(x, &mut self.r);
        axpy(c_neg(Scalar::one()), rhs, &mut self.r);
        // r0 = r
        copy_from(&self.r, &mut self.r0);
        let r0_norm = norm2(&self.r0);
        if r_le(r0_norm, tol2) {
            return Ok((0, r_div(r0_norm, rhs_norm)));
        }
        let mut r0_norm_tol = r_mul(r0_norm, Real::epsilon());
        r0_norm_tol = r_mul(r0_norm_tol, r0_norm_tol);

        let mut w = Scalar::one();
        // unroll the first iteration to initialize variables
        let mut rho = c_from_real(r_mul(r0_norm, r0_norm));
        // y = r, v = A*y
        copy_from(&self.r, &mut self.y);
        a.mul_vec(&self.y, &mut self.v);
        // alpha = rho / r0.v
        let mut alpha = c_div(rho, conj_dot(&self.r0, &self.v));
        // z = s = r - alpha * v
        copy_from(&self.r, &mut self.s_z);
        axpy(c_neg(alpha), &self.v, &mut self.s_z);
        // t = A * z
        a.mul_vec(&self.s_z, &mut self.t);
        let tmp = conj_dot(&self.t, &self.t);
        if r_lt(Real::zero(), tmp.real_part()) {
            // w = t.s/tmp
            w = c_div(conj_dot(&self.t, &self.s_z), tmp);
        }
        // x = x - alpha*y - w*z
        axpy(c_neg(alpha), &self.y, x);
        axpy(c_neg(w), &self.s_z, x);
        // r = s - w * t
        copy_from(&self.s_z, &mut self.r);
        axpy(c_neg(w), &self.t, &mut self.r);

        let ghost rhs_norm_g = spec_norm2(rhs@);
        let ghost tol2_g = r_mul_of(tol, rhs_norm_g);
        let ghost st0u = bicg_unrolled(op, old(x)@, rhs@);
        let ghost mut st = st0u;
        let ghost mut taken_r: Seq<bool> = Seq::empty();
        let ghost mut taken_b: Seq<bool> = Seq::empty();
        proof {
            assert(x@ == st.x);
            assert(self.r@ == st.r);
            assert(self.r0@ == st.r0);
            assert(self.y@ == st.y);
            assert(self.v@ == st.v);
            assert forall|rs: Seq<bool>, bs: Seq<bool>|
                #[trigger] bicg_run(op, st, rhs@, rhs_norm_g, tol2_g, rs, bs, 1, max_iter as int)
                    == bicg_run(
                    op,
                    st0u,
                    rhs@,
                    rhs_norm_g,
                    tol2_g,
                    taken_r + rs,
                    taken_b + bs,
                    1,
                    max_iter as int,
                ) by {
                assert(taken_r + rs =~= rs);
                assert(taken_b + bs =~= bs);
            }
        }

        let mut its: usize = 1;
        while its < max_iter
            invariant
                1 <= its,
                self.wf(),
                *self.a == op,
                op == old(self).opm(),
                n == op.spec_rows(),
                rhs@.len() == n,
                x@.len() == n,
                old(x)@.len() == n,
                rhs_norm == rhs_norm_g,
                tol2 == tol2_g,
                rhs_norm_g == spec_norm2(rhs@),
                tol2_g == r_mul_of(tol, rhs_norm_g),
                !spec_le(rhs_norm_g, r_eps()),
                !spec_le(spec_norm2(bicg_entry_residual(op, old(x)@, rhs@)), tol2_g),
                exists|i: int| 0 <= i < rhs@.len() && rhs@[i] != c_zero(),
                st0u == bicg_unrolled(op, old(x)@, rhs@),
                its as int == 1 ==> st == st0u,
                its as int > 1 ==> !spec_le(spec_norm2(st0u.r), tol2_g),
                x@ == st.x,
                self.r@ == st.r,
                self.r0@ == st.r0,
                self.y@ == st.y,
                self.v@ == st.v,
                w == st.w,
                rho == st.rho,
                alpha == st.alpha,
                forall|rs: Seq<bool>, bs: Seq<bool>|
                    #[trigger] bicg_run(
                        op,
                        st,
                        rhs@,
                        rhs_norm_g,
                        tol2_g,
                        rs,
                        bs,
                        its as int,
                        max_iter as int,
                    ) == bicg_run(
                        op,
                        st0u,
                        rhs@,
                        rhs_norm_g,
                        tol2_g,
                        taken_r + rs,
                        taken_b + bs,
                        1,
                        max_iter as int,
                    ),
            decreases max_iter - its,
        {
            let ghost st_pre = st;
            let r_norm = norm2(&self.r);
            if r_le(r_norm, tol2) {
                proof {
                    let rs0 = Seq::<bool>::empty();
                    let bs0 = Seq::<bool>::empty();
                    assert(bicg_run(op, st, rhs@, rhs_norm_g, tol2_g, rs0, bs0, its as int,
                        max_iter as int) == bicg_run(op, st0u, rhs@, rhs_norm_g, tol2_g,
                        taken_r + rs0, taken_b + bs0, 1, max_iter as int));
                    assert(taken_r + rs0 =~= taken_r);
                    assert(taken_b + bs0 =~= taken_b);
                    assert(bicg_run(op, bicg_unrolled(op, old(x)@, rhs@), rhs@, spec_norm2(rhs@),
                        r_mul_of(tol, spec_norm2(rhs@)), taken_r, taken_b, 1, max_iter as int) == (
                        Ok::<(usize, Real), SolverError>((its, r_div_of(r_norm, rhs_norm_g))),
                        st.x,
                    ));
                }
                return Ok((its, r_div(r_norm, rhs_norm)));
            }
            let rho_old = rho;
            rho = conj_dot(&self.r0, &self.r);

            let restarted = r_lt(c_abs(rho), r0_norm_tol);
            if restarted {
                // restart the shadow residual from the exact residual
                let a = self.a;
                a.mul_vec(x, &mut self.r);
                axpy(c_neg(Scalar::one()), rhs, &mut self.r);
                copy_from(&self.r, &mut self.r0);
                rho = conj_dot(&self.r, &self.r);
                r0_norm_tol = r_mul(r_mul(rho.real_part(), Real::epsilon()), Real::epsilon());
            }
            let beta = c_mul(c_div(rho, rho_old), c_div(alpha, w));
            // y = r + beta * (y - w*v)
            axpy(c_neg(w), &self.v, &mut self.y);
            scale(beta, &mut self.y);
            axpy(Scalar::one(), &self.r, &mut self.y);
            // v = A*y
            let a = self.a;
            a.mul_vec(&self.y, &mut self.v);
            // alpha = rho / r0.v
            let tmp = conj_dot(&self.r0, &self.v);
            let broke = r_le(c_abs(tmp), Real::zero());
            if broke {
                proof {
                    let rs1 = seq![restarted];
                    let bs1 = seq![true];
                    assert(bicg_run(op, st, rhs@, rhs_norm_g, tol2_g, rs1, bs1, its as int,
                        max_iter as int) == (
                        Err::<(usize, Real), SolverError>(SolverError::BreakDown(its)),
                        st.x,
                    ));
                    assert(bicg_run(op, st, rhs@, rhs_norm_g, tol2_g, rs1, bs1, its as int,
                        max_iter as int) == bicg_run(op, st0u, rhs@, rhs_norm_g, tol2_g,
                        taken_r + rs1, taken_b + bs1, 1, max_iter as int));
                    assert(bicg_run(op, bicg_unrolled(op, old(x)@, rhs@), rhs@, spec_norm2(rhs@),
                        r_mul_of(tol, spec_norm2(rhs@)), taken_r + rs1, taken_b + bs1, 1,
                        max_iter as int) == (
                        Err::<(usize, Real), SolverError>(SolverError::BreakDown(its)),
                        st.x,
                    ));
                }
                return Err(SolverError::BreakDown(its));
            }
            alpha = c_div(rho, tmp);
            // z = s = r - alpha * v
            copy_from(&self.r, &mut self.s_z);
            axpy(c_neg(alpha), &self.v, &mut self.s_z);
            // t = A * z
            a.mul_vec(&self.s_z, &mut self.t);
            let tmp = conj_dot(&self.t, &self.t);
            if r_lt(Real::zero(), tmp.real_part()) {
                // w = t.s/tmp
                w = c_div(conj_dot(&self.t, &self.s_z), tmp);
            }
            // x = x - alpha*y - w*z
            axpy(c_neg(alpha), &self.y, x);
            axpy(c_neg(w), &self.s_z, x);
            // r = s - w * t
            copy_from(&self.s_z, &mut self.r);
            axpy(c_neg(w), &self.t, &mut self.r);
            proof {
                let st_next = BiCGState {
                    x: x@,
                    r: self.r@,
                    r0: self.r0@,
                    y: self.y@,
                    v: self.v@,
                    w: w,
                    rho: rho,
                    alpha: alpha,
                };
                assert forall|rs: Seq<bool>, bs: Seq<bool>|
                    #[trigger] bicg_run(op, st_next, rhs@, rhs_norm_g, tol2_g, rs, bs,
                        its as int + 1, max_iter as int) == bicg_run(
                        op,
                        st0u,
                        rhs@,
                        rhs_norm_g,
                        tol2_g,
                        taken_r.push(restarted) + rs,
                        taken_b.push(false) + bs,
                        1,
                        max_iter as int,
                    ) by {
                    let rs1 = seq![restarted] + rs;
                    let bs1 = seq![false] + bs;
                    assert(rs1[0] == restarted);
                    assert(bs1[0] == false);
                    assert(rs1.drop_first() =~= rs);
                    assert(bs1.drop_first() =~= bs);
                    assert(bicg_run(op, st, rhs@, rhs_norm_g, tol2_g, rs1, bs1, its as int,
                        max_iter as int) == bicg_run(op, st_next, rhs@, rhs_norm_g, tol2_g, rs,
                        bs, its as int + 1, max_iter as int));
                    assert(bicg_run(op, st, rhs@, rhs_norm_g, tol2_g, rs1, bs1, its as int,
                        max_iter as int) == bicg_run(op, st0u, rhs@, rhs_norm_g, tol2_g,
                        taken_r + rs1, taken_b + bs1, 1, max_iter as int));
                    assert(taken_r + rs1 =~= taken_r.push(restarted) + rs);
                    assert(taken_b + bs1 =~= taken_b.push(false) + bs);
                }
                st = st_next;
                taken_r = taken_r.push(restarted);
                taken_b = taken_b.push(false);
            }
            its += 1;
        }

        proof {
            let rs0 = Seq::<bool>::empty();
            let bs0 = Seq::<bool>::empty();
            assert(bicg_run(op, st, rhs@, rhs_norm_g, tol2_g, rs0, bs0, its as int,
                max_iter as int) == bicg_run(op, st0u, rhs@, rhs_norm_g, tol2_g, taken_r + rs0,
                taken_b + bs0, 1, max_iter as int));
            assert(taken_r + rs0 =~= taken_r);
            assert(taken_b + bs0 =~= taken_b);
            assert(bicg_run(op, bicg_unrolled(op, old(x)@, rhs@), rhs@, spec_norm2(rhs@),
                r_mul_of(tol, spec_norm2(rhs@)), taken_r, taken_b, 1, max_iter as int) == (
                Err::<(usize, Real), SolverError>(SolverError::InsufficientIterNum(max_iter)),
                st.x,
            ));
        }
        Err(SolverError::InsufficientIterNum(max_iter))
    }
}

} // verus!
