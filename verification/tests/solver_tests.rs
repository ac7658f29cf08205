//! End-to-end tests of the two solver engines.

use sprsolve::error::SolverError;
use sprsolve::scalar::{Real, Scalar};
use sprsolve::{BiCGStab, CsrMat, MatVecMul, MinRes};

fn cs(re: f64, im: f64) -> Scalar {
    Scalar::new(re.to_bits(), im.to_bits())
}

fn rs(x: f64) -> Scalar {
    cs(x, 0.0)
}

fn rvec(xs: &[f64]) -> Vec<Scalar> {
    xs.iter().map(|&x| rs(x)).collect()
}

fn re_of(s: Scalar) -> f64 {
    f64::from_bits(s.re.bits)
}

fn real_of(r: Real) -> f64 {
    f64::from_bits(r.bits)
}

fn rtol(x: f64) -> Real {
    Real::from_bits(x.to_bits())
}

/// The 5x5 sparse operator of the concrete scenario; applied to
/// `[1, 5, 1, 4, 1]` it yields `[-16, 23, 32, 26, 35]`.
fn scenario_matrix() -> CsrMat {
    let indptr: Vec<usize> = vec![0, 3, 5, 8, 11, 13];
    let indices: Vec<usize> = vec![0, 1, 3, 0, 1, 2, 3, 4, 0, 2, 3, 1, 4];
    let data = rvec(&[
        1.0, -1.0, -3.0, -2.0, 5.0, 4.0, 6.0, 4.0, -4.0, 2.0, 7.0, 8.0, -5.0,
    ]);
    CsrMat::new(5, 5, indptr, indices, data).unwrap()
}

fn identity_matrix(n: usize) -> CsrMat {
    let mut indptr: Vec<usize> = Vec::with_capacity(n + 1);
    let mut indices: Vec<usize> = Vec::with_capacity(n);
    for i in 0..=n {
        indptr.push(i);
    }
    for i in 0..n {
        indices.push(i);
    }
    CsrMat::new(n, n, indptr, indices, rvec(&vec![1.0; n])).unwrap()
}

/// A symmetric positive-definite tridiagonal operator (-1, 2, -1).
fn spd_matrix() -> CsrMat {
    let indptr: Vec<usize> = vec![0, 2, 5, 8, 11, 13];
    let indices: Vec<usize> = vec![0, 1, 0, 1, 2, 1, 2, 3, 2, 3, 4, 3, 4];
    let data = rvec(&[
        2.0, -1.0, -1.0, 2.0, -1.0, -1.0, 2.0, -1.0, -1.0, 2.0, -1.0, -1.0, 2.0,
    ]);
    CsrMat::new(5, 5, indptr, indices, data).unwrap()
}

fn true_residual_norm(mat: &CsrMat, x: &Vec<Scalar>, rhs: &[f64]) -> f64 {
    let mut ax = rvec(&vec![0.0; rhs.len()]);
    mat.mul_vec(x, &mut ax);
    let mut acc = 0.0;
    for i in 0..rhs.len() {
        let d = re_of(ax[i]) - rhs[i];
        acc += d * d;
    }
    acc.sqrt()
}

#[test]
fn bicgstab_zero_rhs() {
    let mat = scenario_matrix();
    let mut solver = BiCGStab::new(&mat).unwrap();
    let rhs = rvec(&[0.0; 5]);
    let mut x = rvec(&[3.0, -2.0, 7.0, 1.0, 0.5]);
    let (its, rel) = solver.solve(&rhs, &mut x, 50, rtol(1e-10)).unwrap();
    assert_eq!(its, 0);
    assert_eq!(real_of(rel), 0.0);
    for v in &x {
        assert_eq!(re_of(*v), 0.0);
        assert_eq!(f64::from_bits(v.im.bits), 0.0);
    }
}

#[test]
fn minres_zero_rhs() {
    let mat = spd_matrix();
    let mut solver = MinRes::new(&mat, 5);
    let rhs = rvec(&[0.0; 5]);
    let mut x = rvec(&[3.0, -2.0, 7.0, 1.0, 0.5]);
    let (its, rel) = solver.solve(&rhs, &mut x, 50, rtol(1e-10)).unwrap();
    assert_eq!(its, 0);
    assert_eq!(real_of(rel), 0.0);
    for v in &x {
        assert_eq!(re_of(*v), 0.0);
    }
}

#[test]
fn bicgstab_identity_converges_at_once() {
    let mat = identity_matrix(5);
    let mut solver = BiCGStab::new(&mat).unwrap();
    let rhs = rvec(&[0.3, -1.2, 4.5, 0.25, -2.0]);
    let mut x = rvec(&[0.0; 5]);
    let (its, rel) = solver.solve(&rhs, &mut x, 50, rtol(1e-12)).unwrap();
    assert!(its <= 1);
    assert!(real_of(rel) <= 1e-12);
    for (v, e) in x.iter().zip([0.3, -1.2, 4.5, 0.25, -2.0].iter()) {
        assert!((re_of(*v) - *e).abs() <= 1e-12);
    }
}

#[test]
fn minres_identity_converges_at_once() {
    let mat = identity_matrix(5);
    let mut solver = MinRes::new(&mat, 5);
    let rhs = rvec(&[0.3, -1.2, 4.5, 0.25, -2.0]);
    let mut x = rvec(&[0.0; 5]);
    let (its, rel) = solver.solve(&rhs, &mut x, 50, rtol(1e-12)).unwrap();
    assert!(its <= 1);
    assert!(real_of(rel) <= 1e-12);
    for (v, e) in x.iter().zip([0.3, -1.2, 4.5, 0.25, -2.0].iter()) {
        assert!((re_of(*v) - *e).abs() <= 1e-10);
    }
}

#[test]
fn bicgstab_sparse_scenario() {
    let mat = scenario_matrix();
    let mut solver = BiCGStab::new(&mat).unwrap();
    let rhs = rvec(&[-16.0, 23.0, 32.0, 26.0, 35.0]);
    let mut x = rvec(&[0.0; 5]);
    let (_its, rel) = solver.solve(&rhs, &mut x, 50, rtol(1e-10)).unwrap();
    assert!(real_of(rel) < 1e-10);
    let expected = [1.0, 5.0, 1.0, 4.0, 1.0];
    for (v, e) in x.iter().zip(expected.iter()) {
        assert!((re_of(*v) - *e).abs() < 1e-7);
    }
}

#[test]
fn minres_symmetric_indefinite() {
    // diag(1, -1, 2, -2, 3): symmetric and indefinite, with the
    // closed-form solution x = rhs ./ diag
    let indptr: Vec<usize> = vec![0, 1, 2, 3, 4, 5];
    let indices: Vec<usize> = vec![0, 1, 2, 3, 4];
    let data = rvec(&[1.0, -1.0, 2.0, -2.0, 3.0]);
    let mat = CsrMat::new(5, 5, indptr, indices, data).unwrap();
    let mut solver = MinRes::new(&mat, 5);
    let rhs = rvec(&[1.0, 1.0, 2.0, -4.0, 9.0]);
    let mut x = rvec(&[0.0; 5]);
    let (its, rel) = solver.solve(&rhs, &mut x, 50, rtol(1e-10)).unwrap();
    // finite termination: at most n = 5 Lanczos steps (`its` counts from 0)
    assert!(its < 5);
    assert!(real_of(rel) < 1e-10);
    let expected = [1.0, -1.0, 1.0, 2.0, 3.0];
    for (v, e) in x.iter().zip(expected.iter()) {
        assert!((re_of(*v) - *e).abs() < 1e-8);
    }
}

#[test]
fn engines_agree_on_spd() {
    let mat = spd_matrix();
    let rhs_vals = [1.0, 2.0, 3.0, 4.0, 5.0];
    let tol = 1e-10;

    let mut bicg = BiCGStab::new(&mat).unwrap();
    let rhs = rvec(&rhs_vals);
    let mut xb = rvec(&[0.0; 5]);
    bicg.solve(&rhs, &mut xb, 100, rtol(tol)).unwrap();

    let mut minres = MinRes::new(&mat, 5);
    let mut xm = rvec(&[0.0; 5]);
    minres.solve(&rhs, &mut xm, 100, rtol(tol)).unwrap();

    let mut diff2 = 0.0;
    let mut norm2 = 0.0;
    for i in 0..5 {
        let d = re_of(xb[i]) - re_of(xm[i]);
        diff2 += d * d;
        norm2 += re_of(xb[i]) * re_of(xb[i]);
    }
    assert!(diff2.sqrt() <= 2.0 * tol * norm2.sqrt().max(1.0) * 10.0);
}

#[test]
fn residual_meets_tolerance() {
    let mat = scenario_matrix();
    let rhs_vals = [0.237, -1.934, 3.123, -0.456, 0.789];
    let tol = 1e-8;
    let rhs_norm = rhs_vals.iter().map(|v| v * v).sum::<f64>().sqrt();

    let mut bicg = BiCGStab::new(&mat).unwrap();
    let rhs = rvec(&rhs_vals);
    let mut xb = rvec(&[0.0; 5]);
    let (_its, rel) = bicg.solve(&rhs, &mut xb, 100, rtol(tol)).unwrap();
    assert!(real_of(rel) <= tol);
    assert!(true_residual_norm(&mat, &xb, &rhs_vals) <= tol * rhs_norm);

    let mat2 = spd_matrix();
    let mut minres = MinRes::new(&mat2, 5);
    let mut xm = rvec(&[0.0; 5]);
    let (_its, rel) = minres.solve(&rhs, &mut xm, 100, rtol(tol)).unwrap();
    assert!(real_of(rel) <= tol);
    assert!(true_residual_norm(&mat2, &xm, &rhs_vals) <= tol * rhs_norm);
}

#[test]
fn mismatched_lengths_fail() {
    let mat = scenario_matrix();
    let mut bicg = BiCGStab::new(&mat).unwrap();

    // rhs length != operator dimension
    let rhs = rvec(&[1.0; 4]);
    let mut x = rvec(&[9.0; 5]);
    let r = bicg.solve(&rhs, &mut x, 50, rtol(1e-10));
    assert!(matches!(r, Err(SolverError::IncompatibleMatrixFormat(_))));
    for v in &x {
        assert_eq!(re_of(*v), 9.0);
    }

    // x length != rhs length
    let rhs = rvec(&[1.0; 5]);
    let mut x = rvec(&[9.0; 3]);
    let r = bicg.solve(&rhs, &mut x, 50, rtol(1e-10));
    assert!(matches!(r, Err(SolverError::IncompatibleMatrixFormat(_))));
    for v in &x {
        assert_eq!(re_of(*v), 9.0);
    }

    let mut minres = MinRes::new(&mat, 5);
    let rhs = rvec(&[1.0; 4]);
    let mut x = rvec(&[9.0; 5]);
    let r = minres.solve(&rhs, &mut x, 50, rtol(1e-10));
    assert!(matches!(r, Err(SolverError::IncompatibleMatrixFormat(_))));
    for v in &x {
        assert_eq!(re_of(*v), 9.0);
    }

    let rhs = rvec(&[1.0; 5]);
    let mut x = rvec(&[9.0; 3]);
    let r = minres.solve(&rhs, &mut x, 50, rtol(1e-10));
    assert!(matches!(r, Err(SolverError::IncompatibleMatrixFormat(_))));
    for v in &x {
        assert_eq!(re_of(*v), 9.0);
    }
}

#[test]
fn bicgstab_breaks_down_on_zero_operator() {
    // With a zero operator every matrix-vector product is exactly zero,
    // so the stabilization guard `t.t > 0` fails (the coefficient `w`
    // silently keeps its previous value, a documented policy) and the
    // shadow-residual dot product collapses to an exact zero: a true,
    // unrecoverable breakdown.
    let mat = CsrMat::new(5, 5, vec![0, 0, 0, 0, 0, 0], vec![], vec![]).unwrap();
    let mut solver = BiCGStab::new(&mat).unwrap();
    let rhs = rvec(&[1.0; 5]);
    let mut x = rvec(&[0.0; 5]);
    let r = solver.solve(&rhs, &mut x, 10, rtol(1e-10));
    assert!(matches!(r, Err(SolverError::BreakDown(_))));
}

#[test]
fn iteration_budget_exhausted() {
    let mat = scenario_matrix();
    let mut bicg = BiCGStab::new(&mat).unwrap();
    let rhs = rvec(&[-16.0, 23.0, 32.0, 26.0, 35.0]);
    let mut x = rvec(&[0.0; 5]);
    let r = bicg.solve(&rhs, &mut x, 1, rtol(1e-16));
    assert!(matches!(r, Err(SolverError::InsufficientIterNum(1))));

    let mut minres = MinRes::new(&mat, 5);
    let mut x = rvec(&[0.0; 5]);
    let r = minres.solve(&rhs, &mut x, 1, rtol(1e-16));
    assert!(matches!(r, Err(SolverError::InsufficientIterNum(1))));
}

#[test]
fn minres_zero_budget_leaves_x_untouched() {
    let mat = spd_matrix();
    let mut solver = MinRes::new(&mat, 5);
    let rhs = rvec(&[1.0, 2.0, 3.0, 4.0, 5.0]);
    let mut x = rvec(&[9.0; 5]);
    let r = solver.solve(&rhs, &mut x, 0, rtol(1e-10));
    assert!(matches!(r, Err(SolverError::InsufficientIterNum(0))));
    for v in &x {
        assert_eq!(re_of(*v), 9.0);
    }
}

#[test]
fn zero_dimension_system() {
    let mat = CsrMat::new(0, 0, vec![0], vec![], vec![]).unwrap();
    let mut solver = BiCGStab::new(&mat).unwrap();
    let rhs: Vec<Scalar> = vec![];
    let mut x: Vec<Scalar> = vec![];
    let (its, rel) = solver.solve(&rhs, &mut x, 10, rtol(1e-10)).unwrap();
    assert_eq!(its, 0);
    assert_eq!(real_of(rel), 0.0);

    let mut solver = MinRes::new(&mat, 0);
    let (its, rel) = solver.solve(&rhs, &mut x, 10, rtol(1e-10)).unwrap();
    assert_eq!(its, 0);
    assert_eq!(real_of(rel), 0.0);
}

#[test]
fn bicgstab_rejects_non_square() {
    let mat = CsrMat::new(2, 3, vec![0, 1, 2], vec![0, 2], rvec(&[1.0, 1.0])).unwrap();
    let r = BiCGStab::new(&mat);
    assert!(matches!(r, Err(SolverError::IncompatibleMatrixFormat(_))));
}
