//! Tests of the compressed-sparse-row operator.

use sprsolve::scalar::Scalar;
use sprsolve::vecalg::conj_dot;
use sprsolve::{CsrMat, MatVecMul};

fn cs(re: f64, im: f64) -> Scalar {
    Scalar::new(re.to_bits(), im.to_bits())
}

fn rs(x: f64) -> Scalar {
    cs(x, 0.0)
}

fn rvec(xs: &[f64]) -> Vec<Scalar> {
    xs.iter().map(|&x| rs(x)).collect()
}

fn re_of(s: Scalar) -> f64 {
    f64::from_bits(s.re.bits)
}

fn im_of(s: Scalar) -> f64 {
    f64::from_bits(s.im.bits)
}

#[test]
fn mkl_mat_vec() {
    let indptr: Vec<usize> = vec![0, 3, 3, 5, 6, 7];
    let indices: Vec<usize> = vec![1, 2, 3, 2, 3, 4, 4];
    let data = rvec(&[
        0.75672424, 0.1649078, 0.30140296, 0.10358244, 0.6283315, 0.39244208, 0.57202407,
    ]);

    let mat = CsrMat::new(5, 5, indptr, indices, data).unwrap();

    let vector = rvec(&[0.1, 0.2, -0.1, 0.3, 0.9]);
    let mut res_vec = rvec(&[0.0; 5]);
    mat.mul_vec(&vector, &mut res_vec);

    let expected_output = [0.22527496, 0., 0.17814121, 0.35319787, 0.51482166];

    let epsilon = 1e-8;

    assert!(res_vec
        .iter()
        .zip(expected_output.iter())
        .all(|(x, y)| (re_of(*x) - *y).abs() < epsilon));
}

#[test]
fn mkl_mat_vec_complex() {
    let indptr: Vec<usize> = vec![0, 3, 3, 5, 6, 7];
    let indices: Vec<usize> = vec![1, 2, 3, 2, 3, 4, 4];
    let data = vec![
        cs(0.75672424, 0.75672424),
        cs(0.1649078, 0.1649078),
        cs(0.30140296, 0.30140296),
        cs(0.10358244, 0.10358244),
        cs(0.6283315, 0.6283315),
        cs(0.39244208, 0.39244208),
        cs(0.57202407, 0.57202407),
    ];

    let mat = CsrMat::new(5, 5, indptr, indices, data).unwrap();

    let vector = vec![cs(0.1, 0.), cs(0.2, 0.), cs(-0.1, 0.), cs(0.3, 0.), cs(0.9, 0.)];
    let mut res_vec: Vec<Scalar> = rvec(&[0.0; 5]);
    mat.mul_vec(&vector, &mut res_vec);

    let expected_output = [0.22527496, 0., 0.17814121, 0.35319787, 0.51482166];

    let epsilon = 1e-8;

    assert!(res_vec
        .iter()
        .zip(expected_output.iter())
        .all(|(x, y)| (re_of(*x) - *y).abs() < epsilon && (im_of(*x) - *y).abs() < epsilon));
}

#[test]
fn mkl_mat_vec_2() {
    let indptr: Vec<usize> = vec![0, 3, 5, 8, 11, 13];
    let indices: Vec<usize> = vec![0, 1, 3, 0, 1, 2, 3, 4, 0, 2, 3, 1, 4];
    let data = rvec(&[
        1.0, -1.0, -3.0, -2.0, 5.0, 4.0, 6.0, 4.0, -4.0, 2.0, 7.0, 8.0, -5.0,
    ]);

    let mat = CsrMat::new(5, 5, indptr, indices, data).unwrap();

    let vector = rvec(&[1.0, 5.0, 1.0, 4.0, 1.0]);
    let mut res_vec = rvec(&[0.0; 5]);
    mat.mul_vec(&vector, &mut res_vec);

    let expected = [-16.0, 23.0, 32.0, 26.0, 35.0];
    let epsilon = 1e-16;

    assert!(res_vec
        .iter()
        .zip(expected.iter())
        .all(|(x, y)| (re_of(*x) - *y).abs() < epsilon));
}

#[test]
fn mkl_mat_vec_dot_complex() {
    let indptr: Vec<usize> = vec![0, 3, 3, 5, 6, 7];
    let indices: Vec<usize> = vec![1, 2, 3, 2, 3, 4, 4];
    let data = vec![
        cs(0.75672424, 0.75672424),
        cs(0.1649078, 0.1649078),
        cs(0.30140296, 0.30140296),
        cs(0.10358244, 0.10358244),
        cs(0.6283315, 0.6283315),
        cs(0.39244208, 0.39244208),
        cs(0.57202407, 0.57202407),
    ];

    let mat = CsrMat::new(5, 5, indptr, indices, data).unwrap();

    let vector = vec![cs(0.1, 0.), cs(0.2, 0.), cs(-0.1, 0.), cs(0.3, 0.), cs(0.9, 0.)];
    let mut res_vec: Vec<Scalar> = rvec(&[0.0; 5]);
    let ret = mat.mul_vec_dot(&vector, &mut res_vec);
    let exp = conj_dot(&vector, &res_vec);

    assert!((re_of(exp) - re_of(ret)).abs() <= f64::EPSILON);
    assert!((im_of(exp) - im_of(ret)).abs() <= f64::EPSILON);
}

#[test]
fn checked_mul_vec_validates_lengths() {
    let indptr: Vec<usize> = vec![0, 1, 2];
    let indices: Vec<usize> = vec![0, 1];
    let mat = CsrMat::new(2, 2, indptr, indices, rvec(&[3.0, 4.0])).unwrap();

    let v = rvec(&[1.0, 2.0]);
    let mut out = rvec(&[0.0, 0.0]);
    assert!(mat.mul_vec_checked(&v, &mut out).is_ok());
    assert_eq!(re_of(out[0]), 3.0);
    assert_eq!(re_of(out[1]), 8.0);

    let short = rvec(&[1.0]);
    let mut untouched = rvec(&[7.0, 7.0]);
    let r = mat.mul_vec_checked(&short, &mut untouched);
    assert!(matches!(
        r,
        Err(sprsolve::error::SolverError::IncompatibleMatrixFormat(_))
    ));
    assert_eq!(re_of(untouched[0]), 7.0);
    assert_eq!(re_of(untouched[1]), 7.0);

    // the fused product-and-dot: same validation, and the returned dot
    // matches a separate conjugated dot product
    let dot = mat.mul_vec_dot_checked(&v, &mut out).unwrap();
    assert_eq!(re_of(dot), 1.0 * 3.0 + 2.0 * 8.0);
    let r = mat.mul_vec_dot_checked(&short, &mut untouched);
    assert!(matches!(
        r,
        Err(sprsolve::error::SolverError::IncompatibleMatrixFormat(_))
    ));
    assert_eq!(re_of(untouched[0]), 7.0);
}

#[test]
fn csr_rejects_bad_structure() {
    // row pointer array of the wrong length
    let r = CsrMat::new(3, 3, vec![0, 1, 2], vec![0, 1], rvec(&[1.0, 1.0]));
    assert!(matches!(
        r,
        Err(sprsolve::error::SolverError::IncompatibleMatrixFormat(_))
    ));

    // column index out of range
    let r = CsrMat::new(2, 2, vec![0, 1, 2], vec![0, 2], rvec(&[1.0, 1.0]));
    assert!(matches!(
        r,
        Err(sprsolve::error::SolverError::IncompatibleMatrixFormat(_))
    ));

    // unsorted column indices within a row
    let r = CsrMat::new(2, 2, vec![0, 2, 2], vec![1, 0], rvec(&[1.0, 1.0]));
    assert!(matches!(
        r,
        Err(sprsolve::error::SolverError::IncompatibleMatrixFormat(_))
    ));

    // a nonincreasing row pointer array
    let r = CsrMat::new(2, 2, vec![0, 2, 1], vec![0, 1], rvec(&[1.0, 1.0]));
    assert!(matches!(
        r,
        Err(sprsolve::error::SolverError::IncompatibleMatrixFormat(_))
    ));

    // the valid 2x2 identity passes
    let r = CsrMat::new(2, 2, vec![0, 1, 2], vec![0, 1], rvec(&[1.0, 1.0]));
    assert!(r.is_ok());
}
