//! The vector-algebra tests, run against the verified implementations.

use sprsolve::scalar::{Real, Scalar};
use sprsolve::vecalg::{axpby, axpy, conj, conj_dot, dot, norm2, rscale, scale};

fn cs(re: f64, im: f64) -> Scalar {
    Scalar::new(re.to_bits(), im.to_bits())
}

fn rs(x: f64) -> Scalar {
    cs(x, 0.0)
}

fn rvec(xs: &[f64]) -> Vec<Scalar> {
    xs.iter().map(|&x| rs(x)).collect()
}

fn re_of(s: Scalar) -> f64 {
    f64::from_bits(s.re.bits)
}

fn im_of(s: Scalar) -> f64 {
    f64::from_bits(s.im.bits)
}

fn real_of(r: Real) -> f64 {
    f64::from_bits(r.bits)
}

fn close(a: f64, b: f64) -> bool {
    (a - b).abs() <= f64::EPSILON
}

#[test]
fn test_norm2() {
    let a = rvec(&[1.0; 25]);
    let b = norm2(&a);
    assert!(close(5.0, real_of(b)));

    let a = rvec(&[1.0; 100]);
    let b = norm2(&a);
    assert!(close(10.0, real_of(b)));

    let a = vec![cs(1., 1.); 50];
    let b = norm2(&a);
    assert!(close(10.0, real_of(b)));
}

#[test]
fn test_dot_generic() {
    let a = rvec(&[1., 1., 1., 1., 1., 1.]);
    let b = rvec(&[1., 2., 3., 4., 5., 6.]);
    let r = dot(&a, &b);
    assert!(close(21., re_of(r)));

    let a = rvec(&[1.0; 6]);
    let b = rvec(&[1., 2., 3., 4., 5., 6.]);
    let r = dot(&a, &b);
    assert!(close(21., re_of(r)));
}

#[test]
fn test_conj_dot() {
    let a = rvec(&[1.0; 100]);
    let b = rvec(&[2.0; 100]);
    let r = conj_dot(&a, &b);
    assert!(close(200., re_of(r)));

    let a = rvec(&[2.0; 100]);
    let b = rvec(&[3.0; 100]);
    let r = conj_dot(&a, &b);
    assert!(close(600., re_of(r)));

    let a = vec![cs(2., 3.); 100];
    let b = vec![cs(2., -3.); 100];
    let r = conj_dot(&a, &b);
    // t = conj(a[0]) * b[0] * 100, with conj(a[0]) = 2 - 3i
    let t_re = (2. * 2. - (-3.) * (-3.)) * 100.;
    let t_im = (2. * (-3.) + (-3.) * 2.) * 100.;
    assert!(close(t_re, re_of(r)));
    assert!(close(t_im, im_of(r)));
}

#[test]
fn test_scale() {
    let mut a = rvec(&[1.0; 100]);
    scale(rs(1.5), &mut a);
    for x in &a {
        assert!(close(1.5, re_of(*x)));
    }

    let mut a = vec![cs(2., 3.); 100];
    let s = cs(1.2, 4.8);
    // v = a[0] * s
    let v_re = 2. * 1.2 - 3. * 4.8;
    let v_im = 2. * 4.8 + 3. * 1.2;
    scale(s, &mut a);
    for x in &a {
        assert!(close(v_re, re_of(*x)));
        assert!(close(v_im, im_of(*x)));
    }
}

#[test]
fn test_dot() {
    let a = rvec(&[1.0; 100]);
    let b = rvec(&[2.0; 100]);
    let r = dot(&a, &b);
    assert!(close(200., re_of(r)));

    let a = rvec(&[2.0; 100]);
    let b = rvec(&[3.0; 100]);
    let r = dot(&a, &b);
    assert!(close(600., re_of(r)));

    let a = vec![cs(2., 0.); 100];
    let b = vec![cs(2.5, 0.); 100];
    let r = dot(&a, &b);
    assert!(close(500., re_of(r)));
    assert!(close(0., im_of(r)));

    let a = vec![cs(2., 1.); 100];
    let b = vec![cs(3., 1.); 100];
    let r = dot(&a, &b);
    // t = a[0] * b[0] * 100
    let t_re = (2. * 3. - 1. * 1.) * 100.;
    let t_im = (2. * 1. + 1. * 3.) * 100.;
    assert!(close(t_re, re_of(r)));
    assert!(close(t_im, im_of(r)));

    let a = vec![cs(2., 3.); 100];
    let b = vec![cs(2., -3.); 100];
    let r = dot(&a, &b);
    assert!(close((2. * 2. + 3. * 3.) * 100., re_of(r)));
    assert!(close(0., im_of(r)));
}

#[test]
fn dot_generic_complex() {
    let a = vec![cs(0., 1.); 6];
    let mut b: Vec<Scalar> = Vec::with_capacity(a.len());
    for i in 0..a.len() {
        b.push(cs(i as f64, 0.));
    }
    let ret = dot(&a, &b);
    assert!(close(0., re_of(ret)));
    assert!(close(15., im_of(ret)));

    const N: usize = 8;
    let mut a: Vec<Scalar> = Vec::with_capacity(N);
    let mut b: Vec<Scalar> = Vec::with_capacity(N);
    let mut s = 0_f64;
    for i in 0..N {
        a.push(cs(i as f64, i as f64));
        b.push(cs(i as f64, -(i as f64)));
        s += (i * i * 2) as f64;
    }
    let ret = dot(&a, &b);
    assert!(close(s, re_of(ret)));
    assert!(close(0., im_of(ret)));
}

#[test]
fn axpy_generic_complex() {
    let a = vec![cs(0., 1.); 6];
    let mut b: Vec<Scalar> = Vec::with_capacity(a.len());
    for i in 0..a.len() {
        b.push(cs(i as f64, 0.));
    }
    axpy(rs(1.), &a, &mut b);
    for i in 0..a.len() {
        assert!(close(i as f64, re_of(b[i])));
        assert!(close(1., im_of(b[i])));
    }

    let mut b: Vec<Scalar> = Vec::with_capacity(a.len());
    for i in 0..a.len() {
        b.push(cs(i as f64, 0.));
    }
    axpy(cs(0., 1.), &a, &mut b);
    for i in 0..a.len() {
        assert!(close((i as f64) - 1., re_of(b[i])));
        assert!(close(0., im_of(b[i])));
    }
}

#[test]
fn axpy_f32() {
    let a = rvec(&[1.0; 128]);
    let mut b = rvec(&[0.0; 128]);
    for _ in 0..4 {
        axpy(rs(2.), &a, &mut b);
    }
    for i in 0..a.len() {
        assert!(close(8., re_of(b[i])));
    }
}

#[test]
fn axpby_f32() {
    let a = rvec(&[1.0; 128]);
    let mut b = rvec(&[0.0; 128]);
    for _ in 0..4 {
        axpby(rs(2.), &a, rs(1.), &mut b);
    }
    for i in 0..a.len() {
        assert!(close(8., re_of(b[i])));
    }
    for _ in 0..3 {
        axpby(rs(2.), &a, rs(-1.), &mut b);
    }
    for i in 0..a.len() {
        assert!(close(-6., re_of(b[i])));
    }
}

#[test]
fn test_conj() {
    let a = vec![cs(1., 1.); 100];
    let mut b = vec![cs(1., 1.); 100];
    conj(&a, &mut b);
    for (x, y) in b.iter().zip(a.iter()) {
        assert!(close(im_of(*x), -im_of(*y)));
    }
    let a = vec![cs(3., 2.); 100];
    conj(&a, &mut b);
    for (x, y) in b.iter().zip(a.iter()) {
        assert!(close(im_of(*x), -im_of(*y)));
    }
}

#[test]
fn test_conj2() {
    let a = vec![cs(1., 1.); 100];
    let mut b = vec![cs(1., 1.); 100];
    conj(&a, &mut b);
    for (x, y) in b.iter().zip(a.iter()) {
        assert!(close(im_of(*x), -im_of(*y)));
    }
    let a = vec![cs(3., 2.); 100];
    conj(&a, &mut b);
    for (x, y) in b.iter().zip(a.iter()) {
        assert!(close(im_of(*x), -im_of(*y)));
    }
}

#[test]
fn empty_vectors() {
    let a: Vec<Scalar> = vec![];
    let b: Vec<Scalar> = vec![];
    assert_eq!(real_of(norm2(&a)), 0.0);
    let r = dot(&a, &b);
    assert_eq!(re_of(r), 0.0);
    assert_eq!(im_of(r), 0.0);
    let r = conj_dot(&a, &b);
    assert_eq!(re_of(r), 0.0);
    assert_eq!(im_of(r), 0.0);
}

#[test]
fn test_rscale() {
    let mut b = vec![cs(1., 2.); 100];
    rscale(Real::from_bits(9f64.to_bits()), &mut b);
    for x in b.iter() {
        assert!(close(re_of(*x), 9.));
        assert!(close(im_of(*x), 18.));
    }
}
