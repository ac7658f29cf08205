//! Scalar field elements for the solvers.
//!
//! A scalar is a double-precision complex number; its magnitude type is a
//! double-precision real. Both are carried as IEEE 754 binary64 bit
//! patterns in `u64` fields, so values are plain data that contracts can
//! speak about directly. Sign manipulation (negation, absolute value,
//! conjugation) and ordering are bit-level operations on the patterns and
//! are implemented and verified here; rounding arithmetic is delegated to
//! the numeric crates behind trusted wrappers. IEEE 754 pins each such
//! operation down as a correctly rounded function of the operand
//! patterns; the one freedom it leaves — the payload of a freshly
//! produced NaN, which platforms fill in differently — is removed by
//! packing every NaN result as the single canonical quiet NaN, so each
//! wrapper's result is a total function of its operand patterns on every
//! machine.

use vstd::prelude::*;

verus! {

/// A double-precision real number, held as its IEEE 754 binary64 bit pattern.
#[derive(Clone, Copy, PartialEq, Eq, Structural, Debug)]
pub struct Real {
    pub bits: u64,
}

/// A double-precision complex number: real and imaginary parts.
#[derive(Clone, Copy, PartialEq, Eq, Structural, Debug)]
pub struct Scalar {
    pub re: Real,
    pub im: Real,
}

/// Bit pattern of `+0.0`.
pub const REAL_ZERO_BITS: u64 = 0x0000_0000_0000_0000;
/// Bit pattern of `1.0`.
pub const REAL_ONE_BITS: u64 = 0x3FF0_0000_0000_0000;
/// Bit pattern of the double-precision machine epsilon `2^-52`.
pub const REAL_EPSILON_BITS: u64 = 0x3CB0_0000_0000_0000;
/// The sign bit of a binary64 pattern.
pub const SIGN_BIT: u64 = 0x8000_0000_0000_0000;
/// Mask selecting everything but the sign bit (the magnitude).
pub const MAGNITUDE_MASK: u64 = 0x7FFF_FFFF_FFFF_FFFF;
/// Magnitude of the infinities; any larger magnitude is a NaN.
pub const INFINITY_MAGNITUDE: u64 = 0x7FF0_0000_0000_0000;
/// The single quiet-NaN pattern that every NaN produced by the rounding
/// arithmetic is packed as. IEEE 754 leaves a fresh NaN's payload to the
/// platform; canonicalizing it makes each wrapped operation a total
/// function of its operand patterns.
pub const CANONICAL_NAN_BITS: u64 = 0x7FF8_0000_0000_0000;

pub open spec fn r_zero() -> Real {
    Real { bits: REAL_ZERO_BITS }
}

pub open spec fn r_one() -> Real {
    Real { bits: REAL_ONE_BITS }
}

pub open spec fn r_eps() -> Real {
    Real { bits: REAL_EPSILON_BITS }
}

pub open spec fn c_zero() -> Scalar {
    Scalar { re: r_zero(), im: r_zero() }
}

pub open spec fn c_one() -> Scalar {
    Scalar { re: r_one(), im: r_zero() }
}

/// The sign bit of the pattern, set for negative values (and `-0.0`).
pub open spec fn spec_sign_bit(a: Real) -> bool {
    a.bits & SIGN_BIT == SIGN_BIT
}

/// The magnitude part of the pattern: everything but the sign.
pub open spec fn spec_magnitude(a: Real) -> u64 {
    a.bits & MAGNITUDE_MASK
}

/// A pattern is a NaN exactly when its magnitude exceeds that of infinity.
pub open spec fn spec_is_nan(a: Real) -> bool {
    spec_magnitude(a) > INFINITY_MAGNITUDE
}

/// IEEE 754 `a <= b` on binary64: false on any NaN; the two zeros are
/// equal; otherwise negatives come before positives and same-signed
/// values order by magnitude, reversed on the negative side.
pub open spec fn spec_le(a: Real, b: Real) -> bool {
    &&& !spec_is_nan(a)
    &&& !spec_is_nan(b)
    &&& if spec_magnitude(a) == 0 && spec_magnitude(b) == 0 {
            true
        } else if spec_sign_bit(a) != spec_sign_bit(b) {
            spec_sign_bit(a)
        } else if !spec_sign_bit(a) {
            spec_magnitude(a) <= spec_magnitude(b)
        } else {
            spec_magnitude(a) >= spec_magnitude(b)
        }
}

/// IEEE 754 `a < b` on binary64, by the same ordering as [`spec_le`].
pub open spec fn spec_lt(a: Real, b: Real) -> bool {
    &&& !spec_is_nan(a)
    &&& !spec_is_nan(b)
    &&& !(spec_magnitude(a) == 0 && spec_magnitude(b) == 0)
    &&& if spec_sign_bit(a) != spec_sign_bit(b) {
            spec_sign_bit(a)
        } else if !spec_sign_bit(a) {
            spec_magnitude(a) < spec_magnitude(b)
        } else {
            spec_magnitude(a) > spec_magnitude(b)
        }
}

/// Sign-flip negation of a binary64 pattern.
pub open spec fn spec_neg(a: Real) -> Real {
    Real { bits: a.bits ^ SIGN_BIT }
}

/// Sign-clearing absolute value of a binary64 pattern.
pub open spec fn spec_abs(a: Real) -> Real {
    Real { bits: a.bits & MAGNITUDE_MASK }
}

/// Componentwise negation of a complex number.
pub open spec fn spec_c_neg(a: Scalar) -> Scalar {
    Scalar { re: spec_neg(a.re), im: spec_neg(a.im) }
}

/// Complex conjugation: the imaginary part changes sign.
pub open spec fn spec_conj(a: Scalar) -> Scalar {
    Scalar { re: a.re, im: spec_neg(a.im) }
}

/// Embedding of a real into the complex field with zero imaginary part.
pub open spec fn spec_from_real(a: Real) -> Scalar {
    Scalar { re: a, im: r_zero() }
}

/// `+0.0` is at most the machine epsilon in the IEEE 754 order, so the
/// degenerate right-hand-side check always accepts an exactly zero norm.
pub proof fn lemma_zero_le_eps()
    ensures
        spec_le(r_zero(), r_eps()),
{
    assert(0u64 & 0x7FFF_FFFF_FFFF_FFFFu64 == 0u64) by (bit_vector);
    assert(0u64 & 0x8000_0000_0000_0000u64 != 0x8000_0000_0000_0000u64) by (bit_vector);
    assert(0x3CB0_0000_0000_0000u64 & 0x7FFF_FFFF_FFFF_FFFFu64 == 0x3CB0_0000_0000_0000u64)
        by (bit_vector);
    assert(0x3CB0_0000_0000_0000u64 & 0x8000_0000_0000_0000u64 != 0x8000_0000_0000_0000u64)
        by (bit_vector);
}

impl Real {
    /// The real number `+0.0`.
    pub fn zero() -> (r: Real)
        ensures
            r == r_zero(),
    {
        Real { bits: REAL_ZERO_BITS }
    }

    /// The real number `1.0`.
    pub fn one() -> (r: Real)
        ensures
            r == r_one(),
    {
        Real { bits: REAL_ONE_BITS }
    }

    /// The machine epsilon for double precision.
    pub fn epsilon() -> (r: Real)
        ensures
            r == r_eps(),
    {
        Real { bits: REAL_EPSILON_BITS }
    }

    /// Builds a real from its IEEE 754 bit pattern.
    pub fn from_bits(bits: u64) -> (r: Real)
        ensures
            r == (Real { bits }),
    {
        Real { bits }
    }
}

impl Scalar {
    /// The complex number `0`.
    pub fn zero() -> (r: Scalar)
        ensures
            r == c_zero(),
    {
        Scalar { re: Real { bits: REAL_ZERO_BITS }, im: Real { bits: REAL_ZERO_BITS } }
    }

    /// The complex number `1`.
    pub fn one() -> (r: Scalar)
        ensures
            r == c_one(),
    {
        Scalar { re: Real { bits: REAL_ONE_BITS }, im: Real { bits: REAL_ZERO_BITS } }
    }

    /// Builds a complex number from the bit patterns of its two parts.
    pub fn new(re_bits: u64, im_bits: u64) -> (r: Scalar)
        ensures
            r == (Scalar { re: Real { bits: re_bits }, im: Real { bits: im_bits } }),
    {
        Scalar { re: Real { bits: re_bits }, im: Real { bits: im_bits } }
    }

    /// The real part.
    pub fn real_part(&self) -> (r: Real)
        ensures
            r == self.re,
    {
        self.re
    }
}

/// IEEE 754 comparison `a <= b`.
pub fn r_le(a: Real, b: Real) -> (r: bool)
    ensures
        r == spec_le(a, b),
{
    let mag_a: u64 = a.bits & MAGNITUDE_MASK;
    let mag_b: u64 = b.bits & MAGNITUDE_MASK;
    if mag_a > INFINITY_MAGNITUDE || mag_b > INFINITY_MAGNITUDE {
        false
    } else if mag_a == 0 && mag_b == 0 {
        true
    } else {
        let sign_a: bool = a.bits & SIGN_BIT == SIGN_BIT;
        let sign_b: bool = b.bits & SIGN_BIT == SIGN_BIT;
        if sign_a != sign_b {
            sign_a
        } else if !sign_a {
            mag_a <= mag_b
        } else {
            mag_a >= mag_b
        }
    }
}

/// IEEE 754 comparison `a < b`.
pub fn r_lt(a: Real, b: Real) -> (r: bool)
    ensures
        r == spec_lt(a, b),
{
    let mag_a: u64 = a.bits & MAGNITUDE_MASK;
    let mag_b: u64 = b.bits & MAGNITUDE_MASK;
    if mag_a > INFINITY_MAGNITUDE || mag_b > INFINITY_MAGNITUDE {
        false
    } else if mag_a == 0 && mag_b == 0 {
        false
    } else {
        let sign_a: bool = a.bits & SIGN_BIT == SIGN_BIT;
        let sign_b: bool = b.bits & SIGN_BIT == SIGN_BIT;
        if sign_a != sign_b {
            sign_a
        } else if !sign_a {
            mag_a < mag_b
        } else {
            mag_a > mag_b
        }
    }
}

/// Sign-flip negation of a real.
pub fn r_neg(a: Real) -> (r: Real)
    ensures
        r == spec_neg(a),
{
    Real { bits: a.bits ^ SIGN_BIT }
}

/// Sign-clearing absolute value of a real.
pub fn r_abs(a: Real) -> (r: Real)
    ensures
        r == spec_abs(a),
{
    Real { bits: a.bits & MAGNITUDE_MASK }
}

/// Componentwise negation of a complex number.
pub fn c_neg(a: Scalar) -> (r: Scalar)
    ensures
        r == spec_c_neg(a),
{
    Scalar { re: r_neg(a.re), im: r_neg(a.im) }
}

/// Complex conjugate.
pub fn c_conj(a: Scalar) -> (r: Scalar)
    ensures
        r == spec_conj(a),
{
    Scalar { re: a.re, im: r_neg(a.im) }
}

/// Embeds a real into the complex field.
pub fn c_from_real(a: Real) -> (r: Scalar)
    ensures
        r == spec_from_real(a),
{
    Scalar { re: a, im: Real { bits: REAL_ZERO_BITS } }
}

/// The rounded sum of two reals: the bit pattern that double-precision
/// addition of the operands' values produces.
pub uninterp spec fn r_add_of(a: Real, b: Real) -> Real;

/// The rounded product of two reals.
pub uninterp spec fn r_mul_of(a: Real, b: Real) -> Real;

/// The rounded quotient of two reals.
pub uninterp spec fn r_div_of(a: Real, b: Real) -> Real;

/// The rounded square root of a real.
pub uninterp spec fn r_sqrt_of(a: Real) -> Real;

/// The rounded sum of two complex numbers.
pub uninterp spec fn c_add_of(a: Scalar, b: Scalar) -> Scalar;

/// The rounded difference of two complex numbers.
pub uninterp spec fn c_sub_of(a: Scalar, b: Scalar) -> Scalar;

/// The rounded product of two complex numbers.
pub uninterp spec fn c_mul_of(a: Scalar, b: Scalar) -> Scalar;

/// The rounded quotient of two complex numbers.
pub uninterp spec fn c_div_of(a: Scalar, b: Scalar) -> Scalar;

/// The rounded product of a complex number and a real.
pub uninterp spec fn c_mul_real_of(a: Scalar, b: Real) -> Scalar;

/// The rounded quotient of a complex number by a real.
pub uninterp spec fn c_div_real_of(a: Scalar, b: Real) -> Scalar;

/// The rounded squared magnitude `re*re + im*im` of a complex number.
pub uninterp spec fn c_square_of(a: Scalar) -> Real;

/// Relies on `f64`'s `+`: IEEE 754 addition rounds to nearest-even, and
/// a NaN result is packed as the canonical quiet NaN, so the result is a
/// function of the operand patterns alone on every machine; the sum of
/// two positive zeros is a positive zero.
#[verifier::external_body]
pub fn r_add(a: Real, b: Real) -> (r: Real)
    ensures
        r == r_add_of(a, b),
        a == r_zero() && b == r_zero() ==> r == r_zero(),
{
    let x = <<cauchy::c64 as cauchy::Scalar>::Real>::from_bits(a.bits);
    let y = <<cauchy::c64 as cauchy::Scalar>::Real>::from_bits(b.bits);
    let s = x + y;
    Real { bits: if s.is_nan() { CANONICAL_NAN_BITS } else { s.to_bits() } }
}

/// Relies on `f64`'s `*`: IEEE 754 multiplication is correctly rounded,
/// and a NaN result is packed as the canonical quiet NaN, so the result
/// is a function of the operand patterns alone on every machine.
#[verifier::external_body]
pub fn r_mul(a: Real, b: Real) -> (r: Real)
    ensures
        r == r_mul_of(a, b),
{
    let x = <<cauchy::c64 as cauchy::Scalar>::Real>::from_bits(a.bits);
    let y = <<cauchy::c64 as cauchy::Scalar>::Real>::from_bits(b.bits);
    let s = x * y;
    Real { bits: if s.is_nan() { CANONICAL_NAN_BITS } else { s.to_bits() } }
}

/// Relies on `f64`'s `/`: IEEE 754 division is correctly rounded, and a
/// NaN result is packed as the canonical quiet NaN, so the result is a
/// function of the operand patterns alone on every machine.
#[verifier::external_body]
pub fn r_div(a: Real, b: Real) -> (r: Real)
    ensures
        r == r_div_of(a, b),
{
    let x = <<cauchy::c64 as cauchy::Scalar>::Real>::from_bits(a.bits);
    let y = <<cauchy::c64 as cauchy::Scalar>::Real>::from_bits(b.bits);
    let s = x / y;
    Real { bits: if s.is_nan() { CANONICAL_NAN_BITS } else { s.to_bits() } }
}

/// Relies on `num_traits::Float::sqrt`, which for a double is the IEEE
/// 754 correctly rounded square root; a NaN result is packed as the
/// canonical quiet NaN, so the result is a function of the operand
/// pattern alone on every machine; the square root of `+0.0` is `+0.0`.
#[verifier::external_body]
pub fn r_sqrt(a: Real) -> (r: Real)
    ensures
        r == r_sqrt_of(a),
        a == r_zero() ==> r == r_zero(),
{
    let x = <<cauchy::c64 as cauchy::Scalar>::Real>::from_bits(a.bits);
    let s = num_traits::Float::sqrt(x);
    Real { bits: if s.is_nan() { CANONICAL_NAN_BITS } else { s.to_bits() } }
}

/// Relies on `num_complex`'s `+` for `Complex`: componentwise IEEE 754
/// addition, with NaN components packed as the canonical quiet NaN, so
/// the result is a function of the operand patterns alone on every
/// machine.
#[verifier::external_body]
pub fn c_add(a: Scalar, b: Scalar) -> (r: Scalar)
    ensures
        r == c_add_of(a, b),
{
    let x = cauchy::c64::new(
        <<cauchy::c64 as cauchy::Scalar>::Real>::from_bits(a.re.bits),
        <<cauchy::c64 as cauchy::Scalar>::Real>::from_bits(a.im.bits),
    );
    let y = cauchy::c64::new(
        <<cauchy::c64 as cauchy::Scalar>::Real>::from_bits(b.re.bits),
        <<cauchy::c64 as cauchy::Scalar>::Real>::from_bits(b.im.bits),
    );
    let s = x + y;
    Scalar {
        re: Real { bits: if s.re.is_nan() { CANONICAL_NAN_BITS } else { s.re.to_bits() } },
        im: Real { bits: if s.im.is_nan() { CANONICAL_NAN_BITS } else { s.im.to_bits() } },
    }
}

/// Relies on `num_complex`'s `-` for `Complex`: componentwise IEEE 754
/// subtraction, with NaN components packed as the canonical quiet NaN, so
/// the result is a function of the operand patterns alone on every
/// machine.
#[verifier::external_body]
pub fn c_sub(a: Scalar, b: Scalar) -> (r: Scalar)
    ensures
        r == c_sub_of(a, b),
{
    let x = cauchy::c64::new(
        <<cauchy::c64 as cauchy::Scalar>::Real>::from_bits(a.re.bits),
        <<cauchy::c64 as cauchy::Scalar>::Real>::from_bits(a.im.bits),
    );
    let y = cauchy::c64::new(
        <<cauchy::c64 as cauchy::Scalar>::Real>::from_bits(b.re.bits),
        <<cauchy::c64 as cauchy::Scalar>::Real>::from_bits(b.im.bits),
    );
    let s = x - y;
    Scalar {
        re: Real { bits: if s.re.is_nan() { CANONICAL_NAN_BITS } else { s.re.to_bits() } },
        im: Real { bits: if s.im.is_nan() { CANONICAL_NAN_BITS } else { s.im.to_bits() } },
    }
}

/// Relies on `num_complex`'s `*` for `Complex`: the fixed product formula
/// `(ac - bd, ad + bc)` over IEEE 754 operations, with NaN components
/// packed as the canonical quiet NaN, so the result is a function of the
/// operand patterns alone on every machine.
#[verifier::external_body]
pub fn c_mul(a: Scalar, b: Scalar) -> (r: Scalar)
    ensures
        r == c_mul_of(a, b),
{
    let x = cauchy::c64::new(
        <<cauchy::c64 as cauchy::Scalar>::Real>::from_bits(a.re.bits),
        <<cauchy::c64 as cauchy::Scalar>::Real>::from_bits(a.im.bits),
    );
    let y = cauchy::c64::new(
        <<cauchy::c64 as cauchy::Scalar>::Real>::from_bits(b.re.bits),
        <<cauchy::c64 as cauchy::Scalar>::Real>::from_bits(b.im.bits),
    );
    let s = x * y;
    Scalar {
        re: Real { bits: if s.re.is_nan() { CANONICAL_NAN_BITS } else { s.re.to_bits() } },
        im: Real { bits: if s.im.is_nan() { CANONICAL_NAN_BITS } else { s.im.to_bits() } },
    }
}

/// Relies on `num_complex`'s `/` for `Complex`: the fixed quotient
/// formula over IEEE 754 operations, with NaN components packed as the
/// canonical quiet NaN, so the result is a function of the operand
/// patterns alone on every machine.
#[verifier::external_body]
pub fn c_div(a: Scalar, b: Scalar) -> (r: Scalar)
    ensures
        r == c_div_of(a, b),
{
    let x = cauchy::c64::new(
        <<cauchy::c64 as cauchy::Scalar>::Real>::from_bits(a.re.bits),
        <<cauchy::c64 as cauchy::Scalar>::Real>::from_bits(a.im.bits),
    );
    let y = cauchy::c64::new(
        <<cauchy::c64 as cauchy::Scalar>::Real>::from_bits(b.re.bits),
        <<cauchy::c64 as cauchy::Scalar>::Real>::from_bits(b.im.bits),
    );
    let s = x / y;
    Scalar {
        re: Real { bits: if s.re.is_nan() { CANONICAL_NAN_BITS } else { s.re.to_bits() } },
        im: Real { bits: if s.im.is_nan() { CANONICAL_NAN_BITS } else { s.im.to_bits() } },
    }
}

/// Relies on `cauchy::Scalar::mul_real`: componentwise IEEE 754
/// multiplication by a real, with NaN components packed as the canonical
/// quiet NaN, so the result is a function of the operand patterns alone
/// on every machine.
#[verifier::external_body]
pub fn c_mul_real(a: Scalar, b: Real) -> (r: Scalar)
    ensures
        r == c_mul_real_of(a, b),
{
    let x = cauchy::c64::new(
        <<cauchy::c64 as cauchy::Scalar>::Real>::from_bits(a.re.bits),
        <<cauchy::c64 as cauchy::Scalar>::Real>::from_bits(a.im.bits),
    );
    let y = <<cauchy::c64 as cauchy::Scalar>::Real>::from_bits(b.bits);
    let s = cauchy::Scalar::mul_real(x, y);
    Scalar {
        re: Real { bits: if s.re.is_nan() { CANONICAL_NAN_BITS } else { s.re.to_bits() } },
        im: Real { bits: if s.im.is_nan() { CANONICAL_NAN_BITS } else { s.im.to_bits() } },
    }
}

/// Relies on `cauchy::Scalar::div_real`: componentwise IEEE 754 division
/// by a real, with NaN components packed as the canonical quiet NaN, so
/// the result is a function of the operand patterns alone on every
/// machine.
#[verifier::external_body]
pub fn c_div_real(a: Scalar, b: Real) -> (r: Scalar)
    ensures
        r == c_div_real_of(a, b),
{
    let x = cauchy::c64::new(
        <<cauchy::c64 as cauchy::Scalar>::Real>::from_bits(a.re.bits),
        <<cauchy::c64 as cauchy::Scalar>::Real>::from_bits(a.im.bits),
    );
    let y = <<cauchy::c64 as cauchy::Scalar>::Real>::from_bits(b.bits);
    let s = cauchy::Scalar::div_real(x, y);
    Scalar {
        re: Real { bits: if s.re.is_nan() { CANONICAL_NAN_BITS } else { s.re.to_bits() } },
        im: Real { bits: if s.im.is_nan() { CANONICAL_NAN_BITS } else { s.im.to_bits() } },
    }
}

/// Relies on `cauchy::Scalar::square`, which for a complex double is
/// `re*re + im*im` over IEEE 754 operations; a NaN result is packed as
/// the canonical quiet NaN, so the result is a function of the operand
/// pattern alone on every machine; for the complex zero it is `+0.0`.
#[verifier::external_body]
pub fn c_square(a: Scalar) -> (r: Real)
    ensures
        r == c_square_of(a),
        a == c_zero() ==> r == r_zero(),
{
    let x = cauchy::c64::new(
        <<cauchy::c64 as cauchy::Scalar>::Real>::from_bits(a.re.bits),
        <<cauchy::c64 as cauchy::Scalar>::Real>::from_bits(a.im.bits),
    );
    let s = cauchy::Scalar::square(x);
    Real { bits: if s.is_nan() { CANONICAL_NAN_BITS } else { s.to_bits() } }
}

/// Relies on `cauchy::Scalar::abs`, the complex magnitude. It goes through
/// the platform's `hypot`, whose rounding is not pinned down, so nothing is
/// claimed of the result; the solvers only branch on it.
#[verifier::external_body]
pub fn c_abs(a: Scalar) -> Real {
    let x = cauchy::c64::new(
        <<cauchy::c64 as cauchy::Scalar>::Real>::from_bits(a.re.bits),
        <<cauchy::c64 as cauchy::Scalar>::Real>::from_bits(a.im.bits),
    );
    Real { bits: cauchy::Scalar::abs(x).to_bits() }
}

} // verus!
