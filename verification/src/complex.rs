//! The complex scalar that the transforms work on, and the names of its
//! arithmetic.
//!
//! A spectrum coefficient is a `num::complex::Complex64`, a double-precision
//! complex number from the `num` crate. Its value is opaque to the verifier:
//! every operation on it is an outside call, reached through a trusted
//! wrapper whose result is pinned to an uninterpreted name. The contracts of
//! the transform engine are stated over those names, so they fix exactly
//! which operations are applied to which inputs, in which order.

use vstd::prelude::*;
use num::complex::Complex64;
use num::traits::FromPrimitive;
use num::traits::Zero;

verus! {

/// Declares the outside type `num::complex::Complex<T>` so that it can stand
/// in signatures and fields. Values of it stay opaque to the verifier.
#[verifier::external_type_specification]
#[verifier::external_body]
#[verifier::reject_recursive_types(T)]
pub struct ExComplex<T>(num::Complex<T>);

/// The complex sum `a + b`, as the `num` crate computes it in double
/// precision.
pub uninterp spec fn add_of(a: Complex64, b: Complex64) -> Complex64;

/// The complex product `a * b`, as the `num` crate computes it in double
/// precision.
pub uninterp spec fn mul_of(a: Complex64, b: Complex64) -> Complex64;

/// The complex conjugate of `a`.
pub uninterp spec fn conj_of(a: Complex64) -> Complex64;

/// The real part of `a`, kept as a complex value whose imaginary part is
/// zero.
pub uninterp spec fn re_of(a: Complex64) -> Complex64;

/// The quotient `a / n`, where the length `n` stands as the complex divisor
/// `n + 0i`.
pub uninterp spec fn div_n_of(a: Complex64, n: int) -> Complex64;

/// Entry `(i, j)` of the transform matrix of size `n`: the complex
/// exponential `e^(w*i*j)` for the angular coefficient `w = -2*pi*i/n`
/// (forward) or `w = +2*pi*i/n` (inverse), as the `num` crate computes it.
pub uninterp spec fn kernel_of(n: int, i: int, j: int, inverse: bool) -> Complex64;

/// Twiddle factor `i` of a combine step over `n` points: the complex
/// exponential `e^(2*pi*i/n * i)`, as the `num` crate computes it.
pub uninterp spec fn twiddle_of(n: int, i: int) -> Complex64;

/// Relies on `impl Add for num::complex::Complex<f64>`: component-wise
/// double-precision addition, a function of the two operands alone.
#[verifier::external_body]
pub(crate) fn c_add(a: Complex64, b: Complex64) -> (r: Complex64)
    ensures
        r == add_of(a, b),
{
    a + b
}

/// Relies on `impl Mul for num::complex::Complex<f64>`: the product
/// `(re1*re2 - im1*im2, re1*im2 + im1*re2)` in double precision, a function
/// of the two operands alone.
#[verifier::external_body]
pub(crate) fn c_mul(a: Complex64, b: Complex64) -> (r: Complex64)
    ensures
        r == mul_of(a, b),
{
    a * b
}

/// Relies on `Complex::conj`: the conjugate `(re, -im)`, a function of the
/// operand alone.
#[verifier::external_body]
pub(crate) fn c_conj(a: Complex64) -> (r: Complex64)
    ensures
        r == conj_of(a),
{
    a.conj()
}

/// Relies on `Complex::new` and the public field `re`: builds `(re, 0)`,
/// dropping the imaginary part of the operand.
#[verifier::external_body]
pub(crate) fn c_re(a: Complex64) -> (r: Complex64)
    ensures
        r == re_of(a),
{
    Complex64::new(a.re, Zero::zero())
}

/// Relies on `impl Div for num::complex::Complex<f64>` and on
/// `FromPrimitive::from_usize` for the divisor `n + 0i`: the double-precision
/// complex quotient, a function of the operands alone.
#[verifier::external_body]
pub(crate) fn c_div_n(a: Complex64, n: usize) -> (r: Complex64)
    ensures
        r == div_n_of(a, n as int),
{
    a / Complex64::from_usize(n).unwrap()
}

/// Relies on `Complex::exp`, `Complex::asin`, `Complex::i`, `Complex::scale`
/// and `FromPrimitive::from_usize`: builds the angular coefficient
/// `w = (0, -2*pi/n)` (or `(0, +2*pi/n)` when `inverse` is set; `asin(1)*4`
/// is `2*pi`), then evaluates `e^(w*i*j)` with `i` and `j` taken as the
/// imaginary values `(0, i)` and `(0, j)`. A function of the arguments
/// alone.
#[verifier::external_body]
pub(crate) fn c_kernel(n: usize, i: usize, j: usize, inverse: bool) -> (r: Complex64)
    ensures
        r == kernel_of(n as int, i as int, j as int, inverse),
{
    let one = Complex64::from_usize(1).unwrap();
    let four = Complex64::from_usize(4).unwrap();
    let two_pi = (one.asin() * four).re;
    let n_f = Complex64::from_usize(n).unwrap().re;
    let wf = if inverse { two_pi / n_f } else { -two_pi / n_f };
    let w = Complex64::i().scale(wf);
    let i_c = Complex64::i().scale(Complex64::from_usize(i).unwrap().re);
    let j_c = Complex64::i().scale(Complex64::from_usize(j).unwrap().re);
    (w * i_c * j_c).exp()
}

/// Relies on `Complex::exp`, `Complex::asin`, `Complex::i`, `Complex::scale`
/// and `FromPrimitive::from_usize`: evaluates the twiddle factor
/// `e^((0, 2*pi/n) * (i, 0))` (`asin(1)*4` is `2*pi`). A function of the
/// arguments alone.
#[verifier::external_body]
pub(crate) fn c_twiddle(n: usize, i: usize) -> (r: Complex64)
    ensures
        r == twiddle_of(n as int, i as int),
{
    let one = Complex64::from_usize(1).unwrap();
    let four = Complex64::from_usize(4).unwrap();
    let two_pi = (one.asin() * four).re;
    let n_f = Complex64::from_usize(n).unwrap().re;
    let w = Complex64::i().scale(two_pi / n_f);
    (w * Complex64::from_usize(i).unwrap()).exp()
}

} // verus!
