//! The fast transform engine: recursive even/odd (radix-2) decomposition,
//! restricted to power-of-two lengths, with the direct transform as its base
//! case.

use vstd::prelude::*;
use num::complex::Complex64;
use crate::complex::{add_of, mul_of, conj_of, re_of, div_n_of, twiddle_of, c_conj, c_re, c_div_n, c_twiddle};
use crate::dft::{spec_transform, promote, promote_samples, dft_complex};
use crate::error::FftError;
use crate::utils::{add_seq, mul_seq, add_vv, mul_vv_el};

verus! {

/// Whether `n` is an exact power of two (1, 2, 4, 8, ...). Zero is not.
pub open spec fn is_pow2(n: nat) -> bool
    decreases n,
{
    if n == 0 {
        false
    } else if n == 1 {
        true
    } else {
        n % 2 == 0 && is_pow2(n / 2)
    }
}

/// Decides whether `n` is an exact power of two by stripping factors of two.
pub fn is_power_of_two(n: usize) -> (r: bool)
    ensures
        r == is_pow2(n as nat),
{
    if n == 0 {
        return false;
    }
    let mut m: usize = n;
    while m % 2 == 0
        invariant
            1 <= m <= n,
            is_pow2(n as nat) == is_pow2(m as nat),
        decreases m,
    {
        m = m / 2;
    }
    m == 1
}

/// The samples of `x` at even indices, in order.
pub open spec fn evens(x: Seq<Complex64>) -> Seq<Complex64> {
    Seq::new(x.len() / 2, |i: int| x[2 * i])
}

/// The samples of `x` at odd indices, in order.
pub open spec fn odds(x: Seq<Complex64>) -> Seq<Complex64> {
    Seq::new(x.len() / 2, |i: int| x[2 * i + 1])
}

/// Every element replaced by its conjugate, in order.
pub open spec fn conj_seq(x: Seq<Complex64>) -> Seq<Complex64> {
    Seq::new(x.len(), |i: int| conj_of(x[i]))
}

/// The fast transform of `x`, assuming its length is a power of two: the
/// direct transform for lengths up to two, and otherwise the butterfly
/// combine of the transformed even- and odd-indexed halves with the twiddle
/// factors of the full length. Entry `i` of the combine is
/// `e[i mod n/2] + o[i mod n/2] * twiddle(n, i)`.
pub open spec fn spec_fft(x: Seq<Complex64>) -> Seq<Complex64>
    decreases x.len(),
{
    if x.len() <= 2 {
        spec_transform(x, false)
    } else {
        let n = x.len() as int;
        let e = spec_fft(evens(x));
        let o = spec_fft(odds(x));
        Seq::new(x.len(), |i: int|
            if i < n / 2 {
                add_of(e[i], mul_of(o[i], twiddle_of(n, i)))
            } else {
                add_of(e[i - n / 2], mul_of(o[i - n / 2], twiddle_of(n, i)))
            })
    }
}

/// The fast transform preserves the input's length, whatever the input.
pub proof fn lemma_spec_fft_len(x: Seq<Complex64>)
    ensures
        spec_fft(x).len() == x.len(),
    decreases x.len(),
{
    if x.len() > 2 {
        lemma_spec_fft_len(evens(x));
        lemma_spec_fft_len(odds(x));
    }
}

/// The recursive fast transform of complex samples. It fails with
/// `NotAPowerOfTwo` exactly on the lengths that are not powers of two (zero
/// among them), at every recursion depth; on a power-of-two length it
/// returns the transform, which keeps the input's length.
pub fn fft_complex(x: &Vec<Complex64>) -> (r: Result<Vec<Complex64>, FftError>)
    ensures
        r is Ok <==> is_pow2(x@.len()),
        r matches Ok(v) ==> v@ == spec_fft(x@) && v@.len() == x@.len(),
        r matches Err(e) ==> e == FftError::NotAPowerOfTwo(x@.len() as usize),
    decreases x@.len(),
{
    let n = x.len();
    if !is_power_of_two(n) {
        return Err(FftError::NotAPowerOfTwo(n));
    }
    if n <= 2 {
        return dft_complex(x);
    }

    let mut x_even: Vec<Complex64> = Vec::new();
    let mut x_odd: Vec<Complex64> = Vec::new();
    let mut i: usize = 0;
    while i < n
        invariant
            0 <= i <= n,
            n == x@.len(),
            x_even@.len() == (i + 1) / 2,
            x_odd@.len() == i / 2,
            forall|k: int| 0 <= k < x_even@.len() ==> x_even@[k] == x@[2 * k],
            forall|k: int| 0 <= k < x_odd@.len() ==> x_odd@[k] == x@[2 * k + 1],
        decreases n - i,
    {
        if i % 2 == 0 {
            x_even.push(x[i]);
        } else {
            x_odd.push(x[i]);
        }
        i = i + 1;
    }
    assert(x_even@ =~= evens(x@));
    assert(x_odd@ =~= odds(x@));

    proof {
        assert(is_pow2((n / 2) as nat)) by {
            assert(is_pow2(n as nat));
            assert(n as nat != 0 && n as nat != 1);
        }
    }
    let x_even_cmplx = match fft_complex(&x_even) {
        Ok(v) => v,
        Err(e) => {
            return Err(e);
        },
    };
    let x_odd_cmplx = match fft_complex(&x_odd) {
        Ok(v) => v,
        Err(e) => {
            return Err(e);
        },
    };

    let mut f_lo: Vec<Complex64> = Vec::new();
    let mut f_hi: Vec<Complex64> = Vec::new();
    let half = n / 2;
    let mut i: usize = 0;
    while i < half
        invariant
            0 <= i <= half,
            half == n / 2,
            n == x@.len(),
            f_lo@.len() == i,
            forall|k: int| 0 <= k < i ==> f_lo@[k] == twiddle_of(n as int, k),
        decreases half - i,
    {
        f_lo.push(c_twiddle(n, i));
        i = i + 1;
    }
    let mut i: usize = half;
    while i < n
        invariant
            half <= i <= n,
            half == n / 2,
            n == x@.len(),
            f_hi@.len() == i - half,
            forall|k: int| 0 <= k < i - half ==> f_hi@[k] == twiddle_of(n as int, k + half),
        decreases n - i,
    {
        f_hi.push(c_twiddle(n, i));
        i = i + 1;
    }

    let aa = add_vv(&x_even_cmplx, &mul_vv_el(&x_odd_cmplx, &f_lo));
    let bb = add_vv(&x_even_cmplx, &mul_vv_el(&x_odd_cmplx, &f_hi));

    let mut r: Vec<Complex64> = aa;
    let mut i: usize = 0;
    while i < bb.len()
        invariant
            0 <= i <= bb@.len(),
            r@.len() == aa@.len() + i,
            r@ == aa@ + bb@.take(i as int),
            aa@ == add_seq(x_even_cmplx@, mul_seq(x_odd_cmplx@, f_lo@)),
            bb@ == add_seq(x_even_cmplx@, mul_seq(x_odd_cmplx@, f_hi@)),
        decreases bb@.len() - i,
    {
        r.push(bb[i]);
        proof {
            assert(r@ =~= aa@ + bb@.take(i as int + 1));
        }
        i = i + 1;
    }
    proof {
        assert(bb@.take(bb@.len() as int) =~= bb@);
        assert forall|k: int| 0 <= k < x@.len() implies r@[k] == spec_fft(x@)[k] by {
            let ni = n as int;
            if k < ni / 2 {
                assert(r@[k] == aa@[k]);
                assert(aa@[k] == add_of(x_even_cmplx@[k], mul_of(x_odd_cmplx@[k], twiddle_of(ni, k))));
            } else {
                assert(r@[k] == bb@[k - ni / 2]);
                assert(bb@[k - ni / 2] == add_of(
                    x_even_cmplx@[k - ni / 2],
                    mul_of(x_odd_cmplx@[k - ni / 2], twiddle_of(ni, k)),
                ));
            }
        }
        lemma_spec_fft_len(x@);
        assert(r@ =~= spec_fft(x@));
    }
    Ok(r)
}

/// The fast transform of real samples, each carried as a complex value:
/// every sample is reduced to its real part, then the complex-input fast
/// transform is applied. Fails with `NotAPowerOfTwo` exactly when the length
/// is not a power of two; otherwise the result keeps the input's length.
pub fn fft(x: &Vec<Complex64>) -> (r: Result<Vec<Complex64>, FftError>)
    ensures
        r is Ok <==> is_pow2(x@.len()),
        r matches Ok(v) ==> v@ == spec_fft(promote(x@)) && v@.len() == x@.len(),
        r matches Err(e) ==> e == FftError::NotAPowerOfTwo(x@.len() as usize),
{
    let xc = promote_samples(x);
    fft_complex(&xc)
}

/// The inverse fast transform, computed by conjugation: conjugate the
/// spectrum, run the forward fast transform, conjugate its output, divide by
/// n and keep only the real part. Fails with `NotAPowerOfTwo` exactly when
/// the length is not a power of two; otherwise the result keeps the input's
/// length.
pub fn ifft(x: &Vec<Complex64>) -> (r: Result<Vec<Complex64>, FftError>)
    ensures
        r is Ok <==> is_pow2(x@.len()),
        r matches Ok(v) ==> v@.len() == x@.len() && forall|i: int| 0 <= i < x@.len() ==>
            v@[i] == re_of(div_n_of(conj_of(#[trigger] spec_fft(conj_seq(x@))[i]), x@.len() as int)),
        r matches Err(e) ==> e == FftError::NotAPowerOfTwo(x@.len() as usize),
{
    let n = x.len();
    let mut x_conj: Vec<Complex64> = Vec::new();
    let mut i: usize = 0;
    while i < n
        invariant
            0 <= i <= n,
            n == x@.len(),
            x_conj@.len() == i,
            forall|k: int| 0 <= k < i ==> x_conj@[k] == conj_of(x@[k]),
        decreases n - i,
    {
        x_conj.push(c_conj(x[i]));
        i = i + 1;
    }
    assert(x_conj@ =~= conj_seq(x@));

    let x_res = match fft_complex(&x_conj) {
        Ok(v) => v,
        Err(e) => {
            return Err(e);
        },
    };

    let mut r: Vec<Complex64> = Vec::new();
    let mut i: usize = 0;
    while i < n
        invariant
            0 <= i <= n,
            n == x@.len(),
            x_res@ == spec_fft(conj_seq(x@)),
            x_res@.len() == n,
            r@.len() == i,
            forall|k: int| 0 <= k < i ==>
                r@[k] == re_of(div_n_of(conj_of(#[trigger] spec_fft(conj_seq(x@))[k]), n as int)),
        decreases n - i,
    {
        r.push(c_re(c_div_n(c_conj(x_res[i]), n)));
        i = i + 1;
    }
    Ok(r)
}

} // verus!

