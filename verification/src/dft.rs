//! The direct O(n^2) transform engine: an explicit transform matrix applied
//! through a matrix-vector product.

use vstd::prelude::*;
use num::complex::Complex64;
use crate::complex::{kernel_of, re_of, div_n_of, c_kernel, c_re, c_div_n};
use crate::error::FftError;
use crate::utils::{mat_vec, rows_view, mul_mv};

verus! {

/// The n-by-n transform matrix: entry `(i, j)` is the complex exponential
/// `e^(w*i*j)` for the angular coefficient `w` of the chosen direction.
pub open spec fn transform_matrix(n: int, inverse: bool) -> Seq<Seq<Complex64>> {
    Seq::new(n as nat, |i: int| Seq::new(n as nat, |j: int| kernel_of(n, i, j, inverse)))
}

/// The direct transform of `x`: the transform matrix of its length applied
/// to it.
pub open spec fn spec_transform(x: Seq<Complex64>, inverse: bool) -> Seq<Complex64> {
    mat_vec(transform_matrix(x.len() as int, inverse), x)
}

/// Each sample reduced to its real part: the promotion a real-input
/// transform applies before delegating to the complex-input form.
pub open spec fn promote(x: Seq<Complex64>) -> Seq<Complex64> {
    Seq::new(x.len(), |i: int| re_of(x[i]))
}

/// Length preservation: the direct transform, in either direction, yields
/// exactly as many coefficients as it was given samples.
pub proof fn lemma_spec_transform_len(x: Seq<Complex64>, inverse: bool)
    ensures
        spec_transform(x, inverse).len() == x.len(),
{
}

/// Builds the transform matrix of size `len` for the chosen direction.
fn compute_dft_matrix(len: usize, inverse: bool) -> (m: Vec<Vec<Complex64>>)
    ensures
        m@.len() == len,
        rows_view(m@) == transform_matrix(len as int, inverse),
{
    let mut m: Vec<Vec<Complex64>> = Vec::new();
    let mut i: usize = 0;
    while i < len
        invariant
            0 <= i <= len,
            m@.len() == i,
            forall|k: int| 0 <= k < i ==> #[trigger] m@[k]@ == transform_matrix(len as int, inverse)[k],
        decreases len - i,
    {
        let mut row: Vec<Complex64> = Vec::new();
        let mut j: usize = 0;
        while j < len
            invariant
                0 <= j <= len,
                0 <= i < len,
                row@.len() == j,
                forall|k: int| 0 <= k < j ==> row@[k] == kernel_of(len as int, i as int, k, inverse),
            decreases len - j,
        {
            row.push(c_kernel(len, i, j, inverse));
            j = j + 1;
        }
        assert(row@ =~= transform_matrix(len as int, inverse)[i as int]);
        m.push(row);
        i = i + 1;
    }
    assert(rows_view(m@) =~= transform_matrix(len as int, inverse));
    m
}

/// Reduces each sample to its real part, the promotion of real samples that
/// a real-input transform applies before the complex-input form.
pub(crate) fn promote_samples(x: &Vec<Complex64>) -> (r: Vec<Complex64>)
    ensures
        r@ == promote(x@),
        r@.len() == x@.len(),
{
    let mut r: Vec<Complex64> = Vec::new();
    let mut i: usize = 0;
    while i < x.len()
        invariant
            0 <= i <= x@.len(),
            r@.len() == i,
            forall|k: int| 0 <= k < i ==> r@[k] == re_of(x@[k]),
        decreases x@.len() - i,
    {
        r.push(c_re(x[i]));
        i = i + 1;
    }
    assert(r@ =~= promote(x@));
    r
}

/// The forward transform of real samples, each carried as a complex value:
/// every sample is reduced to its real part, then the complex-input direct
/// transform is applied. Always succeeds; the result keeps the input's
/// length.
pub fn dft(x: &Vec<Complex64>) -> (r: Result<Vec<Complex64>, FftError>)
    requires
        x@.len() >= 1,
    ensures
        r is Ok,
        r matches Ok(v) ==> v@ == spec_transform(promote(x@), false) && v@.len() == x@.len(),
{
    let xc = promote_samples(x);
    dft_complex(&xc)
}

/// The forward direct transform of complex samples: the forward transform
/// matrix of size n applied to the input. Always succeeds; the result keeps
/// the input's length.
pub fn dft_complex(x: &Vec<Complex64>) -> (r: Result<Vec<Complex64>, FftError>)
    requires
        x@.len() >= 1,
    ensures
        r is Ok,
        r matches Ok(v) ==> v@ == spec_transform(x@, false) && v@.len() == x@.len(),
{
    let m = compute_dft_matrix(x.len(), false);
    assert forall|i: int| 0 <= i < m@.len() implies #[trigger] m@[i]@.len() == x@.len() by {
        assert(m@[i]@ == rows_view(m@)[i]);
    }
    let r = mul_mv(&m, x);
    Ok(r)
}

/// The inverse direct transform: the conjugate-coefficient transform matrix
/// applied to the spectrum, every entry divided by n, and only the real part
/// kept. The result keeps the input's length.
pub fn idft(x: &Vec<Complex64>) -> (r: Vec<Complex64>)
    requires
        x@.len() >= 1,
    ensures
        r@.len() == x@.len(),
        forall|i: int| 0 <= i < x@.len() ==>
            r@[i] == re_of(div_n_of(#[trigger] spec_transform(x@, true)[i], x@.len() as int)),
{
    let n = x.len();
    let m = compute_dft_matrix(n, true);
    assert forall|i: int| 0 <= i < m@.len() implies #[trigger] m@[i]@.len() == x@.len() by {
        assert(m@[i]@ == rows_view(m@)[i]);
    }
    let t = mul_mv(&m, x);
    let mut r: Vec<Complex64> = Vec::new();
    let mut i: usize = 0;
    while i < n
        invariant
            0 <= i <= n,
            n == x@.len(),
            t@ == spec_transform(x@, true),
            t@.len() == n,
            r@.len() == i,
            forall|k: int| 0 <= k < i ==>
                r@[k] == re_of(div_n_of(#[trigger] spec_transform(x@, true)[k], n as int)),
        decreases n - i,
    {
        r.push(c_re(c_div_n(t[i], n)));
        i = i + 1;
    }
    r
}

} // verus!
