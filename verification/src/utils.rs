//! Linear-algebra primitives shared by the direct and the fast transform,
//! and the random-sample source used by self-checks.

use vstd::prelude::*;
use num::complex::Complex64;
use num::traits::Zero;
use rand::RngExt;
use crate::complex::{add_of, mul_of, c_add, c_mul};

verus! {

/// The sum of the first `k` products `row[j] * v[j]`, folded from the left:
/// `(...(row[0]*v[0] + row[1]*v[1]) + ...) + row[k-1]*v[k-1]`.
pub open spec fn dot_prefix(row: Seq<Complex64>, v: Seq<Complex64>, k: int) -> Complex64
    decreases k,
{
    if k <= 1 {
        mul_of(row[0], v[0])
    } else {
        add_of(dot_prefix(row, v, k - 1), mul_of(row[k - 1], v[k - 1]))
    }
}

/// The dot product of a matrix row with the vector `v`.
pub open spec fn dot(row: Seq<Complex64>, v: Seq<Complex64>) -> Complex64 {
    dot_prefix(row, v, v.len() as int)
}

/// The matrix-vector product: entry `i` is the dot product of row `i` of `m`
/// with `v`.
pub open spec fn mat_vec(m: Seq<Seq<Complex64>>, v: Seq<Complex64>) -> Seq<Complex64> {
    Seq::new(m.len(), |i: int| dot(m[i], v))
}

/// The element-wise sum of two equal-length vectors.
pub open spec fn add_seq(a: Seq<Complex64>, b: Seq<Complex64>) -> Seq<Complex64> {
    Seq::new(a.len(), |i: int| add_of(a[i], b[i]))
}

/// The element-wise product of two equal-length vectors.
pub open spec fn mul_seq(a: Seq<Complex64>, b: Seq<Complex64>) -> Seq<Complex64> {
    Seq::new(a.len(), |i: int| mul_of(a[i], b[i]))
}

/// The rows of a matrix held as `Vec`s, seen as a sequence of sequences.
pub open spec fn rows_view(m: Seq<Vec<Complex64>>) -> Seq<Seq<Complex64>> {
    Seq::new(m.len(), |i: int| m[i]@)
}

/// Multiplies the square matrix `m` by the vector `v`: entry `i` of the
/// result is the left-folded sum over `j` of `m[i][j] * v[j]`.
///
/// The length preconditions are the engine's internal invariant: the matrix
/// is square and matches the vector.
pub fn mul_mv(m: &Vec<Vec<Complex64>>, v: &Vec<Complex64>) -> (r: Vec<Complex64>)
    requires
        m@.len() == v@.len(),
        v@.len() >= 1,
        forall|i: int| 0 <= i < m@.len() ==> #[trigger] m@[i]@.len() == v@.len(),
    ensures
        r@.len() == v@.len(),
        r@ == mat_vec(rows_view(m@), v@),
{
    let n = v.len();
    let mut r: Vec<Complex64> = Vec::new();
    let mut i: usize = 0;
    while i < n
        invariant
            0 <= i <= n,
            n == v@.len(),
            m@.len() == n,
            forall|k: int| 0 <= k < m@.len() ==> #[trigger] m@[k]@.len() == n,
            r@.len() == i,
            forall|k: int| 0 <= k < i ==> r@[k] == #[trigger] mat_vec(rows_view(m@), v@)[k],
        decreases n - i,
    {
        let row = &m[i];
        let mut acc = c_mul(row[0], v[0]);
        let mut j: usize = 1;
        while j < n
            invariant
                1 <= j <= n,
                n == v@.len(),
                0 <= i < m@.len(),
                m@[i as int]@.len() == n,
                row@ == m@[i as int]@,
                acc == dot_prefix(row@, v@, j as int),
            decreases n - j,
        {
            acc = c_add(acc, c_mul(row[j], v[j]));
            j = j + 1;
        }
        assert(acc == dot(m@[i as int]@, v@));
        assert(rows_view(m@)[i as int] == m@[i as int]@);
        r.push(acc);
        i = i + 1;
    }
    assert(r@ =~= mat_vec(rows_view(m@), v@));
    r
}

/// Adds two equal-length complex vectors element by element.
pub fn add_vv(a: &Vec<Complex64>, b: &Vec<Complex64>) -> (r: Vec<Complex64>)
    requires
        a@.len() == b@.len(),
    ensures
        r@.len() == a@.len(),
        r@ == add_seq(a@, b@),
{
    let n = a.len();
    let mut r: Vec<Complex64> = Vec::new();
    let mut i: usize = 0;
    while i < n
        invariant
            0 <= i <= n,
            n == a@.len(),
            a@.len() == b@.len(),
            r@.len() == i,
            forall|k: int| 0 <= k < i ==> r@[k] == #[trigger] add_seq(a@, b@)[k],
        decreases n - i,
    {
        r.push(c_add(a[i], b[i]));
        i = i + 1;
    }
    assert(r@ =~= add_seq(a@, b@));
    r
}

/// Multiplies two equal-length complex vectors element by element.
pub fn mul_vv_el(a: &Vec<Complex64>, b: &Vec<Complex64>) -> (r: Vec<Complex64>)
    requires
        a@.len() == b@.len(),
    ensures
        r@.len() == a@.len(),
        r@ == mul_seq(a@, b@),
{
    let n = a.len();
    let mut r: Vec<Complex64> = Vec::new();
    let mut i: usize = 0;
    while i < n
        invariant
            0 <= i <= n,
            n == a@.len(),
            a@.len() == b@.len(),
            r@.len() == i,
            forall|k: int| 0 <= k < i ==> r@[k] == #[trigger] mul_seq(a@, b@)[k],
        decreases n - i,
    {
        r.push(c_mul(a[i], b[i]));
        i = i + 1;
    }
    assert(r@ =~= mul_seq(a@, b@));
    r
}

/// Relies on `rand::rng` and `Rng::random`: draws 1024 doubles uniformly
/// from `[0, 1)`, each carried as a complex value with zero imaginary part.
/// The draws depend on the thread's generator, so nothing is promised of the
/// values beyond the count.
#[verifier::external_body]
pub fn generate_random_values() -> (r: Vec<Complex64>)
    ensures
        r@.len() == 1024,
{
    let mut rng = rand::rng();
    (0..1024).map(|_| Complex64::new(rng.random(), Zero::zero())).collect()
}

} // verus!
