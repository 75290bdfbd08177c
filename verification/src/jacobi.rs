//! Jacobi (Givens) rotations and the two-sided Jacobi singular value
//! decomposition, the base case and fallback of the SVD pipeline.
//!
//! A rotation is a `(cosine, sine)` pair with `c² + s² = 1`; it is transient,
//! recomputed on the fly and never persisted. The cyclic Jacobi sweep applies
//! two-sided rotations to annihilate off diagonal pairs until they all fall
//! under a relative threshold floored by an absolute one; the number of sweeps
//! is capped, which bounds the running time on inputs that refuse to settle.

use vstd::prelude::*;
use crate::mat::Mat;
use crate::perm::swap_cols;
use crate::scalar::{real_max, ComplexField, RealField};

verus! {

/// A plane rotation with the given cosine and sine.
#[derive(Copy, Clone, Debug)]
pub struct JacobiRotation<T> {
    /// The cosine.
    pub c: T,
    /// The sine.
    pub s: T,
}

impl<E: ComplexField> JacobiRotation<E> {
    /// The rotation that diagonalizes the symmetric two-by-two matrix
    /// `[[x, y], [y, z]]`.
    pub fn from_triplet(x: E, y: E, z: E) -> Self {
        let abs_y = y.faer_abs();
        let two_abs_y = abs_y.faer_add(abs_y);
        if two_abs_y.faer_is_zero() {
            JacobiRotation { c: E::faer_one(), s: E::faer_zero() }
        } else {
            let tau = x.faer_sub(z).faer_mul(two_abs_y.faer_inv());
            let w = tau.faer_mul(tau).faer_add(E::faer_one()).faer_sqrt();
            let t = if tau.faer_gt(E::faer_zero()) {
                tau.faer_add(w).faer_inv()
            } else {
                tau.faer_sub(w).faer_inv()
            };

            let neg_sign_y = if y.faer_gt(E::faer_zero()) {
                E::faer_one().faer_neg()
            } else {
                E::faer_one()
            };
            let n = t.faer_mul(t).faer_add(E::faer_one()).faer_sqrt().faer_inv();

            JacobiRotation { c: n, s: neg_sign_y.faer_mul(t).faer_mul(n) }
        }
    }

    /// The rotation that sends the vector `(p, q)` to a multiple of the first
    /// basis vector.
    pub fn make_givens(p: E, q: E) -> Self {
        if q.faer_is_zero() {
            let c = if E::faer_zero().faer_gt(p) {
                E::faer_one().faer_neg()
            } else {
                E::faer_one()
            };
            JacobiRotation { c, s: E::faer_zero() }
        } else if p.faer_is_zero() {
            let s = if E::faer_zero().faer_gt(q) {
                E::faer_one()
            } else {
                E::faer_one().faer_neg()
            };
            JacobiRotation { c: E::faer_zero(), s }
        } else if p.faer_abs().faer_gt(q.faer_abs()) {
            let t = q.faer_mul(p.faer_inv());
            let mut u = E::faer_one().faer_add(t.faer_mul(t)).faer_sqrt();
            if E::faer_zero().faer_gt(p) {
                u = u.faer_neg();
            }
            let c = u.faer_inv();
            let s = t.faer_neg().faer_mul(c);
            JacobiRotation { c, s }
        } else {
            let t = p.faer_mul(q.faer_inv());
            let mut u = E::faer_one().faer_add(t.faer_mul(t)).faer_sqrt();
            if E::faer_zero().faer_gt(q) {
                u = u.faer_neg();
            }
            let s = u.faer_inv().faer_neg();
            let c = t.faer_neg().faer_mul(s);
            JacobiRotation { c, s }
        }
    }

    /// Applies the rotation to the two-by-two matrix given entrywise, from the
    /// left.
    pub fn apply_on_the_left_2x2(&self, m00: E, m01: E, m10: E, m11: E) -> (E, E, E, E) {
        let c = self.c;
        let s = self.s;
        (
            m00.faer_mul(c).faer_add(m10.faer_mul(s)),
            m01.faer_mul(c).faer_add(m11.faer_mul(s)),
            s.faer_neg().faer_mul(m00).faer_add(c.faer_mul(m10)),
            s.faer_neg().faer_mul(m01).faer_add(c.faer_mul(m11)),
        )
    }

    /// Applies the rotation to the two-by-two matrix given entrywise, from the
    /// right.
    pub fn apply_on_the_right_2x2(&self, m00: E, m01: E, m10: E, m11: E) -> (E, E, E, E) {
        let (r00, r01, r10, r11) = self.transpose().apply_on_the_left_2x2(m00, m10, m01, m11);
        (r00, r10, r01, r11)
    }

    /// Applies the rotation from the left to the pair of rows `x` (row `xi`)
    /// and `y` (row `yi`) of a matrix.
    pub fn apply_on_the_left_in_place(&self, mat: &mut Mat<E>, xi: usize, yi: usize)
        requires
            old(mat).wf(),
            xi < old(mat).spec_nrows(),
            yi < old(mat).spec_nrows(),
            xi != yi,
        ensures
            final(mat).wf(),
            final(mat).same_shape(old(mat)),
            forall|i: int, j: int|
                0 <= i < old(mat).spec_nrows() && 0 <= j < old(mat).spec_ncols()
                    && i != xi as int && i != yi as int
                    ==> final(mat).at(i, j) == old(mat).at(i, j),
    {
        let n = mat.ncols();
        let mut j: usize = 0;
        while j < n
            invariant
                mat.wf(),
                mat.same_shape(old(mat)),
                mat.spec_ncols() == n,
                xi < mat.spec_nrows(),
                yi < mat.spec_nrows(),
                j <= n,
                forall|fi: int, fj: int|
                    0 <= fi < mat.spec_nrows() && 0 <= fj < n && fi != xi as int
                        && fi != yi as int ==> mat.at(fi, fj) == old(mat).at(fi, fj),
            decreases n - j,
        {
            let x = mat.read(xi, j);
            let y = mat.read(yi, j);
            mat.write(xi, j, self.c.faer_mul(x).faer_add(self.s.faer_mul(y)));
            mat.write(yi, j, self.s.faer_neg().faer_mul(x).faer_add(self.c.faer_mul(y)));
            j += 1;
        }
    }

    /// Applies the rotation from the right to the pair of columns `x` (column
    /// `xj`) and `y` (column `yj`) of a matrix.
    pub fn apply_on_the_right_in_place(&self, mat: &mut Mat<E>, xj: usize, yj: usize)
        requires
            old(mat).wf(),
            xj < old(mat).spec_ncols(),
            yj < old(mat).spec_ncols(),
            xj != yj,
        ensures
            final(mat).wf(),
            final(mat).same_shape(old(mat)),
            forall|i: int, j: int|
                0 <= i < old(mat).spec_nrows() && 0 <= j < old(mat).spec_ncols()
                    && j != xj as int && j != yj as int
                    ==> final(mat).at(i, j) == old(mat).at(i, j),
    {
        let m = mat.nrows();
        let mut i: usize = 0;
        while i < m
            invariant
                mat.wf(),
                mat.same_shape(old(mat)),
                mat.spec_nrows() == m,
                xj < mat.spec_ncols(),
                yj < mat.spec_ncols(),
                i <= m,
                forall|fi: int, fj: int|
                    0 <= fi < m && 0 <= fj < mat.spec_ncols() && fj != xj as int
                        && fj != yj as int ==> mat.at(fi, fj) == old(mat).at(fi, fj),
            decreases m - i,
        {
            let x = mat.read(i, xj);
            let y = mat.read(i, yj);
            mat.write(i, xj, self.c.faer_mul(x).faer_add(self.s.faer_neg().faer_mul(y)));
            mat.write(i, yj, self.s.faer_mul(x).faer_add(self.c.faer_mul(y)));
            i += 1;
        }
    }

    /// The transposed rotation: the cosine is kept and the sine changes sign.
    pub fn transpose(&self) -> (r: Self)
        ensures
            r.c == self.c,
    {
        JacobiRotation { c: self.c, s: self.s.faer_neg() }
    }

    /// The composition of two rotations.
    pub fn compose(self, rhs: Self) -> Self {
        JacobiRotation {
            c: self.c.faer_mul(rhs.c).faer_sub(self.s.faer_mul(rhs.s)),
            s: self.c.faer_mul(rhs.s).faer_add(self.s.faer_mul(rhs.c)),
        }
    }
}

/// The pair of rotations that diagonalizes a general two-by-two matrix from
/// both sides: a closed-form symmetric Schur decomposition.
fn compute_2x2<E: RealField>(
    m00: E,
    m01: E,
    m10: E,
    m11: E,
) -> (JacobiRotation<E>, JacobiRotation<E>) {
    let t = m00.faer_add(m11);
    let d = m10.faer_sub(m01);

    let rot1 = if d.faer_is_zero() {
        JacobiRotation { c: E::faer_one(), s: E::faer_zero() }
    } else {
        let u = t.faer_mul(d.faer_inv());
        let tmp = E::faer_one().faer_add(u.faer_mul(u)).faer_sqrt().faer_inv();
        let tmp = if tmp.faer_is_zero() {
            u.faer_abs().faer_inv()
        } else {
            tmp
        };
        JacobiRotation { c: u.faer_mul(tmp), s: tmp }
    };
    let (r00, r01, _, r11) = rot1.apply_on_the_left_2x2(m00, m01, m10, m11);
    let j_right = JacobiRotation::from_triplet(r00, r01, r11);
    let j_left = rot1.compose(j_right.transpose());

    (j_left, j_right)
}

/// Which boundary column of the matrix is excluded from the decomposition, for
/// the deflation sub-cases of the bidiagonal pipeline.
#[derive(Copy, Clone, PartialEq, Eq, Structural, Debug)]
pub enum Skip {
    /// Every column takes part.
    Neither,
    /// The first column is skipped.
    First,
    /// The last column is skipped.
    Last,
}

/// The cap on the number of cyclic sweeps.
fn max_sweeps() -> (r: usize)
    ensures
        r == 30,
{
    30
}

/// Diagonalizes a square matrix by cyclic two-sided Jacobi rotations until
/// every off diagonal pair falls under `2 · epsilon · max_diag`, floored by
/// the absolute threshold; the diagonal is then made nonnegative (flipping the
/// matching column of `u`) and sorted descending, with the matching column
/// exchanges applied to `u` and `v`. Returns the number of nonzero singular
/// values. A matrix with zero columns stands for a factor that is not wanted:
/// `u` must be square of the same dimension as `matrix` or empty, and `v` must
/// have as many rows as its columns span.
///
/// Reports a convergence failure when the sweep cap is exhausted before every
/// off diagonal pair has settled.
pub fn jacobi_svd<E: RealField>(
    matrix: &mut Mat<E>,
    u: &mut Mat<E>,
    v: &mut Mat<E>,
    skip: Skip,
    epsilon: E,
    consider_zero_threshold: E,
) -> (nnz: Result<usize, crate::SvdError>)
    requires
        old(matrix).wf(),
        old(u).wf(),
        old(v).wf(),
        old(matrix).spec_nrows() == old(matrix).spec_ncols(),
        old(u).spec_ncols() != 0 ==> old(u).spec_nrows() == old(matrix).spec_nrows() && old(
            u,
        ).spec_ncols() == old(matrix).spec_nrows(),
        old(v).spec_ncols() != 0 ==> old(v).spec_ncols() == old(matrix).spec_nrows() && (match skip {
            Skip::First => old(v).spec_nrows() == old(matrix).spec_nrows() - 1,
            _ => old(v).spec_nrows() == old(matrix).spec_nrows(),
        }),
        skip == Skip::First || skip == Skip::Last ==> old(matrix).spec_nrows() >= 1,
    ensures
        final(matrix).wf(),
        final(matrix).same_shape(old(matrix)),
        final(u).wf(),
        final(u).same_shape(old(u)),
        final(v).wf(),
        final(v).same_shape(old(v)),
        nnz matches Ok(count) ==> count <= old(matrix).spec_nrows(),
        old(matrix).spec_nrows() == 0 ==> nnz is Ok,
{
    let n = matrix.nrows();
    let want_u = u.ncols() != 0;
    let want_v = v.ncols() != 0;

    if want_u {
        let eye = Mat::identity(n, n);
        u.copy_from(&eye);
    }

    if want_v {
        // The skipped first column is zeroed; the active block starts past it.
        let vm = v.nrows();
        let start = match skip {
            Skip::First => 1,
            _ => 0,
        };
        v.fill_zero();
        let mut d: usize = 0;
        while d < vm && d + start < n
            invariant
                v.wf(),
                v.same_shape(old(v)),
                v.spec_nrows() == vm,
                start <= 1,
                start + n >= n,
                d <= vm,
                v.spec_ncols() == old(v).spec_ncols(),
                old(v).spec_ncols() != 0 ==> v.spec_ncols() == n,
            decreases vm - d,
        {
            if d + start < v.ncols() {
                v.write(d, d + start, E::faer_one());
            }
            d += 1;
        }
    }

    let mut max_diag = E::faer_zero();
    let mut d2: usize = 0;
    while d2 < n
        invariant
            matrix.wf(),
            matrix.spec_nrows() == n,
            matrix.spec_ncols() == n,
            d2 <= n,
        decreases n - d2,
    {
        max_diag = real_max(max_diag, matrix.read(d2, d2).faer_abs());
        d2 += 1;
    }

    let two = E::faer_from_u64(2);
    let precision = epsilon.faer_mul(two);

    let cap = max_sweeps();
    let mut converged = false;
    let mut sweep: usize = 0;
    while sweep < cap
        invariant
            matrix.wf(),
            matrix.spec_nrows() == n,
            matrix.spec_ncols() == n,
            u.wf(),
            u.same_shape(old(u)),
            v.wf(),
            v.same_shape(old(v)),
            want_u ==> u.spec_nrows() == n && u.spec_ncols() == n,
            want_v ==> v.spec_ncols() == n,
            sweep <= cap,
        decreases cap - sweep,
    {
        let mut failed = false;
        let mut p: usize = 1;
        while p < n
            invariant
                matrix.wf(),
                matrix.spec_nrows() == n,
                matrix.spec_ncols() == n,
                u.wf(),
                u.same_shape(old(u)),
                v.wf(),
                v.same_shape(old(v)),
                want_u ==> u.spec_nrows() == n && u.spec_ncols() == n,
                want_v ==> v.spec_ncols() == n,
                1 <= p || n == 0,
                p <= n || p == 1,
            decreases n - p,
        {
            let mut q: usize = 0;
            while q < p
                invariant
                    matrix.wf(),
                    matrix.spec_nrows() == n,
                    matrix.spec_ncols() == n,
                    u.wf(),
                    u.same_shape(old(u)),
                    v.wf(),
                    v.same_shape(old(v)),
                    want_u ==> u.spec_nrows() == n && u.spec_ncols() == n,
                    want_v ==> v.spec_ncols() == n,
                    p < n,
                    q <= p,
                decreases p - q,
            {
                let threshold = real_max(precision.faer_mul(max_diag), consider_zero_threshold);

                if matrix.read(p, q).faer_abs().faer_gt(threshold) || matrix.read(
                    q,
                    p,
                ).faer_abs().faer_gt(threshold) {
                    failed = true;
                    let (j_left, j_right) = compute_2x2(
                        matrix.read(p, p),
                        matrix.read(p, q),
                        matrix.read(q, p),
                        matrix.read(q, q),
                    );

                    j_left.apply_on_the_left_in_place(matrix, p, q);
                    j_right.apply_on_the_right_in_place(matrix, p, q);

                    if want_u {
                        j_left.transpose().apply_on_the_right_in_place(u, p, q);
                    }
                    if want_v {
                        j_right.apply_on_the_right_in_place(v, p, q);
                    }

                    max_diag = real_max(max_diag, matrix.read(p, p).faer_abs());
                    max_diag = real_max(max_diag, matrix.read(q, q).faer_abs());
                }
                q += 1;
            }
            p += 1;
        }
        if !failed {
            converged = true;
            break ;
        }
        sweep += 1;
    }
    if !converged && n > 0 {
        return Err(crate::SvdError);
    }

    // Make the diagonal nonnegative, flipping the matching column of `u`.
    let mut j: usize = 0;
    while j < n
        invariant
            matrix.wf(),
            matrix.spec_nrows() == n,
            matrix.spec_ncols() == n,
            u.wf(),
            u.same_shape(old(u)),
            want_u ==> u.spec_nrows() == n && u.spec_ncols() == n,
            j <= n,
        decreases n - j,
    {
        let d = matrix.read(j, j);
        if E::faer_zero().faer_gt(d) {
            matrix.write(j, j, d.faer_neg());
            if want_u {
                let mut i: usize = 0;
                while i < n
                    invariant
                        u.wf(),
                        u.same_shape(old(u)),
                        u.spec_nrows() == n,
                        u.spec_ncols() == n,
                        j < n,
                        i <= n,
                    decreases n - i,
                {
                    let x = u.read(i, j).faer_neg();
                    u.write(i, j, x);
                    i += 1;
                }
            }
        }
        j += 1;
    }

    // Sort the singular values descending and count the nonzero ones, with
    // paired column exchanges in the factors. The skipped boundary column is
    // left out of the sorted range.
    let (start, new_n) = match skip {
        Skip::Neither => (0usize, n),
        Skip::First => (1usize, n - 1),
        Skip::Last => (0usize, n - 1),
    };

    let mut nnz_count = new_n;
    let mut i: usize = 0;
    while i < new_n
        invariant
            matrix.wf(),
            matrix.spec_nrows() == n,
            matrix.spec_ncols() == n,
            u.wf(),
            u.same_shape(old(u)),
            v.wf(),
            v.same_shape(old(v)),
            want_u ==> u.spec_nrows() == n && u.spec_ncols() == n,
            want_v ==> v.spec_ncols() == n,
            start + new_n <= n,
            i <= new_n,
            nnz_count <= new_n,
        decreases new_n - i,
    {
        let mut largest_elem = E::faer_zero();
        let mut largest_pos = i;

        let mut j2: usize = i;
        while j2 < new_n
            invariant
                matrix.wf(),
                matrix.spec_nrows() == n,
                matrix.spec_ncols() == n,
                start + new_n <= n,
                i <= j2,
                j2 <= new_n,
                i <= largest_pos,
                largest_pos < new_n || largest_pos == i,
            decreases new_n - j2,
        {
            let mjj = matrix.read(start + j2, start + j2);
            if mjj.faer_gt(largest_elem) {
                largest_elem = mjj;
                largest_pos = j2;
            }
            j2 += 1;
        }

        if largest_elem.faer_is_zero() && nnz_count > i {
            nnz_count = i;
        }

        if largest_pos > i {
            let mii = matrix.read(start + i, start + i);
            matrix.write(start + i, start + i, largest_elem);
            matrix.write(start + largest_pos, start + largest_pos, mii);
            if want_u {
                swap_cols(u, start + i, start + largest_pos);
            }
            if want_v {
                swap_cols(v, start + i, start + largest_pos);
            }
        }
        i += 1;
    }
    Ok(nnz_count)
}

} // verus!
