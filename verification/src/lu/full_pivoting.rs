//! LU factorization with full pivoting: both a row and a column permutation
//! bring the entry of largest modulus of the trailing block onto the diagonal
//! at every step.

use vstd::prelude::*;
use crate::mat::Mat;
use crate::perm::{swap_cols, swap_rows, Perm};
use crate::scalar::ComplexField;
use crate::Parallelism;

verus! {

/// The position of the entry of largest modulus, or `None` for an empty
/// matrix.
fn largest_entry<E: ComplexField>(a: &Mat<E>) -> (r: Option<(usize, usize)>)
    requires
        a.wf(),
    ensures
        r matches Some(t) ==> t.0 < a.spec_nrows() && t.1 < a.spec_ncols(),
{
    let m = a.nrows();
    let n = a.ncols();
    if m == 0 || n == 0 {
        return None;
    }
    let mut best_row: usize = 0;
    let mut best_col: usize = 0;
    let mut best = E::faer_zero();
    let mut j: usize = 0;
    while j < n
        invariant
            a.wf(),
            a.spec_nrows() == m,
            a.spec_ncols() == n,
            m > 0,
            n > 0,
            j <= n,
            best_row < m,
            best_col < n,
        decreases n - j,
    {
        let mut i: usize = 0;
        while i < m
            invariant
                a.wf(),
                a.spec_nrows() == m,
                a.spec_ncols() == n,
                m > 0,
                n > 0,
                j < n,
                i <= m,
                best_row < m,
                best_col < n,
            decreases m - i,
        {
            let v = a.read(i, j).faer_abs();
            if v.faer_gt(best) {
                best = v;
                best_row = i;
                best_col = j;
            }
            i += 1;
        }
        j += 1;
    }
    Some((best_row, best_col))
}

/// Computes the fully pivoted LU factorization of `matrix` in place, returning
/// the row permutation and the column permutation: gathering the rows and the
/// columns of the original matrix through them gives the matrix that `L U`
/// reconstructs.
pub fn lu_in_place<E: ComplexField>(
    matrix: &mut Mat<E>,
    parallelism: Parallelism,
) -> (perms: (Perm, Perm))
    requires
        old(matrix).wf(),
    ensures
        final(matrix).wf(),
        final(matrix).same_shape(old(matrix)),
        perms.0.wf(),
        perms.0.spec_len() == old(matrix).spec_nrows(),
        perms.1.wf(),
        perms.1.spec_len() == old(matrix).spec_ncols(),
{
    let _ = parallelism;
    let m = matrix.nrows();
    let n = matrix.ncols();
    let size = if m < n {
        m
    } else {
        n
    };

    let mut row_perm = Perm::identity(m);
    let mut col_perm = Perm::identity(n);

    let mut k: usize = 0;
    while k < size
        invariant
            matrix.wf(),
            matrix.same_shape(old(matrix)),
            matrix.spec_nrows() == m,
            matrix.spec_ncols() == n,
            size <= m,
            size <= n,
            row_perm.wf(),
            row_perm.spec_len() == m,
            col_perm.wf(),
            col_perm.spec_len() == n,
            k <= size,
        decreases size - k,
    {
        // Select the pivot over the whole trailing block.
        let mut imax = k;
        let mut jmax = k;
        let trailing = matrix.submatrix(k, k, m - k, n - k);
        if let Some((bi, bj)) = largest_entry(&trailing) {
            imax = k + bi;
            jmax = k + bj;
        }

        if imax != k {
            swap_rows(matrix, k, imax);
            row_perm.swap(k, imax);
        }
        if jmax != k {
            swap_cols(matrix, k, jmax);
            col_perm.swap(k, jmax);
        }

        let pivot = matrix.read(k, k);
        if !pivot.faer_is_zero() {
            let pivot_inv = pivot.faer_inv();
            let mut i2: usize = k + 1;
            while i2 < m
                invariant
                    matrix.wf(),
                    matrix.spec_nrows() == m,
                    matrix.spec_ncols() == n,
                    k < size,
                    size <= m,
                    size <= n,
                    k + 1 <= i2,
                    i2 <= m || i2 == k + 1,
                decreases m - i2,
            {
                let v = matrix.read(i2, k).faer_mul(pivot_inv);
                matrix.write(i2, k, v);
                i2 += 1;
            }
            let mut j2: usize = k + 1;
            while j2 < n
                invariant
                    matrix.wf(),
                    matrix.spec_nrows() == m,
                    matrix.spec_ncols() == n,
                    k < size,
                    size <= m,
                    size <= n,
                    k + 1 <= j2,
                    j2 <= n || j2 == k + 1,
                decreases n - j2,
            {
                let ukj = matrix.read(k, j2);
                let mut i3: usize = k + 1;
                while i3 < m
                    invariant
                        matrix.wf(),
                        matrix.spec_nrows() == m,
                        matrix.spec_ncols() == n,
                        k < size,
                        size <= m,
                        size <= n,
                        j2 < n,
                        k + 1 <= i3,
                        i3 <= m || i3 == k + 1,
                    decreases m - i3,
                {
                    let v = matrix.read(i3, j2).faer_sub(matrix.read(i3, k).faer_mul(ukj));
                    matrix.write(i3, j2, v);
                    i3 += 1;
                }
                j2 += 1;
            }
        }
        k += 1;
    }
    (row_perm, col_perm)
}

} // verus!
