//! LU factorization with partial pivoting: `A = P⁻¹ L U` over the rows, with
//! `L` unit lower triangular and `U` upper triangular, both stored in place.

use vstd::prelude::*;
use crate::mat::Mat;
use crate::perm::{swap_rows, Perm};
use crate::scalar::ComplexField;
use crate::Parallelism;

verus! {

/// Computes the row-pivoted LU factorization of `matrix` in place: at each
/// step the entry of largest modulus in the current column at or below the
/// diagonal becomes the pivot, its row is exchanged with the current one, the
/// column below the pivot is divided by it, and the trailing block is
/// downdated by their outer product. The exchanges are folded into the
/// returned permutation: gathering the rows of the original matrix through it
/// gives the matrix that `L U` reconstructs.
pub fn lu_in_place<E: ComplexField>(
    matrix: &mut Mat<E>,
    parallelism: Parallelism,
) -> (row_perm: Perm)
    requires
        old(matrix).wf(),
    ensures
        final(matrix).wf(),
        final(matrix).same_shape(old(matrix)),
        row_perm.wf(),
        row_perm.spec_len() == old(matrix).spec_nrows(),
{
    let _ = parallelism;
    let m = matrix.nrows();
    let n = matrix.ncols();
    let size = if m < n {
        m
    } else {
        n
    };

    let mut perm = Perm::identity(m);

    let mut k: usize = 0;
    while k < size
        invariant
            matrix.wf(),
            matrix.same_shape(old(matrix)),
            matrix.spec_nrows() == m,
            matrix.spec_ncols() == n,
            size <= m,
            size <= n,
            perm.wf(),
            perm.spec_len() == m,
            k <= size,
        decreases size - k,
    {
        // Select the pivot row.
        let mut imax = k;
        let mut best = E::faer_zero();
        let mut i: usize = k;
        while i < m
            invariant
                matrix.wf(),
                matrix.spec_nrows() == m,
                matrix.spec_ncols() == n,
                k < size,
                size <= m,
                size <= n,
                k <= i,
                i <= m,
                k <= imax < m,
            decreases m - i,
        {
            let v = matrix.read(i, k).faer_abs();
            if v.faer_gt(best) {
                best = v;
                imax = i;
            }
            i += 1;
        }
        if imax != k {
            swap_rows(matrix, k, imax);
            perm.swap(k, imax);
        }

        let pivot = matrix.read(k, k);
        if !pivot.faer_is_zero() {
            let pivot_inv = pivot.faer_inv();
            let mut i2: usize = k + 1;
            while i2 < m
                invariant
                    matrix.wf(),
                    matrix.spec_nrows() == m,
                    matrix.spec_ncols() == n,
                    k < size,
                    size <= m,
                    size <= n,
                    k + 1 <= i2,
                    i2 <= m || i2 == k + 1,
                decreases m - i2,
            {
                let v = matrix.read(i2, k).faer_mul(pivot_inv);
                matrix.write(i2, k, v);
                i2 += 1;
            }
            // Downdate the trailing block.
            let mut j: usize = k + 1;
            while j < n
                invariant
                    matrix.wf(),
                    matrix.spec_nrows() == m,
                    matrix.spec_ncols() == n,
                    k < size,
                    size <= m,
                    size <= n,
                    k + 1 <= j,
                    j <= n || j == k + 1,
                decreases n - j,
            {
                let ukj = matrix.read(k, j);
                let mut i3: usize = k + 1;
                while i3 < m
                    invariant
                        matrix.wf(),
                        matrix.spec_nrows() == m,
                        matrix.spec_ncols() == n,
                        k < size,
                        size <= m,
                        size <= n,
                        j < n,
                        k + 1 <= i3,
                        i3 <= m || i3 == k + 1,
                    decreases m - i3,
                {
                    let v = matrix.read(i3, j).faer_sub(matrix.read(i3, k).faer_mul(ukj));
                    matrix.write(i3, j, v);
                    i3 += 1;
                }
                j += 1;
            }
        }
        k += 1;
    }
    perm
}

} // verus!
