//! Computes the column-pivoted QR factorization in place: at each step the
//! trailing column of largest norm is brought to the front before the
//! reflector is computed, and the exchanges are returned as a permutation.

use vstd::prelude::*;
use crate::mat::Mat;
use crate::perm::{swap_cols, Perm};
use crate::qr::no_pivoting::compute::{qr_step, upgrade_factor_blocks};
use crate::scalar::ComplexField;
use crate::stack::{MemStack, SizeOverflow, StackReq};
use crate::Parallelism;

verus! {

/// Tuning parameters of the factorization.
#[derive(Default, Copy, Clone)]
#[non_exhaustive]
pub struct ColPivQrComputeParams {}

/// The scratch requirement of [`qr_in_place`]: the factorization works
/// entirely in place.
pub fn qr_in_place_req(
    nrows: usize,
    ncols: usize,
    blocksize: usize,
) -> (r: Result<StackReq, SizeOverflow>)
    ensures
        r is Ok,
        r->Ok_0.spec_size() == 0,
{
    let _ = nrows;
    let _ = ncols;
    let _ = blocksize;
    Ok(StackReq::empty())
}

/// Computes the column-pivoted QR factorization of `matrix` in place, exactly
/// as the unpivoted kernel does, except that before each reflector the
/// trailing column of largest squared norm is exchanged with the current one;
/// the exchanges are folded into the returned permutation.
pub fn qr_in_place<E: ComplexField>(
    matrix: &mut Mat<E>,
    householder_factor: &mut Mat<E>,
    parallelism: Parallelism,
    stack: &mut MemStack<E>,
    params: ColPivQrComputeParams,
) -> (col_perm: Perm)
    requires
        old(matrix).wf(),
        old(householder_factor).wf(),
        old(householder_factor).spec_nrows() >= 1,
        old(householder_factor).spec_ncols() == vstd::math::min(
            old(matrix).spec_nrows() as int,
            old(matrix).spec_ncols() as int,
        ),
    ensures
        final(matrix).wf(),
        final(matrix).same_shape(old(matrix)),
        final(householder_factor).wf(),
        final(householder_factor).same_shape(old(householder_factor)),
        final(stack).spec_len() == old(stack).spec_len(),
        col_perm.wf(),
        col_perm.spec_len() == old(matrix).spec_ncols(),
{
    let _ = params;
    let _ = stack;
    let m = matrix.nrows();
    let n = matrix.ncols();
    let size = if m < n {
        m
    } else {
        n
    };

    let mut perm = Perm::identity(n);

    let mut k: usize = 0;
    while k < size
        invariant
            matrix.wf(),
            matrix.same_shape(old(matrix)),
            householder_factor.wf(),
            householder_factor.same_shape(old(householder_factor)),
            matrix.spec_nrows() == m,
            matrix.spec_ncols() == n,
            householder_factor.spec_nrows() >= 1,
            householder_factor.spec_ncols() == size,
            size <= m,
            size <= n,
            perm.wf(),
            perm.spec_len() == n,
            k <= size,
        decreases size - k,
    {
        // Bring the trailing column of largest squared norm to the front.
        let mut best_col = k;
        let mut best_norm = E::faer_zero();
        let mut j: usize = k;
        while j < n
            invariant
                matrix.wf(),
                matrix.spec_nrows() == m,
                matrix.spec_ncols() == n,
                k < size,
                size <= m,
                size <= n,
                k <= j,
                j <= n,
                k <= best_col < n,
            decreases n - j,
        {
            let mut norm = E::faer_zero();
            let mut i: usize = k;
            while i < m
                invariant
                    matrix.wf(),
                    matrix.spec_nrows() == m,
                    matrix.spec_ncols() == n,
                    k < size,
                    size <= m,
                    j < n,
                    k <= i,
                    i <= m,
                decreases m - i,
            {
                norm = norm.faer_add(matrix.read(i, j).faer_abs2());
                i += 1;
            }
            if norm.faer_gt(best_norm) {
                best_norm = norm;
                best_col = j;
            }
            j += 1;
        }
        if best_col != k {
            swap_cols(matrix, k, best_col);
            perm.swap(k, best_col);
        }

        qr_step(matrix, householder_factor, k);
        k += 1;
    }

    upgrade_factor_blocks(matrix, householder_factor, parallelism);
    perm
}

} // verus!
