//! Inverts a square matrix from its column-pivoted QR factorization: the
//! unpivoted inverse of the factors, followed by a gather of its rows through
//! the column permutation.

use vstd::prelude::*;
use crate::mat::Mat;
use crate::perm::{permute_rows, Perm};
use crate::scalar::ComplexField;
use crate::stack::{MemStack, SizeOverflow, StackReq, temp_mat_req};
use crate::Parallelism;

verus! {

/// Computes the inverse of the matrix whose column-pivoted QR factorization is
/// given by `qr_factors`, `householder_factor` and `col_perm`, and stores it
/// in `dst`.
pub fn invert<E: ComplexField>(
    dst: &mut Mat<E>,
    qr_factors: &Mat<E>,
    householder_factor: &Mat<E>,
    col_perm: &Perm,
    parallelism: Parallelism,
    stack: &mut MemStack<E>,
)
    requires
        old(dst).wf(),
        qr_factors.wf(),
        householder_factor.wf(),
        col_perm.wf(),
        qr_factors.spec_nrows() == qr_factors.spec_ncols(),
        old(dst).spec_nrows() == qr_factors.spec_nrows(),
        old(dst).spec_ncols() == qr_factors.spec_ncols(),
        householder_factor.spec_nrows() >= 1,
        householder_factor.spec_ncols() == qr_factors.spec_ncols(),
        col_perm.spec_len() == qr_factors.spec_nrows(),
        qr_factors.spec_nrows() * qr_factors.spec_ncols() + householder_factor.spec_nrows()
            * old(dst).spec_nrows() <= old(stack).spec_len(),
    ensures
        final(dst).wf(),
        final(dst).same_shape(old(dst)),
        final(stack).spec_len() == old(stack).spec_len(),
{
    let m = qr_factors.nrows();
    let n = qr_factors.ncols();
    let mut tmp = stack.make_temp_mat(m, n);
    crate::qr::no_pivoting::inverse::invert(
        &mut tmp,
        qr_factors,
        householder_factor,
        parallelism,
        stack,
    );
    // The inverse of the pivoted matrix gathers the rows of the unpivoted
    // inverse through the inverse of the column permutation.
    let inv = col_perm.inverse();
    permute_rows(dst, &tmp, &inv);
    stack.give_back_mat(tmp);
}

/// Computes the inverse of the matrix whose column-pivoted QR factorization is
/// given, and stores it back over the factorization.
pub fn invert_in_place<E: ComplexField>(
    qr_factors: &mut Mat<E>,
    householder_factor: &Mat<E>,
    col_perm: &Perm,
    parallelism: Parallelism,
    stack: &mut MemStack<E>,
)
    requires
        old(qr_factors).wf(),
        householder_factor.wf(),
        col_perm.wf(),
        old(qr_factors).spec_nrows() == old(qr_factors).spec_ncols(),
        householder_factor.spec_nrows() >= 1,
        householder_factor.spec_ncols() == old(qr_factors).spec_ncols(),
        col_perm.spec_len() == old(qr_factors).spec_nrows(),
        2 * (old(qr_factors).spec_nrows() * old(qr_factors).spec_ncols())
            + householder_factor.spec_nrows() * old(qr_factors).spec_nrows() <= old(
            stack,
        ).spec_len(),
    ensures
        final(qr_factors).wf(),
        final(qr_factors).same_shape(old(qr_factors)),
        final(stack).spec_len() == old(stack).spec_len(),
{
    let m = qr_factors.nrows();
    let n = qr_factors.ncols();
    let mut dst = stack.make_temp_mat(m, n);
    invert(&mut dst, qr_factors, householder_factor, col_perm, parallelism, stack);
    qr_factors.copy_from(&dst);
    stack.give_back_mat(dst);
}

/// The scratch requirement of [`invert`].
pub fn invert_req(
    qr_nrows: usize,
    qr_ncols: usize,
    blocksize: usize,
) -> (r: Result<StackReq, SizeOverflow>)
    ensures
        r is Ok ==> r->Ok_0.spec_size() == qr_nrows * qr_ncols + blocksize * qr_ncols,
{
    let a = match temp_mat_req(qr_nrows, qr_ncols) {
        Ok(a) => a,
        Err(e) => {
            return Err(e);
        },
    };
    let b = match temp_mat_req(blocksize, qr_ncols) {
        Ok(b) => b,
        Err(e) => {
            return Err(e);
        },
    };
    a.try_and(b)
}

/// The scratch requirement of [`invert_in_place`].
pub fn invert_in_place_req(
    qr_nrows: usize,
    qr_ncols: usize,
    blocksize: usize,
) -> (r: Result<StackReq, SizeOverflow>)
    ensures
        r is Ok ==> r->Ok_0.spec_size() == 2 * (qr_nrows * qr_ncols) + blocksize * qr_ncols,
{
    let a = match temp_mat_req(qr_nrows, qr_ncols) {
        Ok(a) => a,
        Err(e) => {
            return Err(e);
        },
    };
    let b = match invert_req(qr_nrows, qr_ncols, blocksize) {
        Ok(b) => b,
        Err(e) => {
            return Err(e);
        },
    };
    a.try_and(b)
}

} // verus!
