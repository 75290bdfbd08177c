//! The singular value decomposition of a real bidiagonal matrix, used as the
//! inner building block of the large-matrix pipeline: the bidiagonal matrix is
//! materialized densely and diagonalized by the two-sided Jacobi iteration,
//! which also serves as the fallback for sub-problems at or under the fallback
//! threshold.

use vstd::prelude::*;
use crate::jacobi::{jacobi_svd, Skip};
use crate::mat::Mat;
use crate::scalar::{ComplexField, RealField};
use crate::{Parallelism, SvdError};

verus! {

/// Computes the singular value decomposition of the upper bidiagonal matrix
/// with the given diagonal and superdiagonal. The singular values land in
/// `diag` in descending order; when `u` (respectively `v`) has columns, the
/// left (respectively right) singular vectors land in its columns. The square
/// working matrix `dense` must have the bidiagonal dimension. Reports a
/// convergence failure of the Jacobi iteration.
pub fn bidiag_svd<E: RealField>(
    diag: &mut Vec<E>,
    subdiag: &mut Vec<E>,
    dense: &mut Mat<E>,
    u: &mut Mat<E>,
    v: &mut Mat<E>,
    jacobi_fallback_threshold: usize,
    epsilon: E,
    zero_threshold: E,
    parallelism: Parallelism,
) -> (r: Result<(), SvdError>)
    requires
        old(dense).wf(),
        old(u).wf(),
        old(v).wf(),
        old(diag)@.len() == old(dense).spec_nrows(),
        old(subdiag)@.len() == old(dense).spec_nrows(),
        old(dense).spec_nrows() == old(dense).spec_ncols(),
        old(u).spec_ncols() != 0 ==> old(u).spec_nrows() == old(dense).spec_nrows() && old(
            u,
        ).spec_ncols() == old(dense).spec_nrows(),
        old(v).spec_ncols() != 0 ==> old(v).spec_nrows() == old(dense).spec_nrows() && old(
            v,
        ).spec_ncols() == old(dense).spec_nrows(),
    ensures
        final(diag)@.len() == old(diag)@.len(),
        final(subdiag)@.len() == old(subdiag)@.len(),
        final(dense).wf(),
        final(dense).same_shape(old(dense)),
        final(u).wf(),
        final(u).same_shape(old(u)),
        final(v).wf(),
        final(v).same_shape(old(v)),
{
    let _ = jacobi_fallback_threshold;
    let _ = parallelism;
    let n = dense.nrows();

    dense.fill_zero();
    let mut i: usize = 0;
    while i < n
        invariant
            dense.wf(),
            dense.same_shape(old(dense)),
            dense.spec_nrows() == n,
            dense.spec_ncols() == n,
            diag@.len() == n,
            subdiag@.len() == n,
            i <= n,
        decreases n - i,
    {
        dense.write(i, i, diag[i]);
        if i + 1 < n {
            dense.write(i, i + 1, subdiag[i]);
        }
        i += 1;
    }

    let res = jacobi_svd(dense, u, v, Skip::Neither, epsilon, zero_threshold);
    if let Err(e) = res {
        return Err(e);
    }

    let mut i2: usize = 0;
    while i2 < n
        invariant
            dense.wf(),
            dense.spec_nrows() == n,
            dense.spec_ncols() == n,
            diag@.len() == n,
            i2 <= n,
        decreases n - i2,
    {
        let d = dense.read(i2, i2);
        diag.set(i2, d);
        i2 += 1;
    }
    Ok(())
}

} // verus!
