//! Inverts a square matrix from its QR factorization: the inverse of `R`
//! against the identity, followed by the adjoint of the reflector sequence
//! applied from the right.

use vstd::prelude::*;
use crate::householder::apply_block_householder_sequence_transpose_on_the_right_in_place_with_conj;
use crate::inverse::invert_upper_triangular;
use crate::mat::Mat;
use crate::scalar::ComplexField;
use crate::stack::{MemStack, SizeOverflow, StackReq, temp_mat_req};
use crate::{Conj, Parallelism};

verus! {

/// Computes the inverse of the matrix whose QR factorization is given by
/// `qr_factors` and `householder_factor`, and stores it in `dst`.
pub fn invert<E: ComplexField>(
    dst: &mut Mat<E>,
    qr_factors: &Mat<E>,
    householder_factor: &Mat<E>,
    parallelism: Parallelism,
    stack: &mut MemStack<E>,
)
    requires
        old(dst).wf(),
        qr_factors.wf(),
        householder_factor.wf(),
        qr_factors.spec_nrows() == qr_factors.spec_ncols(),
        old(dst).spec_nrows() == qr_factors.spec_nrows(),
        old(dst).spec_ncols() == qr_factors.spec_ncols(),
        householder_factor.spec_nrows() >= 1,
        householder_factor.spec_ncols() == qr_factors.spec_ncols(),
        householder_factor.spec_nrows() * old(dst).spec_nrows() <= old(stack).spec_len(),
    ensures
        final(dst).wf(),
        final(dst).same_shape(old(dst)),
        final(stack).spec_len() == old(stack).spec_len(),
{
    // dst = R⁻¹
    invert_upper_triangular(dst, qr_factors, Conj::No, parallelism);

    // Zero the strictly lower half.
    let n = dst.nrows();
    let mut j: usize = 0;
    while j < n
        invariant
            dst.wf(),
            dst.same_shape(old(dst)),
            dst.spec_nrows() == n,
            dst.spec_ncols() == n,
            j <= n,
        decreases n - j,
    {
        let mut i: usize = j + 1;
        while i < n
            invariant
                dst.wf(),
                dst.same_shape(old(dst)),
                dst.spec_nrows() == n,
                dst.spec_ncols() == n,
                j < n,
                j + 1 <= i,
                i <= n || i == j + 1,
            decreases n - i,
        {
            dst.write(i, j, E::faer_zero());
            i += 1;
        }
        j += 1;
    }

    // dst = R⁻¹ × Qᴴ
    apply_block_householder_sequence_transpose_on_the_right_in_place_with_conj(
        qr_factors,
        householder_factor,
        Conj::Yes,
        dst,
        parallelism,
        stack,
    );
}

/// Computes the inverse of the matrix whose QR factorization is given by
/// `qr_factors` and `householder_factor`, and stores it back over the
/// factorization.
pub fn invert_in_place<E: ComplexField>(
    qr_factors: &mut Mat<E>,
    householder_factor: &Mat<E>,
    parallelism: Parallelism,
    stack: &mut MemStack<E>,
)
    requires
        old(qr_factors).wf(),
        householder_factor.wf(),
        old(qr_factors).spec_nrows() == old(qr_factors).spec_ncols(),
        householder_factor.spec_nrows() >= 1,
        householder_factor.spec_ncols() == old(qr_factors).spec_ncols(),
        old(qr_factors).spec_nrows() * old(qr_factors).spec_ncols()
            + householder_factor.spec_nrows() * old(qr_factors).spec_nrows() <= old(
            stack,
        ).spec_len(),
    ensures
        final(qr_factors).wf(),
        final(qr_factors).same_shape(old(qr_factors)),
        final(stack).spec_len() == old(stack).spec_len(),
{
    let m = qr_factors.nrows();
    let n = qr_factors.ncols();
    let mut dst = stack.make_temp_mat(m, n);
    invert(&mut dst, qr_factors, householder_factor, parallelism, stack);
    qr_factors.copy_from(&dst);
    stack.give_back_mat(dst);
}

/// The scratch requirement of [`invert`].
pub fn invert_req(
    qr_nrows: usize,
    qr_ncols: usize,
    blocksize: usize,
) -> (r: Result<StackReq, SizeOverflow>)
    ensures
        r is Ok <==> blocksize * qr_ncols <= usize::MAX,
        r is Ok ==> r->Ok_0.spec_size() == blocksize * qr_ncols,
{
    let _ = qr_nrows;
    temp_mat_req(blocksize, qr_ncols)
}

/// The scratch requirement of [`invert_in_place`].
pub fn invert_in_place_req(
    qr_nrows: usize,
    qr_ncols: usize,
    blocksize: usize,
) -> (r: Result<StackReq, SizeOverflow>)
    ensures
        r is Ok ==> r->Ok_0.spec_size() == qr_nrows * qr_ncols + blocksize * qr_ncols,
{
    let a = match temp_mat_req(qr_nrows, qr_ncols) {
        Ok(a) => a,
        Err(e) => {
            return Err(e);
        },
    };
    let b = match invert_req(qr_nrows, qr_ncols, blocksize) {
        Ok(b) => b,
        Err(e) => {
            return Err(e);
        },
    };
    a.try_and(b)
}

} // verus!
