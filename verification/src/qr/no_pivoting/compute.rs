//! Computes the QR factorization in place: the factor `R` lands in the upper
//! triangle, the essential parts of the Householder reflectors land below the
//! diagonal, and the block factors of the reflector sequence land in a
//! separate matrix, computed reflector by reflector and then upgraded to the
//! requested block size.

use vstd::prelude::*;
use crate::householder::upgrade_householder_factor;
use crate::mat::Mat;
use crate::scalar::ComplexField;
use crate::stack::{MemStack, SizeOverflow, StackReq};
use crate::Parallelism;

verus! {

/// Tuning parameters of the factorization.
#[derive(Default, Copy, Clone)]
#[non_exhaustive]
pub struct QrComputeParams {}

/// The block size that the sequence factors are upgraded to for the given
/// dimensions, at the specification level.
pub open spec fn spec_recommended_blocksize(nrows: int, ncols: int) -> int {
    let size = if nrows < ncols {
        nrows
    } else {
        ncols
    };
    if size <= 4 {
        1
    } else if size <= 64 {
        4
    } else if size <= 256 {
        32
    } else {
        64
    }
}

/// The block size that the sequence factors are upgraded to for the given
/// dimensions.
pub fn recommended_blocksize(nrows: usize, ncols: usize) -> (r: usize)
    ensures
        r >= 1,
        r == spec_recommended_blocksize(nrows as int, ncols as int),
        r <= 64,
        r == 1 || (r <= nrows && r <= ncols),
{
    let size = if nrows < ncols {
        nrows
    } else {
        ncols
    };
    if size <= 4 {
        1
    } else if size <= 64 {
        4
    } else if size <= 256 {
        32
    } else {
        64
    }
}

/// The scratch requirement of [`qr_in_place`]: the factorization works
/// entirely in place.
pub fn qr_in_place_req(
    nrows: usize,
    ncols: usize,
    blocksize: usize,
) -> (r: Result<StackReq, SizeOverflow>)
    ensures
        r is Ok,
        r->Ok_0.spec_size() == 0,
{
    let _ = nrows;
    let _ = ncols;
    let _ = blocksize;
    Ok(StackReq::empty())
}

/// One Householder step of the factorization: computes the reflector of column
/// `k` of `matrix`, stores it in place, records its factor in row zero of the
/// block factors, and applies the reflection to the trailing columns.
pub(crate) fn qr_step<E: ComplexField>(
    matrix: &mut Mat<E>,
    householder_factor: &mut Mat<E>,
    k: usize,
)
    requires
        old(matrix).wf(),
        old(householder_factor).wf(),
        k < old(matrix).spec_nrows(),
        k < old(matrix).spec_ncols(),
        old(householder_factor).spec_nrows() >= 1,
        k < old(householder_factor).spec_ncols(),
    ensures
        final(matrix).wf(),
        final(matrix).same_shape(old(matrix)),
        final(householder_factor).wf(),
        final(householder_factor).same_shape(old(householder_factor)),
{
    let m = matrix.nrows();
    let n = matrix.ncols();

    let mut tail_squared_norm = E::faer_zero();
    let mut i: usize = k + 1;
    while i < m
        invariant
            matrix.wf(),
            matrix.spec_nrows() == m,
            matrix.spec_ncols() == n,
            k < m,
            k < n,
            k + 1 <= i,
            i <= m || i == k + 1,
        decreases m - i,
    {
        tail_squared_norm = tail_squared_norm.faer_add(matrix.read(i, k).faer_abs2());
        i += 1;
    }

    let head = matrix.read(k, k);
    let mut essential = matrix.submatrix(k + 1, k, m - k - 1, 1);
    let (tau, beta) = crate::householder::make_householder_in_place(
        &mut essential,
        head,
        tail_squared_norm,
    );
    matrix.write(k, k, beta);
    matrix.write_block(k + 1, k, &essential);
    householder_factor.write(0, k, tau);

    // Apply the reflection to the trailing columns.
    let tau_inv = tau.faer_inv();
    let mut j: usize = k + 1;
    while j < n
        invariant
            matrix.wf(),
            matrix.spec_nrows() == m,
            matrix.spec_ncols() == n,
            k < m,
            k < n,
            k + 1 <= j,
            j <= n || j == k + 1,
        decreases n - j,
    {
        let mut dot = matrix.read(k, j);
        let mut i2: usize = k + 1;
        while i2 < m
            invariant
                matrix.wf(),
                matrix.spec_nrows() == m,
                matrix.spec_ncols() == n,
                k < m,
                k < n,
                j < n,
                k + 1 <= i2,
                i2 <= m || i2 == k + 1,
            decreases m - i2,
        {
            dot = dot.faer_add(matrix.read(i2, k).faer_conj().faer_mul(matrix.read(i2, j)));
            i2 += 1;
        }
        let f = dot.faer_mul(tau_inv);
        let vk = matrix.read(k, j).faer_sub(f);
        matrix.write(k, j, vk);
        let mut i3: usize = k + 1;
        while i3 < m
            invariant
                matrix.wf(),
                matrix.spec_nrows() == m,
                matrix.spec_ncols() == n,
                k < m,
                k < n,
                j < n,
                k + 1 <= i3,
                i3 <= m || i3 == k + 1,
            decreases m - i3,
        {
            let v = matrix.read(i3, j).faer_sub(matrix.read(i3, k).faer_mul(f));
            matrix.write(i3, j, v);
            i3 += 1;
        }
        j += 1;
    }
}

/// Upgrades the reflector-by-reflector factors in row zero of the block
/// factors to upper triangular factors of the requested block size, one block
/// at a time.
pub(crate) fn upgrade_factor_blocks<E: ComplexField>(
    matrix: &Mat<E>,
    householder_factor: &mut Mat<E>,
    parallelism: Parallelism,
)
    requires
        matrix.wf(),
        old(householder_factor).wf(),
        old(householder_factor).spec_nrows() >= 1,
        old(householder_factor).spec_ncols() <= matrix.spec_nrows(),
        old(householder_factor).spec_ncols() <= matrix.spec_ncols(),
    ensures
        final(householder_factor).wf(),
        final(householder_factor).same_shape(old(householder_factor)),
{
    let m = matrix.nrows();
    let blocksize = householder_factor.nrows();
    let size = householder_factor.ncols();

    let mut j_base: usize = 0;
    while j_base < size
        invariant
            matrix.wf(),
            householder_factor.wf(),
            householder_factor.same_shape(old(householder_factor)),
            householder_factor.spec_nrows() == blocksize,
            householder_factor.spec_ncols() == size,
            blocksize >= 1,
            size <= m,
            size <= matrix.spec_ncols(),
            matrix.spec_nrows() == m,
            j_base <= size,
        decreases size - j_base,
    {
        let bs = if blocksize < size - j_base {
            blocksize
        } else {
            size - j_base
        };
        let mut block = householder_factor.submatrix(0, j_base, bs, bs);
        let mut d: usize = 0;
        while d < bs
            invariant
                block.wf(),
                block.spec_nrows() == bs,
                block.spec_ncols() == bs,
                d <= bs,
            decreases bs - d,
        {
            let t = block.read(0, d);
            block.write(d, d, t);
            d += 1;
        }
        let essentials = matrix.submatrix(j_base, j_base, m - j_base, bs);
        upgrade_householder_factor(&mut block, &essentials, bs, 1, parallelism);
        householder_factor.write_block(0, j_base, &block);
        j_base += bs;
    }
}

/// Computes the QR factorization of `matrix` in place: `R` in the upper
/// triangle, the reflector basis below the diagonal, and the upgraded block
/// factors of the sequence in `householder_factor`, whose row count is the
/// block size and whose column count is the number of reflectors.
pub fn qr_in_place<E: ComplexField>(
    matrix: &mut Mat<E>,
    householder_factor: &mut Mat<E>,
    parallelism: Parallelism,
    stack: &mut MemStack<E>,
    params: QrComputeParams,
)
    requires
        old(matrix).wf(),
        old(householder_factor).wf(),
        old(householder_factor).spec_nrows() >= 1,
        old(householder_factor).spec_ncols() == vstd::math::min(
            old(matrix).spec_nrows() as int,
            old(matrix).spec_ncols() as int,
        ),
    ensures
        final(matrix).wf(),
        final(matrix).same_shape(old(matrix)),
        final(householder_factor).wf(),
        final(householder_factor).same_shape(old(householder_factor)),
        final(stack).spec_len() == old(stack).spec_len(),
{
    let _ = params;
    let _ = stack;
    let m = matrix.nrows();
    let n = matrix.ncols();
    let size = if m < n {
        m
    } else {
        n
    };

    let mut k: usize = 0;
    while k < size
        invariant
            matrix.wf(),
            matrix.same_shape(old(matrix)),
            householder_factor.wf(),
            householder_factor.same_shape(old(householder_factor)),
            matrix.spec_nrows() == m,
            matrix.spec_ncols() == n,
            householder_factor.spec_nrows() >= 1,
            householder_factor.spec_ncols() == size,
            size <= m,
            size <= n,
            k <= size,
        decreases size - k,
    {
        qr_step(matrix, householder_factor, k);
        k += 1;
    }

    upgrade_factor_blocks(matrix, householder_factor, parallelism);
}

} // verus!
