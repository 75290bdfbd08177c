//! Diagonal Cholesky factorization `A = L D Lᴴ` of a self-adjoint matrix,
//! with `L` unit lower triangular and `D` a real diagonal stored on the
//! diagonal of the factor.

use vstd::prelude::*;
use vstd::pervasive::VecAdditionalExecFns;
use crate::mat::Mat;
use crate::matmul::triangular;
use crate::matmul::triangular::BlockStructure;
use crate::scalar::ComplexField;
use crate::solve;
use crate::stack::{MemStack, SizeOverflow, StackReq, temp_mat_req};
use crate::{Conj, Parallelism};

verus! {

/// Tuning parameters of the factorization.
#[derive(Default, Copy, Clone)]
#[non_exhaustive]
pub struct LdltDiagParams {}

/// The scratch requirement of [`raw_cholesky_in_place`]: one temporary matrix
/// of the full dimension, which covers the panel-times-diagonal product of
/// every level of the recursion.
pub fn raw_cholesky_in_place_req(
    dim: usize,
    parallelism: Parallelism,
    params: LdltDiagParams,
) -> (r: Result<StackReq, SizeOverflow>)
    ensures
        r is Ok <==> dim * dim <= usize::MAX,
        r is Ok ==> r->Ok_0.spec_size() == dim * dim,
{
    let _ = parallelism;
    let _ = params;
    temp_mat_req(dim, dim)
}

/// The left-looking unblocked base case: the pivot is the diagonal entry minus
/// the inner product of the row prefix with itself weighted by the already
/// computed diagonal, and the column below the pivot is updated and divided by
/// the real part of the pivot.
fn cholesky_in_place_left_looking_impl<E: ComplexField>(
    matrix: &mut Mat<E>,
    parallelism: Parallelism,
)
    requires
        old(matrix).wf(),
        old(matrix).spec_nrows() == old(matrix).spec_ncols(),
    ensures
        final(matrix).wf(),
        final(matrix).same_shape(old(matrix)),
        forall|i: int, j: int|
            0 <= i < j < old(matrix).spec_nrows() ==> final(matrix).at(i, j) == old(
                matrix,
            ).at(i, j),
{
    let _ = parallelism;
    let n = matrix.nrows();

    let mut idx: usize = 0;
    while idx < n
        invariant
            matrix.wf(),
            matrix.spec_nrows() == n,
            matrix.spec_ncols() == n,
            idx <= n,
            forall|fi: int, fj: int|
                0 <= fi < fj < n ==> matrix.at(fi, fj) == old(matrix).at(fi, fj),
        decreases n - idx,
    {
        // The row prefix scaled by the computed diagonal: L10 × D0.
        let mut l10xd0: Vec<E> = Vec::new();
        let mut j: usize = 0;
        while j < idx
            invariant
                matrix.wf(),
                matrix.spec_nrows() == n,
                matrix.spec_ncols() == n,
                idx < n,
                j <= idx,
                l10xd0@.len() == j,
                forall|fi: int, fj: int|
                    0 <= fi < fj < n ==> matrix.at(fi, fj) == old(matrix).at(fi, fj),
            decreases idx - j,
        {
            l10xd0.push(matrix.read(idx, j).faer_mul(matrix.read(j, j)));
            j += 1;
        }

        // A11 -= (L10 × D0)ᴴ · L10
        let mut dot = E::faer_zero();
        let mut j2: usize = 0;
        while j2 < idx
            invariant
                matrix.wf(),
                matrix.spec_nrows() == n,
                matrix.spec_ncols() == n,
                idx < n,
                j2 <= idx,
                l10xd0@.len() == idx,
                forall|fi: int, fj: int|
                    0 <= fi < fj < n ==> matrix.at(fi, fj) == old(matrix).at(fi, fj),
            decreases idx - j2,
        {
            dot = dot.faer_add(l10xd0[j2].faer_conj().faer_mul(matrix.read(idx, j2)));
            j2 += 1;
        }
        let a11 = matrix.read(idx, idx).faer_sub(dot);
        matrix.write(idx, idx, a11);

        if idx + 1 < n {
            // A21 -= L20 × (L10 × D0)ᴴ
            let mut i: usize = idx + 1;
            while i < n
                invariant
                    matrix.wf(),
                    matrix.spec_nrows() == n,
                    matrix.spec_ncols() == n,
                    idx < n,
                    idx + 1 <= i <= n,
                    l10xd0@.len() == idx,
                    forall|fi: int, fj: int|
                        0 <= fi < fj < n ==> matrix.at(fi, fj) == old(matrix).at(fi, fj),
                decreases n - i,
            {
                let mut acc = matrix.read(i, idx);
                let mut j3: usize = 0;
                while j3 < idx
                    invariant
                        matrix.wf(),
                        matrix.spec_nrows() == n,
                        matrix.spec_ncols() == n,
                        idx < n,
                        i < n,
                        j3 <= idx,
                        l10xd0@.len() == idx,
                        forall|fi: int, fj: int|
                            0 <= fi < fj < n ==> matrix.at(fi, fj) == old(matrix).at(fi, fj),
                    decreases idx - j3,
                {
                    acc = acc.faer_sub(matrix.read(i, j3).faer_mul(l10xd0[j3].faer_conj()));
                    j3 += 1;
                }
                matrix.write(i, idx, acc);
                i += 1;
            }

            // Finish the column of L: divide by the real part of the pivot.
            let r_inv = a11.faer_real().faer_inv();
            let mut i2: usize = idx + 1;
            while i2 < n
                invariant
                    matrix.wf(),
                    matrix.spec_nrows() == n,
                    matrix.spec_ncols() == n,
                    idx < n,
                    idx + 1 <= i2 <= n,
                    forall|fi: int, fj: int|
                        0 <= fi < fj < n ==> matrix.at(fi, fj) == old(matrix).at(fi, fj),
                decreases n - i2,
            {
                let v = matrix.read(i2, idx).faer_scale_real(r_inv);
                matrix.write(i2, idx, v);
                i2 += 1;
            }
        }
        idx += 1;
    }
}

/// The right-looking blocked recursion: factorize the leading block, solve the
/// panel against the unit factor's conjugate, remember the panel scaled by the
/// diagonal, divide the panel by the diagonal, downdate the trailing block and
/// recurse into it.
fn cholesky_in_place_impl<E: ComplexField>(
    matrix: &mut Mat<E>,
    parallelism: Parallelism,
    stack: &mut MemStack<E>,
)
    requires
        old(matrix).wf(),
        old(matrix).spec_nrows() == old(matrix).spec_ncols(),
        old(matrix).spec_nrows() * old(matrix).spec_nrows() <= old(stack).spec_len(),
    ensures
        final(matrix).wf(),
        final(matrix).same_shape(old(matrix)),
        final(stack).spec_len() == old(stack).spec_len(),
        forall|i: int, j: int|
            0 <= i < j < old(matrix).spec_nrows() ==> final(matrix).at(i, j) == old(
                matrix,
            ).at(i, j),
    decreases old(matrix).spec_nrows(),
{
    let n = matrix.nrows();
    if n < 32 {
        cholesky_in_place_left_looking_impl(matrix, parallelism);
    } else {
        let half = n / 2;
        let block_size = if half < 128 {
            half
        } else {
            128
        };
        let rem = n - block_size;

        let mut l00 = matrix.submatrix(0, 0, block_size, block_size);
        let mut a10 = matrix.submatrix(block_size, 0, rem, block_size);
        let mut a11 = matrix.submatrix(block_size, block_size, rem, rem);
        let ghost a11_start = a11;

        proof {
            lemma_square_monotone(block_size as int, n as int);
        }
        cholesky_in_place_impl(&mut l00, parallelism, stack);

        // A10 := A10 × L00⁻ᴴ through a conjugated unit triangular solve.
        let mut a10t = a10.transpose();
        solve::solve_unit_lower_triangular_in_place_with_conj(
            &l00,
            Conj::Yes,
            &mut a10t,
            parallelism,
        );
        a10 = a10t.transpose();

        // Remember L10 × D0 and divide the panel by the diagonal.
        proof {
            lemma_rect_in_square(rem as int, block_size as int, n as int);
        }
        let mut l10xd0 = stack.make_temp_mat(rem, block_size);
        let mut j: usize = 0;
        while j < block_size
            invariant
                matrix.wf(),
                a10.wf(),
                l00.wf(),
                l10xd0.wf(),
                a10.spec_nrows() == rem,
                a10.spec_ncols() == block_size,
                l00.spec_nrows() == block_size,
                l00.spec_ncols() == block_size,
                l10xd0.spec_nrows() == rem,
                l10xd0.spec_ncols() == block_size,
                j <= block_size,
            decreases block_size - j,
        {
            let d0_elem = l00.read(j, j);
            let d0_elem_inv = d0_elem.faer_inv();
            let mut i: usize = 0;
            while i < rem
                invariant
                    a10.wf(),
                    l10xd0.wf(),
                    a10.spec_nrows() == rem,
                    a10.spec_ncols() == block_size,
                    l10xd0.spec_nrows() == rem,
                    l10xd0.spec_ncols() == block_size,
                    j < block_size,
                    i <= rem,
                decreases rem - i,
            {
                let v = a10.read(i, j);
                l10xd0.write(i, j, v);
                a10.write(i, j, v.faer_mul(d0_elem_inv));
                i += 1;
            }
            j += 1;
        }

        // A11 -= A10 × (L10 × D0)ᴴ over the lower triangle.
        let l10xd0_adjoint = l10xd0.adjoint();
        triangular::matmul(
            &mut a11,
            BlockStructure::TriangularLower,
            &a10,
            BlockStructure::Rectangular,
            &l10xd0_adjoint,
            BlockStructure::Rectangular,
            Some(E::faer_one()),
            E::faer_one().faer_neg(),
            parallelism,
        );
        stack.give_back_mat(l10xd0);

        proof {
            lemma_square_monotone(rem as int, n as int);
        }
        let ghost a11_mid = a11;
        cholesky_in_place_impl(&mut a11, parallelism, stack);

        matrix.write_block(0, 0, &l00);
        matrix.write_block(block_size, 0, &a10);
        matrix.write_block(block_size, block_size, &a11);
        proof {
            assert forall|i: int, j: int|
                0 <= i < j < n implies matrix.at(i, j) == old(matrix).at(i, j) by {
                if j < block_size {
                    assert(l00.at(i, j) == old(matrix).at(i, j));
                } else if i >= block_size {
                    assert(!triangular::spec_in_structure(
                        i - block_size,
                        j - block_size,
                        BlockStructure::TriangularLower,
                    ));
                    assert(a11.at(i - block_size, j - block_size) == a11_mid.at(
                        i - block_size,
                        j - block_size,
                    ));
                    assert(a11_mid.at(i - block_size, j - block_size) == a11_start.at(
                        i - block_size,
                        j - block_size,
                    ));
                    assert(a11_start.at(i - block_size, j - block_size) == old(matrix).at(i, j));
                }
            }
        }
    }
}

/// The square of a smaller dimension fits in the square of a larger one.
proof fn lemma_square_monotone(a: int, n: int)
    requires
        0 <= a <= n,
    ensures
        a * a <= n * n,
{
    vstd::arithmetic::mul::lemma_mul_inequality(a, n, a);
    vstd::arithmetic::mul::lemma_mul_inequality(a, n, n);
    assert(a * a == a * a);
    assert(n * a == a * n) by (nonlinear_arith);
}

/// A rectangle whose sides are bounded by a dimension fits in the square of
/// that dimension.
proof fn lemma_rect_in_square(a: int, b: int, n: int)
    requires
        0 <= a <= n,
        0 <= b <= n,
    ensures
        a * b <= n * n,
{
    vstd::arithmetic::mul::lemma_mul_inequality(b, n, a);
    vstd::arithmetic::mul::lemma_mul_inequality(a, n, n);
    assert(a * b == b * a) by (nonlinear_arith);
    assert(a * n == n * a) by (nonlinear_arith);
}

/// Computes the factors `L` and `D` of a self-adjoint `matrix` such that `L`
/// is unit lower triangular, `D` is a real diagonal, and `L D Lᴴ` equals the
/// matrix. Only the lower triangular half of the input is read; the strictly
/// lower half of the result holds `L`, the diagonal holds `D`, and the
/// strictly upper half is preserved exactly.
pub fn raw_cholesky_in_place<E: ComplexField>(
    matrix: &mut Mat<E>,
    parallelism: Parallelism,
    stack: &mut MemStack<E>,
    params: LdltDiagParams,
)
    requires
        old(matrix).wf(),
        old(matrix).spec_nrows() == old(matrix).spec_ncols(),
        old(matrix).spec_nrows() * old(matrix).spec_nrows() <= old(stack).spec_len(),
    ensures
        final(matrix).wf(),
        final(matrix).same_shape(old(matrix)),
        final(stack).spec_len() == old(stack).spec_len(),
        forall|i: int, j: int|
            0 <= i < j < old(matrix).spec_nrows() ==> final(matrix).at(i, j) == old(
                matrix,
            ).at(i, j),
{
    let _ = params;
    cholesky_in_place_impl(matrix, parallelism, stack);
}

} // verus!
