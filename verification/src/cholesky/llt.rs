//! Plain Cholesky factorization `A = L Lᴴ` of a positive definite self-adjoint
//! matrix, with optional dynamic regularization of borderline pivots.

use vstd::prelude::*;
use crate::mat::Mat;
use crate::matmul::triangular;
use crate::matmul::triangular::BlockStructure;
use crate::scalar::ComplexField;
use crate::solve;
use crate::stack::{MemStack, SizeOverflow, StackReq};
use crate::thread::parallelism_degree;
use crate::{Conj, LltError, Parallelism};

verus! {

/// Tuning parameters of the factorization.
#[derive(Default, Copy, Clone)]
#[non_exhaustive]
pub struct LltParams {}

/// Dynamic regularization: when the delta is positive, a pivot that falls in
/// `[0, epsilon]` is clamped to the delta instead of failing the
/// factorization, and the clamping events are counted.
#[derive(Copy, Clone, Debug)]
pub struct LltRegularization<E> {
    /// The value a clamped pivot is set to.
    pub dynamic_regularization_delta: E,
    /// The magnitude under which a nonnegative pivot is clamped.
    pub dynamic_regularization_epsilon: E,
}

impl<E: ComplexField> Default for LltRegularization<E> {
    /// Regularization is off: zero delta and zero epsilon.
    fn default() -> Self {
        LltRegularization {
            dynamic_regularization_delta: E::faer_zero(),
            dynamic_regularization_epsilon: E::faer_zero(),
        }
    }
}

/// The scratch requirement of [`cholesky_in_place`]: the factorization works
/// entirely in place and needs no scratch.
pub fn cholesky_in_place_req(
    dim: usize,
    parallelism: Parallelism,
    params: LltParams,
) -> (r: Result<StackReq, SizeOverflow>)
    ensures
        r is Ok,
        r->Ok_0.spec_size() == 0,
{
    let _ = dim;
    let _ = parallelism;
    let _ = params;
    Ok(StackReq::empty())
}

/// The left-looking unblocked base case: column by column, the pivot is the
/// diagonal entry minus the squared norm of the already computed row prefix;
/// a borderline pivot is clamped and counted when regularization is on, a
/// pivot that is not positive fails the factorization, and the column below
/// the pivot is updated and scaled by the inverse of the pivot's square root.
fn cholesky_in_place_left_looking_impl<E: ComplexField>(
    matrix: &mut Mat<E>,
    regularization: LltRegularization<E>,
    parallelism: Parallelism,
    params: LltParams,
) -> (r: Result<usize, LltError>)
    requires
        old(matrix).wf(),
        old(matrix).spec_nrows() == old(matrix).spec_ncols(),
    ensures
        final(matrix).wf(),
        final(matrix).same_shape(old(matrix)),
        r is Ok ==> r->Ok_0 <= old(matrix).spec_nrows(),
        old(matrix).spec_nrows() == 0 ==> r is Ok,
        forall|i: int, j: int|
            0 <= i < j < old(matrix).spec_nrows() ==> final(matrix).at(i, j) == old(
                matrix,
            ).at(i, j),
{
    let _ = params;
    let _ = parallelism;
    let n = matrix.nrows();

    let eps = regularization.dynamic_regularization_epsilon.faer_real().faer_abs();
    let delta = regularization.dynamic_regularization_delta.faer_real().faer_abs();
    let has_eps = delta.faer_gt(E::faer_zero());
    let mut dynamic_regularization_count: usize = 0;

    let mut idx: usize = 0;
    while idx < n
        invariant
            matrix.wf(),
            matrix.spec_nrows() == n,
            matrix.spec_ncols() == n,
            matrix.same_shape(old(matrix)),
            idx <= n,
            dynamic_regularization_count <= idx,
            forall|i2: int, j2: int|
                0 <= i2 < j2 < n ==> matrix.at(i2, j2) == old(matrix).at(i2, j2),
        decreases n - idx,
    {
        // A11 -= L10 × L10ᴴ
        let mut dot = E::faer_zero();
        let mut j: usize = 0;
        while j < idx
            invariant
                matrix.wf(),
                matrix.spec_nrows() == n,
                matrix.spec_ncols() == n,
                idx < n,
                j <= idx,
                forall|i2: int, j2: int|
                    0 <= i2 < j2 < n ==> matrix.at(i2, j2) == old(matrix).at(i2, j2),
            decreases idx - j,
        {
            dot = dot.faer_add(matrix.read(idx, j).faer_abs2());
            j += 1;
        }
        let a11 = E::faer_from_real(matrix.read(idx, idx).faer_real().faer_sub(dot));
        matrix.write(idx, idx, a11);

        let mut pivot = a11.faer_real();
        if has_eps && pivot.faer_ge(E::faer_zero()) && eps.faer_ge(pivot) {
            pivot = delta;
            dynamic_regularization_count += 1;
        }

        if pivot.faer_gt(E::faer_zero()) {
            matrix.write(idx, idx, E::faer_from_real(pivot.faer_sqrt()));
        } else {
            return Err(LltError);
        }

        if idx + 1 < n {
            let l11 = matrix.read(idx, idx);

            // A21 -= L20 × L10ᴴ
            let mut i: usize = idx + 1;
            while i < n
                invariant
                    matrix.wf(),
                    matrix.spec_nrows() == n,
                    matrix.spec_ncols() == n,
                    idx < n,
                    idx + 1 <= i <= n,
                    forall|i2: int, j2: int|
                        0 <= i2 < j2 < n ==> matrix.at(i2, j2) == old(matrix).at(i2, j2),
                decreases n - i,
            {
                let mut acc = matrix.read(i, idx);
                let mut j2: usize = 0;
                while j2 < idx
                    invariant
                        matrix.wf(),
                        matrix.spec_nrows() == n,
                        matrix.spec_ncols() == n,
                        idx < n,
                        i < n,
                        j2 <= idx,
                        forall|i3: int, j3: int|
                            0 <= i3 < j3 < n ==> matrix.at(i3, j3) == old(matrix).at(i3, j3),
                    decreases idx - j2,
                {
                    acc = acc.faer_sub(
                        matrix.read(i, j2).faer_mul(matrix.read(idx, j2).faer_conj()),
                    );
                    j2 += 1;
                }
                matrix.write(i, idx, acc);
                i += 1;
            }

            // A21 is now L21 × L11ᴴ: scale it by the inverse of the pivot.
            let r_inv = l11.faer_real().faer_inv();
            let mut i2: usize = idx + 1;
            while i2 < n
                invariant
                    matrix.wf(),
                    matrix.spec_nrows() == n,
                    matrix.spec_ncols() == n,
                    idx < n,
                    idx + 1 <= i2 <= n,
                    forall|i3: int, j3: int|
                        0 <= i3 < j3 < n ==> matrix.at(i3, j3) == old(matrix).at(i3, j3),
                decreases n - i2,
            {
                let v = matrix.read(i2, idx).faer_scale_real(r_inv);
                matrix.write(i2, idx, v);
                i2 += 1;
            }
        }
        idx += 1;
    }
    Ok(dynamic_regularization_count)
}

/// The right-looking blocked recursion: factorize the leading block, solve the
/// panel below it against the factor's conjugate, downdate the trailing block
/// by the panel's self-product, and recurse into the trailing block. The
/// regularization count accumulates along the tail-recursive chain.
fn cholesky_in_place_impl<E: ComplexField>(
    count: &mut usize,
    matrix: &mut Mat<E>,
    regularization: LltRegularization<E>,
    parallelism: Parallelism,
    stack: &mut MemStack<E>,
    params: LltParams,
) -> (r: Result<(), LltError>)
    requires
        old(matrix).wf(),
        old(matrix).spec_nrows() == old(matrix).spec_ncols(),
        *old(count) + old(matrix).spec_nrows() <= usize::MAX,
    ensures
        final(matrix).wf(),
        final(matrix).same_shape(old(matrix)),
        final(stack).spec_len() == old(stack).spec_len(),
        *final(count) <= *old(count) + old(matrix).spec_nrows(),
        old(matrix).spec_nrows() == 0 ==> r is Ok,
        forall|i: int, j: int|
            0 <= i < j < old(matrix).spec_nrows() ==> final(matrix).at(i, j) == old(
                matrix,
            ).at(i, j),
    decreases old(matrix).spec_nrows(),
{
    let n = matrix.nrows();
    if n < 32 {
        match cholesky_in_place_left_looking_impl(matrix, regularization, parallelism, params) {
            Ok(c) => {
                *count += c;
                Ok(())
            },
            Err(e) => Err(e),
        }
    } else {
        let half = n / 2;
        let degree = parallelism_degree(parallelism);
        let block_size = if degree <= half / 128 {
            proof {
                vstd::arithmetic::div_mod::lemma_fundamental_div_mod(half as int, 128);
                assert(128 * degree <= half) by (nonlinear_arith)
                    requires
                        degree <= half as int / 128,
                        128 * (half as int / 128) + half as int % 128 == half,
                        half as int % 128 >= 0,
                ;
            }
            128 * degree
        } else {
            half
        };

        let mut l00 = matrix.submatrix(0, 0, block_size, block_size);
        let mut a10 = matrix.submatrix(block_size, 0, n - block_size, block_size);
        let mut a11 = matrix.submatrix(block_size, block_size, n - block_size, n - block_size);
        let ghost a11_start = a11;

        let res = cholesky_in_place_impl(
            count,
            &mut l00,
            regularization,
            parallelism,
            stack,
            params,
        );
        if let Err(e) = res {
            matrix.write_block(0, 0, &l00);
            proof {
                assert forall|i: int, j: int|
                    0 <= i < j < n implies matrix.at(i, j) == old(matrix).at(i, j) by {
                    if j < block_size {
                        assert(l00.at(i, j) == old(matrix).at(i, j));
                    }
                }
            }
            return Err(e);
        }

        // A10 := A10 × L00⁻ᴴ, computed as a conjugated solve over A10ᵀ.
        let mut a10t = a10.transpose();
        solve::solve_lower_triangular_in_place_with_conj(&l00, Conj::Yes, &mut a10t, parallelism);
        a10 = a10t.transpose();

        // A11 -= A10 × A10ᴴ over the lower triangle.
        let a10_adjoint = a10.adjoint();
        triangular::matmul(
            &mut a11,
            BlockStructure::TriangularLower,
            &a10,
            BlockStructure::Rectangular,
            &a10_adjoint,
            BlockStructure::Rectangular,
            Some(E::faer_one()),
            E::faer_one().faer_neg(),
            parallelism,
        );

        let ghost a11_mid = a11;
        let res = cholesky_in_place_impl(
            count,
            &mut a11,
            regularization,
            parallelism,
            stack,
            params,
        );

        matrix.write_block(0, 0, &l00);
        matrix.write_block(block_size, 0, &a10);
        matrix.write_block(block_size, block_size, &a11);
        proof {
            assert forall|i: int, j: int|
                0 <= i < j < n implies matrix.at(i, j) == old(matrix).at(i, j) by {
                if j < block_size {
                    assert(l00.at(i, j) == old(matrix).at(i, j));
                } else if i >= block_size {
                    assert(!triangular::spec_in_structure(
                        i - block_size,
                        j - block_size,
                        BlockStructure::TriangularLower,
                    ));
                    assert(a11.at(i - block_size, j - block_size) == a11_mid.at(
                        i - block_size,
                        j - block_size,
                    ));
                    assert(a11_mid.at(i - block_size, j - block_size) == a11_start.at(
                        i - block_size,
                        j - block_size,
                    ));
                    assert(a11_start.at(i - block_size, j - block_size) == old(matrix).at(i, j));
                }
            }
        }
        res
    }
}

/// Computes the Cholesky factor `L` of a self-adjoint positive definite
/// `matrix` such that `L` is lower triangular and `L Lᴴ` equals the matrix.
/// Only the lower triangular half of the input is read; the factor is stored
/// in the same half, and the strictly upper half is preserved exactly. Returns
/// the number of dynamically regularized pivots, or an error if a pivot is not
/// positive and regularization is off.
pub fn cholesky_in_place<E: ComplexField>(
    matrix: &mut Mat<E>,
    regularization: LltRegularization<E>,
    parallelism: Parallelism,
    stack: &mut MemStack<E>,
    params: LltParams,
) -> (r: Result<usize, LltError>)
    requires
        old(matrix).wf(),
        old(matrix).spec_nrows() == old(matrix).spec_ncols(),
    ensures
        final(matrix).wf(),
        final(matrix).same_shape(old(matrix)),
        final(stack).spec_len() == old(stack).spec_len(),
        r is Ok ==> r->Ok_0 <= old(matrix).spec_nrows(),
        old(matrix).spec_nrows() == 0 ==> r is Ok,
        forall|i: int, j: int|
            0 <= i < j < old(matrix).spec_nrows() ==> final(matrix).at(i, j) == old(
                matrix,
            ).at(i, j),
{
    let n = matrix.nrows();
    proof {
        assert(n == old(matrix).spec_nrows());
    }
    let mut count: usize = 0;
    match cholesky_in_place_impl(
        &mut count,
        matrix,
        regularization,
        parallelism,
        stack,
        params,
    ) {
        Ok(()) => Ok(count),
        Err(e) => Err(e),
    }
}

} // verus!
