//! Triangular solve kernels.
//!
//! Each kernel solves `op(T) × Y = X` in place over `X`, where `T` is read as
//! a lower or upper triangular matrix, optionally with an implicit unit
//! diagonal, and `op` conjugates the triangle or leaves it as stored. The
//! blocked recursion splits the triangle, solves the leading block, updates
//! the trailing right-hand side through a matrix multiply, and recurses; very
//! small triangles are solved by direct forward or backward substitution. An
//! upper triangular solve is a lower triangular solve over the matrix with
//! both its row order and its column order reversed.

use vstd::prelude::*;
use crate::mat::Mat;
use crate::matmul::matmul_with_conj;
use crate::scalar::{maybe_conj, ComplexField};
use crate::{Conj, Parallelism};

verus! {

/// The dimension under which the recursion bottoms out into direct
/// substitution.
fn recursion_threshold() -> (r: usize)
    ensures
        r == 4,
{
    4
}

/// The leading block size of the recursion: the remainder after removing it
/// is rounded up to a register-friendly multiple.
fn blocksize(n: usize) -> (r: usize)
    requires
        n >= 5,
    ensures
        1 <= r < n,
{
    let base_rem = n / 2;
    let rounded = if n >= 32 {
        proof {
            vstd::arithmetic::div_mod::lemma_fundamental_div_mod((base_rem + 15) as int, 16);
        }
        ((base_rem + 15) / 16) * 16
    } else if n >= 16 {
        proof {
            vstd::arithmetic::div_mod::lemma_fundamental_div_mod((base_rem + 7) as int, 8);
        }
        ((base_rem + 7) / 8) * 8
    } else if n >= 8 {
        proof {
            vstd::arithmetic::div_mod::lemma_fundamental_div_mod((base_rem + 3) as int, 4);
        }
        ((base_rem + 3) / 4) * 4
    } else {
        base_rem
    };
    n - rounded
}

/// Direct substitution for a small triangle: row by row, each solution entry
/// is the right-hand side minus the inner product with the already computed
/// entries, scaled by the inverse of the diagonal entry unless the diagonal is
/// an implicit unit.
fn solve_lower_triangular_base_case<E: ComplexField>(
    tril: &Mat<E>,
    conj_lhs: Conj,
    unit: bool,
    rhs: &mut Mat<E>,
)
    requires
        tril.wf(),
        old(rhs).wf(),
        tril.spec_nrows() == tril.spec_ncols(),
        old(rhs).spec_nrows() == tril.spec_ncols(),
    ensures
        final(rhs).wf(),
        final(rhs).same_shape(old(rhs)),
{
    let n = tril.nrows();
    let k = rhs.ncols();
    let mut j: usize = 0;
    while j < k
        invariant
            tril.wf(),
            rhs.wf(),
            tril.spec_nrows() == n,
            tril.spec_ncols() == n,
            rhs.spec_nrows() == n,
            rhs.spec_ncols() == k,
            j <= k,
        decreases k - j,
    {
        let mut i: usize = 0;
        while i < n
            invariant
                tril.wf(),
                rhs.wf(),
                tril.spec_nrows() == n,
                tril.spec_ncols() == n,
                rhs.spec_nrows() == n,
                rhs.spec_ncols() == k,
                j < k,
                i <= n,
            decreases n - i,
        {
            let mut acc = rhs.read(i, j);
            let mut p: usize = 0;
            while p < i
                invariant
                    tril.wf(),
                    rhs.wf(),
                    tril.spec_nrows() == n,
                    tril.spec_ncols() == n,
                    rhs.spec_nrows() == n,
                    rhs.spec_ncols() == k,
                    j < k,
                    i < n,
                    p <= i,
                decreases i - p,
            {
                let l = maybe_conj(conj_lhs, tril.read(i, p));
                acc = acc.faer_sub(l.faer_mul(rhs.read(p, j)));
                p += 1;
            }
            if !unit {
                let d = maybe_conj(conj_lhs, tril.read(i, i));
                acc = acc.faer_mul(d.faer_inv());
            }
            rhs.write(i, j, acc);
            i += 1;
        }
        j += 1;
    }
}

/// The blocked recursion over a lower triangle.
fn solve_lower_triangular_impl<E: ComplexField>(
    tril: &Mat<E>,
    conj_lhs: Conj,
    unit: bool,
    rhs: &mut Mat<E>,
    parallelism: Parallelism,
)
    requires
        tril.wf(),
        old(rhs).wf(),
        tril.spec_nrows() == tril.spec_ncols(),
        old(rhs).spec_nrows() == tril.spec_ncols(),
    ensures
        final(rhs).wf(),
        final(rhs).same_shape(old(rhs)),
    decreases tril.spec_nrows(), rhs.spec_ncols(),
{
    let n = tril.nrows();
    let k = rhs.ncols();

    if k > 64 && n <= 128 {
        // Wide right-hand side: the two column halves are independent
        // sub-tasks over disjoint storage.
        let (mut left, mut right) = rhs.split_at_col(k / 2);
        solve_lower_triangular_impl(tril, conj_lhs, unit, &mut left, parallelism);
        solve_lower_triangular_impl(tril, conj_lhs, unit, &mut right, parallelism);
        rhs.write_block(0, 0, &left);
        rhs.write_block(0, k / 2, &right);
        return ;
    }

    if n <= recursion_threshold() {
        solve_lower_triangular_base_case(tril, conj_lhs, unit, rhs);
        return ;
    }

    let bs = blocksize(n);
    let (tril_top_left, _, tril_bot_left, tril_bot_right) = tril.split_at(bs, bs);
    let (mut rhs_top, mut rhs_bot) = rhs.split_at_row(bs);

    solve_lower_triangular_impl(&tril_top_left, conj_lhs, unit, &mut rhs_top, parallelism);
    matmul_with_conj(
        &mut rhs_bot,
        &tril_bot_left,
        conj_lhs,
        &rhs_top,
        Conj::No,
        Some(E::faer_one()),
        E::faer_one().faer_neg(),
        parallelism,
    );
    solve_lower_triangular_impl(&tril_bot_right, conj_lhs, unit, &mut rhs_bot, parallelism);

    rhs.write_block(0, 0, &rhs_top);
    rhs.write_block(bs, 0, &rhs_bot);
}

/// The blocked recursion over an upper triangle: reduces to the lower
/// triangular recursion by reversing the row and column order of the triangle
/// and the row order of the right-hand side.
fn solve_upper_triangular_impl<E: ComplexField>(
    triu: &Mat<E>,
    conj_lhs: Conj,
    unit: bool,
    rhs: &mut Mat<E>,
    parallelism: Parallelism,
)
    requires
        triu.wf(),
        old(rhs).wf(),
        triu.spec_nrows() == triu.spec_ncols(),
        old(rhs).spec_nrows() == triu.spec_ncols(),
    ensures
        final(rhs).wf(),
        final(rhs).same_shape(old(rhs)),
{
    let rev_t = triu.reverse_rows_and_cols();
    let mut rev_rhs = rhs.reverse_rows();
    solve_lower_triangular_impl(&rev_t, conj_lhs, unit, &mut rev_rhs, parallelism);
    let restored = rev_rhs.reverse_rows();
    rhs.copy_from(&restored);
}

/// Computes the solution of `op(triangular_lower) × X = rhs` and stores the
/// result in `rhs`. The strictly upper triangular part of `triangular_lower`
/// is never read.
pub fn solve_lower_triangular_in_place_with_conj<E: ComplexField>(
    triangular_lower: &Mat<E>,
    conj_lhs: Conj,
    rhs: &mut Mat<E>,
    parallelism: Parallelism,
)
    requires
        triangular_lower.wf(),
        old(rhs).wf(),
        triangular_lower.spec_nrows() == triangular_lower.spec_ncols(),
        old(rhs).spec_nrows() == triangular_lower.spec_ncols(),
    ensures
        final(rhs).wf(),
        final(rhs).same_shape(old(rhs)),
{
    solve_lower_triangular_impl(triangular_lower, conj_lhs, false, rhs, parallelism);
}

/// Computes the solution of `triangular_lower × X = rhs` and stores the result
/// in `rhs`.
pub fn solve_lower_triangular_in_place<E: ComplexField>(
    triangular_lower: &Mat<E>,
    rhs: &mut Mat<E>,
    parallelism: Parallelism,
)
    requires
        triangular_lower.wf(),
        old(rhs).wf(),
        triangular_lower.spec_nrows() == triangular_lower.spec_ncols(),
        old(rhs).spec_nrows() == triangular_lower.spec_ncols(),
    ensures
        final(rhs).wf(),
        final(rhs).same_shape(old(rhs)),
{
    solve_lower_triangular_in_place_with_conj(triangular_lower, Conj::No, rhs, parallelism);
}

/// Computes the solution of `op(triangular_lower) × X = rhs`, reading the
/// triangle as if its diagonal were all ones, and stores the result in `rhs`.
/// The diagonal and the upper triangular part are never read.
pub fn solve_unit_lower_triangular_in_place_with_conj<E: ComplexField>(
    triangular_lower: &Mat<E>,
    conj_lhs: Conj,
    rhs: &mut Mat<E>,
    parallelism: Parallelism,
)
    requires
        triangular_lower.wf(),
        old(rhs).wf(),
        triangular_lower.spec_nrows() == triangular_lower.spec_ncols(),
        old(rhs).spec_nrows() == triangular_lower.spec_ncols(),
    ensures
        final(rhs).wf(),
        final(rhs).same_shape(old(rhs)),
{
    solve_lower_triangular_impl(triangular_lower, conj_lhs, true, rhs, parallelism);
}

/// Computes the solution of `triangular_lower × X = rhs` with an implicit unit
/// diagonal, and stores the result in `rhs`.
pub fn solve_unit_lower_triangular_in_place<E: ComplexField>(
    triangular_lower: &Mat<E>,
    rhs: &mut Mat<E>,
    parallelism: Parallelism,
)
    requires
        triangular_lower.wf(),
        old(rhs).wf(),
        triangular_lower.spec_nrows() == triangular_lower.spec_ncols(),
        old(rhs).spec_nrows() == triangular_lower.spec_ncols(),
    ensures
        final(rhs).wf(),
        final(rhs).same_shape(old(rhs)),
{
    solve_unit_lower_triangular_in_place_with_conj(triangular_lower, Conj::No, rhs, parallelism);
}

/// Computes the solution of `op(triangular_upper) × X = rhs` and stores the
/// result in `rhs`. The strictly lower triangular part of `triangular_upper`
/// is never read.
pub fn solve_upper_triangular_in_place_with_conj<E: ComplexField>(
    triangular_upper: &Mat<E>,
    conj_lhs: Conj,
    rhs: &mut Mat<E>,
    parallelism: Parallelism,
)
    requires
        triangular_upper.wf(),
        old(rhs).wf(),
        triangular_upper.spec_nrows() == triangular_upper.spec_ncols(),
        old(rhs).spec_nrows() == triangular_upper.spec_ncols(),
    ensures
        final(rhs).wf(),
        final(rhs).same_shape(old(rhs)),
{
    solve_upper_triangular_impl(triangular_upper, conj_lhs, false, rhs, parallelism);
}

/// Computes the solution of `triangular_upper × X = rhs` and stores the result
/// in `rhs`.
pub fn solve_upper_triangular_in_place<E: ComplexField>(
    triangular_upper: &Mat<E>,
    rhs: &mut Mat<E>,
    parallelism: Parallelism,
)
    requires
        triangular_upper.wf(),
        old(rhs).wf(),
        triangular_upper.spec_nrows() == triangular_upper.spec_ncols(),
        old(rhs).spec_nrows() == triangular_upper.spec_ncols(),
    ensures
        final(rhs).wf(),
        final(rhs).same_shape(old(rhs)),
{
    solve_upper_triangular_in_place_with_conj(triangular_upper, Conj::No, rhs, parallelism);
}

/// Computes the solution of `op(triangular_upper) × X = rhs`, reading the
/// triangle as if its diagonal were all ones, and stores the result in `rhs`.
/// The diagonal and the lower triangular part are never read.
pub fn solve_unit_upper_triangular_in_place_with_conj<E: ComplexField>(
    triangular_upper: &Mat<E>,
    conj_lhs: Conj,
    rhs: &mut Mat<E>,
    parallelism: Parallelism,
)
    requires
        triangular_upper.wf(),
        old(rhs).wf(),
        triangular_upper.spec_nrows() == triangular_upper.spec_ncols(),
        old(rhs).spec_nrows() == triangular_upper.spec_ncols(),
    ensures
        final(rhs).wf(),
        final(rhs).same_shape(old(rhs)),
{
    solve_upper_triangular_impl(triangular_upper, conj_lhs, true, rhs, parallelism);
}

/// Computes the solution of `triangular_upper × X = rhs` with an implicit unit
/// diagonal, and stores the result in `rhs`.
pub fn solve_unit_upper_triangular_in_place<E: ComplexField>(
    triangular_upper: &Mat<E>,
    rhs: &mut Mat<E>,
    parallelism: Parallelism,
)
    requires
        triangular_upper.wf(),
        old(rhs).wf(),
        triangular_upper.spec_nrows() == triangular_upper.spec_ncols(),
        old(rhs).spec_nrows() == triangular_upper.spec_ncols(),
    ensures
        final(rhs).wf(),
        final(rhs).same_shape(old(rhs)),
{
    solve_upper_triangular_impl(triangular_upper, Conj::No, true, rhs, parallelism);
}

} // verus!
