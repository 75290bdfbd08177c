//! Singular value decompositions of real rectangular matrices.
//!
//! A small problem is QR-factorized with column pivoting and the triangular
//! factor is diagonalized by the two-sided Jacobi iteration; a large problem
//! is reduced to bidiagonal form by a two-sided block Householder reduction,
//! the bidiagonal problem is solved, and the singular vectors are carried back
//! through the stored reflector sequences on both sides. Either way the
//! decomposition transposes the problem transparently when the matrix has more
//! columns than rows, exchanging the roles of the two factors.

pub mod bidiag;
pub mod bidiag_real_svd;

use vstd::prelude::*;
use crate::householder::apply_block_householder_sequence_on_the_left_in_place_with_conj;
use crate::jacobi::{jacobi_svd, Skip};
use crate::mat::Mat;
use crate::perm::permute_cols;
use crate::qr::no_pivoting::compute::{recommended_blocksize, spec_recommended_blocksize};
use crate::scalar::{ComplexField, RealField};
use crate::stack::{MemStack, SizeOverflow, StackReq, temp_mat_req};
use crate::{Conj, Parallelism, SvdError};

verus! {

/// Which singular vectors are computed.
#[derive(Copy, Clone, PartialEq, Eq, Structural, Debug)]
pub enum ComputeVectors {
    /// No singular vectors.
    No,
    /// As many columns as the smaller dimension.
    Thin,
    /// A full square factor.
    Full,
}

/// The dimension at or under which the Jacobi iteration is used directly on
/// the pivoted triangular factor.
pub fn jacobi_fallback_threshold() -> (r: usize)
    ensures
        r == 4,
{
    4
}

/// The exact scratch consumption of the decomposition of an `m × n` matrix
/// (with `m >= n` after the transparent transpose).
pub open spec fn spec_svd_scratch(m: int, n: int) -> int {
    let mm = if m >= n {
        m
    } else {
        n
    };
    let nn = if m >= n {
        n
    } else {
        m
    };
    if nn == 0 {
        0
    } else {
        let bs = spec_recommended_blocksize(mm, nn);
        if nn <= 4 {
            mm * nn + bs * nn + nn * nn + bs * mm
        } else {
            mm * nn + 2 * nn + 2 * (bs * nn) + 3 * (nn * nn) + bs * mm
        }
    }
}

/// The scratch requirement of [`compute_svd`].
pub fn compute_svd_req(
    nrows: usize,
    ncols: usize,
    compute_u: ComputeVectors,
    compute_v: ComputeVectors,
    parallelism: Parallelism,
) -> (r: Result<StackReq, SizeOverflow>)
    ensures
        r is Ok ==> r->Ok_0.spec_size() == spec_svd_scratch(nrows as int, ncols as int),
        nrows == 0 || ncols == 0 ==> r is Ok,
{
    let _ = compute_u;
    let _ = compute_v;
    let _ = parallelism;
    let mm = if nrows >= ncols {
        nrows
    } else {
        ncols
    };
    let nn = if nrows >= ncols {
        ncols
    } else {
        nrows
    };
    if nn == 0 {
        return Ok(StackReq::empty());
    }
    let bs = recommended_blocksize(mm, nn);
    let work = match temp_mat_req(mm, nn) {
        Ok(v) => v,
        Err(e) => {
            return Err(e);
        },
    };
    let hf = match temp_mat_req(bs, nn) {
        Ok(v) => v,
        Err(e) => {
            return Err(e);
        },
    };
    let apply = match temp_mat_req(bs, mm) {
        Ok(v) => v,
        Err(e) => {
            return Err(e);
        },
    };
    if nn <= jacobi_fallback_threshold() {
        let r_mat = match temp_mat_req(nn, nn) {
            Ok(v) => v,
            Err(e) => {
                return Err(e);
            },
        };
        let s1 = match work.try_and(hf) {
            Ok(v) => v,
            Err(e) => {
                return Err(e);
            },
        };
        let s2 = match r_mat.try_and(apply) {
            Ok(v) => v,
            Err(e) => {
                return Err(e);
            },
        };
        match s1.try_and(s2) {
            Ok(v) => Ok(v),
            Err(e) => Err(e),
        }
    } else {
        let taus = match temp_mat_req(2, nn) {
            Ok(v) => v,
            Err(e) => {
                return Err(e);
            },
        };
        let hf2 = match temp_mat_req(bs, nn) {
            Ok(v) => v,
            Err(e) => {
                return Err(e);
            },
        };
        let dense = match temp_mat_req(nn, nn) {
            Ok(v) => v,
            Err(e) => {
                return Err(e);
            },
        };
        let ubd = match temp_mat_req(nn, nn) {
            Ok(v) => v,
            Err(e) => {
                return Err(e);
            },
        };
        let vbd = match temp_mat_req(nn, nn) {
            Ok(v) => v,
            Err(e) => {
                return Err(e);
            },
        };
        let s1 = match work.try_and(taus) {
            Ok(v) => v,
            Err(e) => {
                return Err(e);
            },
        };
        let s2 = match hf.try_and(hf2) {
            Ok(v) => v,
            Err(e) => {
                return Err(e);
            },
        };
        let s3 = match dense.try_and(ubd) {
            Ok(v) => v,
            Err(e) => {
                return Err(e);
            },
        };
        let s4 = match vbd.try_and(apply) {
            Ok(v) => v,
            Err(e) => {
                return Err(e);
            },
        };
        let s12 = match s1.try_and(s2) {
            Ok(v) => v,
            Err(e) => {
                return Err(e);
            },
        };
        let s34 = match s3.try_and(s4) {
            Ok(v) => v,
            Err(e) => {
                return Err(e);
            },
        };
        match s12.try_and(s34) {
            Ok(v) => Ok(v),
            Err(e) => Err(e),
        }
    }
}

/// The pivoted QR and Jacobi path for a matrix with few columns: factorize
/// with column pivoting, undo the pivoting on the triangular factor,
/// diagonalize it with the Jacobi iteration, and compose the orthogonal
/// factors.
pub fn compute_real_svd_small<E: RealField>(
    matrix: &Mat<E>,
    s: &mut Mat<E>,
    u: &mut Mat<E>,
    v: &mut Mat<E>,
    epsilon: E,
    zero_threshold: E,
    parallelism: Parallelism,
    stack: &mut MemStack<E>,
) -> (r: Result<(), SvdError>)
    requires
        matrix.wf(),
        old(s).wf(),
        old(u).wf(),
        old(v).wf(),
        matrix.spec_nrows() >= matrix.spec_ncols(),
        old(s).spec_nrows() == matrix.spec_ncols(),
        old(s).spec_ncols() == 1,
        old(u).spec_ncols() != 0 ==> old(u).spec_nrows() == matrix.spec_nrows()
            && matrix.spec_ncols() <= old(u).spec_ncols() <= matrix.spec_nrows(),
        old(v).spec_ncols() != 0 ==> old(v).spec_nrows() == matrix.spec_ncols()
            && matrix.spec_ncols() <= old(v).spec_ncols() <= matrix.spec_ncols(),
        spec_svd_scratch(matrix.spec_nrows() as int, matrix.spec_ncols() as int) <= old(
            stack,
        ).spec_len(),
        matrix.spec_ncols() <= 4,
    ensures
        final(s).wf(),
        final(s).same_shape(old(s)),
        final(u).wf(),
        final(u).same_shape(old(u)),
        final(v).wf(),
        final(v).same_shape(old(v)),
        final(stack).spec_len() == old(stack).spec_len(),
{
    let m = matrix.nrows();
    let n = matrix.ncols();
    if n == 0 {
        return Ok(());
    }
    let bs = recommended_blocksize(m, n);

    let mut qr = stack.make_temp_mat(m, n);
    qr.copy_from(matrix);
    let mut householder = stack.make_temp_mat(bs, n);

    let col_perm = crate::qr::col_pivoting::compute::qr_in_place(
        &mut qr,
        &mut householder,
        parallelism,
        stack,
        crate::qr::col_pivoting::compute::ColPivQrComputeParams {},
    );

    // The pivoted triangular factor, with the pivoting undone on its columns.
    let mut r_mat = stack.make_temp_mat(n, n);
    let r_src = qr.submatrix(0, 0, n, n);
    let mut r_tri = Mat::zeros(n, n);
    r_tri.copy_from_triangular_upper(&r_src);
    let inv = col_perm.inverse();
    permute_cols(&mut r_mat, &r_tri, &inv);

    // Diagonalize the small factor.
    let want_u = u.ncols() != 0;
    let mut u_small = if want_u {
        Mat::zeros(n, n)
    } else {
        Mat::zeros(n, 0)
    };
    let res = jacobi_svd(&mut r_mat, &mut u_small, v, Skip::Neither, epsilon, zero_threshold);
    if let Err(e) = res {
        stack.give_back_mat(r_mat);
        stack.give_back_mat(householder);
        stack.give_back_mat(qr);
        return Err(e);
    }

    // Compose the orthogonal factor: embed the small factor and apply the
    // reflector sequence.
    if want_u {
        u.fill_zero();
        u.write_block(0, 0, &u_small);
        let ucols = u.ncols();
        let mut d: usize = n;
        while d < ucols
            invariant
                u.wf(),
                u.same_shape(old(u)),
                u.spec_nrows() == m,
                u.spec_ncols() == ucols,
                n <= d,
                d <= ucols || d == n,
                ucols <= m,
            decreases ucols - d,
        {
            u.write(d, d, E::faer_one());
            d += 1;
        }
        proof {
            crate::svd::lemma_mul_le_svd(u.spec_ncols() as int, m as int, bs as int);
        }
        apply_block_householder_sequence_on_the_left_in_place_with_conj(
            &qr,
            &householder,
            Conj::No,
            u,
            parallelism,
            stack,
        );
    }

    let mut i: usize = 0;
    while i < n
        invariant
            s.wf(),
            s.same_shape(old(s)),
            s.spec_nrows() == n,
            s.spec_ncols() == 1,
            r_mat.wf(),
            r_mat.spec_nrows() == n,
            r_mat.spec_ncols() == n,
            i <= n,
        decreases n - i,
    {
        let d = r_mat.read(i, i);
        s.write(i, 0, d);
        i += 1;
    }

    stack.give_back_mat(r_mat);
    stack.give_back_mat(householder);
    stack.give_back_mat(qr);
    Ok(())
}

/// A product is monotone in its left factor.
pub(crate) proof fn lemma_mul_le_svd(a: int, b: int, k: int)
    requires
        0 <= a <= b,
        0 <= k,
    ensures
        k * a <= k * b,
        k * a == a * k,
{
    vstd::arithmetic::mul::lemma_mul_inequality(a, b, k);
    assert(k * a == a * k) by (nonlinear_arith);
    assert(k * b == b * k) by (nonlinear_arith);
}

/// The bidiagonalization path for a matrix with more than a few columns:
/// reduce to bidiagonal form, solve the bidiagonal problem, and carry the
/// singular vectors back through the reflector sequences of both sides.
pub fn compute_real_svd_big<E: RealField>(
    matrix: &Mat<E>,
    s: &mut Mat<E>,
    u: &mut Mat<E>,
    v: &mut Mat<E>,
    epsilon: E,
    zero_threshold: E,
    parallelism: Parallelism,
    stack: &mut MemStack<E>,
) -> (r: Result<(), SvdError>)
    requires
        matrix.wf(),
        old(s).wf(),
        old(u).wf(),
        old(v).wf(),
        matrix.spec_nrows() >= matrix.spec_ncols(),
        matrix.spec_ncols() > 4,
        old(s).spec_nrows() == matrix.spec_ncols(),
        old(s).spec_ncols() == 1,
        old(u).spec_ncols() != 0 ==> old(u).spec_nrows() == matrix.spec_nrows()
            && matrix.spec_ncols() <= old(u).spec_ncols() <= matrix.spec_nrows(),
        old(v).spec_ncols() != 0 ==> old(v).spec_nrows() == matrix.spec_ncols()
            && matrix.spec_ncols() <= old(v).spec_ncols() <= matrix.spec_ncols(),
        spec_svd_scratch(matrix.spec_nrows() as int, matrix.spec_ncols() as int) <= old(
            stack,
        ).spec_len(),
    ensures
        final(s).wf(),
        final(s).same_shape(old(s)),
        final(u).wf(),
        final(u).same_shape(old(u)),
        final(v).wf(),
        final(v).same_shape(old(v)),
        final(stack).spec_len() == old(stack).spec_len(),
{
    let m = matrix.nrows();
    let n = matrix.ncols();
    let bs = recommended_blocksize(m, n);

    let mut bid = stack.make_temp_mat(m, n);
    bid.copy_from(matrix);
    let mut taus = stack.make_temp_mat(2, n);

    bidiag::bidiagonalize_in_place(&mut bid, &mut taus, parallelism);

    // Bidiagonal data.
    let mut diag: Vec<E> = Vec::new();
    let mut i: usize = 0;
    while i < n
        invariant
            bid.wf(),
            bid.spec_nrows() == m,
            bid.spec_ncols() == n,
            n <= m,
            diag@.len() == i,
            i <= n,
        decreases n - i,
    {
        diag.push(bid.read(i, i));
        i += 1;
    }
    let mut subdiag: Vec<E> = Vec::new();
    let mut i2: usize = 0;
    while i2 < n
        invariant
            bid.wf(),
            bid.spec_nrows() == m,
            bid.spec_ncols() == n,
            n <= m,
            subdiag@.len() == i2,
            i2 <= n,
        decreases n - i2,
    {
        if i2 + 1 < n {
            subdiag.push(bid.read(i2, i2 + 1));
        } else {
            subdiag.push(E::faer_zero());
        }
        i2 += 1;
    }

    // Upgrade the reflector factors of both sequences.
    let mut hf_left = stack.make_temp_mat(bs, n);
    let mut j: usize = 0;
    while j < n
        invariant
            taus.wf(),
            taus.spec_nrows() == 2,
            taus.spec_ncols() == n,
            hf_left.wf(),
            hf_left.spec_nrows() == bs,
            hf_left.spec_ncols() == n,
            bs >= 1,
            j <= n,
        decreases n - j,
    {
        let t = taus.read(0, j);
        hf_left.write(0, j, t);
        j += 1;
    }
    crate::qr::no_pivoting::compute::upgrade_factor_blocks(&bid, &mut hf_left, parallelism);

    let mut hf_right = stack.make_temp_mat(bs, n - 1);
    let mut j2: usize = 0;
    while j2 < n - 1
        invariant
            taus.wf(),
            taus.spec_nrows() == 2,
            taus.spec_ncols() == n,
            hf_right.wf(),
            hf_right.spec_nrows() == bs,
            hf_right.spec_ncols() == n - 1,
            bs >= 1,
            n >= 1,
            j2 <= n - 1,
        decreases n - 1 - j2,
    {
        let t = taus.read(1, j2);
        hf_right.write(0, j2, t);
        j2 += 1;
    }
    let tr_src = bid.submatrix(0, 1, n - 1, n - 1);
    let tr = tr_src.transpose();
    crate::qr::no_pivoting::compute::upgrade_factor_blocks(&tr, &mut hf_right, parallelism);

    // Solve the bidiagonal problem.
    let want_u = u.ncols() != 0;
    let want_v = v.ncols() != 0;
    let mut dense = stack.make_temp_mat(n, n);
    let mut u_bd = stack.make_temp_mat(n, if want_u {
        n
    } else {
        0
    });
    let mut v_bd = stack.make_temp_mat(n, if want_v {
        n
    } else {
        0
    });
    let res = bidiag_real_svd::bidiag_svd(
        &mut diag,
        &mut subdiag,
        &mut dense,
        &mut u_bd,
        &mut v_bd,
        jacobi_fallback_threshold(),
        epsilon,
        zero_threshold,
        parallelism,
    );
    if let Err(e) = res {
        stack.give_back_mat(v_bd);
        stack.give_back_mat(u_bd);
        stack.give_back_mat(dense);
        stack.give_back_mat(hf_right);
        stack.give_back_mat(hf_left);
        stack.give_back_mat(taus);
        stack.give_back_mat(bid);
        return Err(e);
    }

    let mut i3: usize = 0;
    while i3 < n
        invariant
            s.wf(),
            s.same_shape(old(s)),
            s.spec_nrows() == n,
            s.spec_ncols() == 1,
            diag@.len() == n,
            i3 <= n,
        decreases n - i3,
    {
        s.write(i3, 0, diag[i3]);
        i3 += 1;
    }

    if want_u {
        u.fill_zero();
        u.write_block(0, 0, &u_bd);
        let ucols = u.ncols();
        let mut d: usize = n;
        while d < ucols
            invariant
                u.wf(),
                u.same_shape(old(u)),
                u.spec_nrows() == m,
                u.spec_ncols() == ucols,
                n <= d,
                d <= ucols || d == n,
                ucols <= m,
            decreases ucols - d,
        {
            u.write(d, d, E::faer_one());
            d += 1;
        }
        proof {
            lemma_mul_le_svd(u.spec_ncols() as int, m as int, bs as int);
        }
        apply_block_householder_sequence_on_the_left_in_place_with_conj(
            &bid,
            &hf_left,
            Conj::No,
            u,
            parallelism,
            stack,
        );
    }

    if want_v {
        v.fill_zero();
        v.write_block(0, 0, &v_bd);
        let vcols = v.ncols();
        let mut v_sub = v.submatrix(1, 0, n - 1, vcols);
        proof {
            lemma_mul_le_svd(v.spec_ncols() as int, m as int, bs as int);
        }
        apply_block_householder_sequence_on_the_left_in_place_with_conj(
            &tr,
            &hf_right,
            Conj::No,
            &mut v_sub,
            parallelism,
            stack,
        );
        v.write_block(1, 0, &v_sub);
    }

    stack.give_back_mat(v_bd);
    stack.give_back_mat(u_bd);
    stack.give_back_mat(dense);
    stack.give_back_mat(hf_right);
    stack.give_back_mat(hf_left);
    stack.give_back_mat(taus);
    stack.give_back_mat(bid);
    Ok(())
}

/// The inner dispatch of the decomposition, on a matrix with at least as many
/// rows as columns.
fn compute_svd_imp<E: RealField>(
    matrix: &Mat<E>,
    s: &mut Mat<E>,
    u: &mut Mat<E>,
    v: &mut Mat<E>,
    epsilon: E,
    zero_threshold: E,
    parallelism: Parallelism,
    stack: &mut MemStack<E>,
) -> (r: Result<(), SvdError>)
    requires
        matrix.wf(),
        old(s).wf(),
        old(u).wf(),
        old(v).wf(),
        matrix.spec_nrows() >= matrix.spec_ncols(),
        old(s).spec_nrows() == matrix.spec_ncols(),
        old(s).spec_ncols() == 1,
        old(u).spec_ncols() != 0 ==> old(u).spec_nrows() == matrix.spec_nrows()
            && matrix.spec_ncols() <= old(u).spec_ncols() <= matrix.spec_nrows(),
        old(v).spec_ncols() != 0 ==> old(v).spec_nrows() == matrix.spec_ncols()
            && matrix.spec_ncols() <= old(v).spec_ncols() <= matrix.spec_ncols(),
        spec_svd_scratch(matrix.spec_nrows() as int, matrix.spec_ncols() as int) <= old(
            stack,
        ).spec_len(),
    ensures
        final(s).wf(),
        final(s).same_shape(old(s)),
        final(u).wf(),
        final(u).same_shape(old(u)),
        final(v).wf(),
        final(v).same_shape(old(v)),
        final(stack).spec_len() == old(stack).spec_len(),
        matrix.spec_ncols() == 0 ==> r is Ok,
{
    let n = matrix.ncols();
    if n == 0 {
        return Ok(());
    }
    if n <= jacobi_fallback_threshold() {
        compute_real_svd_small(matrix, s, u, v, epsilon, zero_threshold, parallelism, stack)
    } else {
        compute_real_svd_big(matrix, s, u, v, epsilon, zero_threshold, parallelism, stack)
    }
}

/// Computes the singular value decomposition of a real rectangular `matrix`:
/// the singular values land in the single column of `s`, nonnegative and in
/// descending order, and when `u` (respectively `v`) has columns the left
/// (respectively right) singular vectors land in its columns. A matrix with
/// more columns than rows is handled by decomposing its transpose, with the
/// roles of `u` and `v` exchanged.
pub fn compute_svd<E: RealField>(
    matrix: &Mat<E>,
    s: &mut Mat<E>,
    u: &mut Mat<E>,
    v: &mut Mat<E>,
    epsilon: E,
    zero_threshold: E,
    parallelism: Parallelism,
    stack: &mut MemStack<E>,
) -> (r: Result<(), SvdError>)
    requires
        matrix.wf(),
        old(s).wf(),
        old(u).wf(),
        old(v).wf(),
        old(s).spec_nrows() == vstd::math::min(
            matrix.spec_nrows() as int,
            matrix.spec_ncols() as int,
        ),
        old(s).spec_ncols() == 1,
        old(u).spec_ncols() != 0 ==> old(u).spec_nrows() == matrix.spec_nrows()
            && vstd::math::min(matrix.spec_nrows() as int, matrix.spec_ncols() as int) <= old(
            u,
        ).spec_ncols() <= matrix.spec_nrows(),
        old(v).spec_ncols() != 0 ==> old(v).spec_nrows() == matrix.spec_ncols()
            && vstd::math::min(matrix.spec_nrows() as int, matrix.spec_ncols() as int) <= old(
            v,
        ).spec_ncols() <= matrix.spec_ncols(),
        old(u).spec_ncols() != 0 && matrix.spec_nrows() > matrix.spec_ncols() ==> old(
            u,
        ).spec_ncols() == matrix.spec_ncols() || old(u).spec_ncols() == matrix.spec_nrows(),
        old(v).spec_ncols() != 0 && matrix.spec_ncols() > matrix.spec_nrows() ==> old(
            v,
        ).spec_ncols() == matrix.spec_nrows() || old(v).spec_ncols() == matrix.spec_ncols(),
        spec_svd_scratch(matrix.spec_nrows() as int, matrix.spec_ncols() as int) <= old(
            stack,
        ).spec_len(),
        matrix.spec_ncols() > matrix.spec_nrows() ==> (old(u).spec_ncols() == 0 || old(
            u,
        ).spec_ncols() == matrix.spec_nrows()) && (old(v).spec_ncols() == 0 || old(
            v,
        ).spec_ncols() <= matrix.spec_ncols()),
    ensures
        final(s).wf(),
        final(s).same_shape(old(s)),
        final(u).wf(),
        final(u).same_shape(old(u)),
        final(v).wf(),
        final(v).same_shape(old(v)),
        final(stack).spec_len() == old(stack).spec_len(),
        matrix.spec_nrows() == 0 || matrix.spec_ncols() == 0 ==> r is Ok,
{
    let m = matrix.nrows();
    let n = matrix.ncols();
    if n > m {
        let t = matrix.transpose();
        compute_svd_imp(&t, s, v, u, epsilon, zero_threshold, parallelism, stack)
    } else {
        compute_svd_imp(matrix, s, u, v, epsilon, zero_threshold, parallelism, stack)
    }
}

} // verus!
