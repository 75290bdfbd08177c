//! Eigenvalue decompositions.
//!
//! The self-adjoint pipeline reduces the matrix to a real tridiagonal form
//! through block Householder reflections, solves the tridiagonal eigenproblem
//! with the implicit-shift QR algorithm, and carries the eigenvectors back
//! through the stored reflector sequence. The general pipeline reduces the
//! matrix to upper Hessenberg form, runs an implicit-shift QR iteration with
//! bulge chasing down to (quasi-)triangular Schur form, solves for the
//! eigenvectors of that form by back-substitution, and back-transforms.

pub mod hessenberg;
pub mod hessenberg_cplx_evd;
pub mod hessenberg_real_evd;
pub mod tridiag;
pub mod tridiag_qr_algorithm;

use vstd::prelude::*;
use crate::householder::apply_block_householder_sequence_on_the_left_in_place_with_conj;
use crate::mat::Mat;
use crate::qr::no_pivoting::compute::recommended_blocksize;
use crate::scalar::{ComplexField, RealField};
use crate::stack::{MemStack, SizeOverflow, StackReq, temp_mat_req};
use crate::{Conj, EvdError, Parallelism};

verus! {

/// Whether the eigenvectors are computed or only the eigenvalues.
#[derive(Copy, Clone, PartialEq, Eq, Structural, Debug)]
pub enum ComputeVectors {
    /// Only the eigenvalues.
    No,
    /// The eigenvalues and the eigenvectors.
    Yes,
}

/// Tuning parameters of the self-adjoint decomposition.
#[derive(Default, Copy, Clone)]
#[non_exhaustive]
pub struct SymmetricEvdParams {}

/// Tuning parameters of the general decomposition.
#[derive(Default, Copy, Clone)]
#[non_exhaustive]
pub struct EvdParams {}

/// The exact scratch consumption of the self-adjoint pipeline for dimension
/// `n`: the full working copy, the reflector factor row, the real eigenvector
/// accumulator, the upgraded block factors and the back-transformation panel.
pub open spec fn spec_hermitian_evd_scratch(n: int) -> int {
    if n == 0 {
        0
    } else {
        let bs = crate::qr::no_pivoting::compute::spec_recommended_blocksize(n - 1, n - 1);
        2 * (n * n) + n + bs * (n - 1) + bs * n
    }
}

/// The scratch requirement of [`compute_hermitian_evd`]: the working copy of
/// the matrix, the reflector factor row, the real eigenvector accumulator, the
/// upgraded block factors and the back-transformation panel.
pub fn compute_hermitian_evd_req(
    n: usize,
    compute_eigenvectors: ComputeVectors,
    parallelism: Parallelism,
    params: SymmetricEvdParams,
) -> (r: Result<StackReq, SizeOverflow>)
    ensures
        r is Ok ==> r->Ok_0.spec_size() == spec_hermitian_evd_scratch(n as int),
        n == 0 ==> r is Ok,
{
    let _ = params;
    let _ = compute_eigenvectors;
    let _ = parallelism;
    if n == 0 {
        return Ok(StackReq::empty());
    }
    let bs = recommended_blocksize(n - 1, n - 1);
    let a = match temp_mat_req(n, n) {
        Ok(v) => v,
        Err(e) => {
            return Err(e);
        },
    };
    let b = match temp_mat_req(1, n) {
        Ok(v) => v,
        Err(e) => {
            return Err(e);
        },
    };
    let c = match temp_mat_req(n, n) {
        Ok(v) => v,
        Err(e) => {
            return Err(e);
        },
    };
    let d = match temp_mat_req(bs, n - 1) {
        Ok(v) => v,
        Err(e) => {
            return Err(e);
        },
    };
    let e2 = match temp_mat_req(bs, n) {
        Ok(v) => v,
        Err(e) => {
            return Err(e);
        },
    };
    let ab = match a.try_and(b) {
        Ok(v) => v,
        Err(e) => {
            return Err(e);
        },
    };
    let cd = match c.try_and(d) {
        Ok(v) => v,
        Err(e) => {
            return Err(e);
        },
    };
    let abcd = match ab.try_and(cd) {
        Ok(v) => v,
        Err(e) => {
            return Err(e);
        },
    };
    let total = match abcd.try_and(e2) {
        Ok(v) => v,
        Err(e) => {
            return Err(e);
        },
    };
    Ok(total)
}

/// Computes the eigenvalue decomposition of a self-adjoint `matrix`; only its
/// lower triangular half is read. The real eigenvalues land in the single
/// column of `s` in ascending order; when `u` has columns, the matching
/// eigenvectors land in its columns. Reports a convergence failure if the
/// iteration cap of the tridiagonal QR algorithm is exhausted.
pub fn compute_hermitian_evd<E: ComplexField>(
    matrix: &Mat<E>,
    s: &mut Mat<E>,
    u: &mut Mat<E>,
    parallelism: Parallelism,
    stack: &mut MemStack<E>,
    params: SymmetricEvdParams,
) -> (r: Result<(), EvdError>)
    requires
        matrix.wf(),
        old(s).wf(),
        old(u).wf(),
        matrix.spec_nrows() == matrix.spec_ncols(),
        old(s).spec_nrows() == matrix.spec_nrows(),
        old(s).spec_ncols() == 1,
        old(u).spec_ncols() != 0 ==> old(u).spec_nrows() == matrix.spec_nrows() && old(
            u,
        ).spec_ncols() == matrix.spec_nrows(),
        spec_hermitian_evd_scratch(matrix.spec_nrows() as int) <= old(stack).spec_len(),
    ensures
        final(s).wf(),
        final(s).same_shape(old(s)),
        final(u).wf(),
        final(u).same_shape(old(u)),
        final(stack).spec_len() == old(stack).spec_len(),
        matrix.spec_nrows() == 0 ==> r is Ok,
{
    compute_hermitian_evd_custom_epsilon(
        matrix,
        s,
        u,
        E::faer_epsilon(),
        E::faer_zero_threshold(),
        parallelism,
        stack,
        params,
    )
}

/// See [`compute_hermitian_evd`]; the precision and the absolute threshold of
/// the deflation tests are given by the caller.
pub fn compute_hermitian_evd_custom_epsilon<E: ComplexField>(
    matrix: &Mat<E>,
    s: &mut Mat<E>,
    u: &mut Mat<E>,
    epsilon: E,
    zero_threshold: E,
    parallelism: Parallelism,
    stack: &mut MemStack<E>,
    params: SymmetricEvdParams,
) -> (r: Result<(), EvdError>)
    requires
        matrix.wf(),
        old(s).wf(),
        old(u).wf(),
        matrix.spec_nrows() == matrix.spec_ncols(),
        old(s).spec_nrows() == matrix.spec_nrows(),
        old(s).spec_ncols() == 1,
        old(u).spec_ncols() != 0 ==> old(u).spec_nrows() == matrix.spec_nrows() && old(
            u,
        ).spec_ncols() == matrix.spec_nrows(),
        spec_hermitian_evd_scratch(matrix.spec_nrows() as int) <= old(stack).spec_len(),
    ensures
        final(s).wf(),
        final(s).same_shape(old(s)),
        final(u).wf(),
        final(u).same_shape(old(u)),
        final(stack).spec_len() == old(stack).spec_len(),
        matrix.spec_nrows() == 0 ==> r is Ok,
{
    let _ = params;
    let n = matrix.nrows();
    if n == 0 {
        return Ok(());
    }
    let want_u = u.ncols() != 0;

    let bs = recommended_blocksize(n - 1, n - 1);
    proof {
        lemma_hermitian_scratch_parts(n as int);
    }

    // The working copy holds the full self-adjoint matrix: the stored lower
    // half mirrored onto the upper half.
    let mut trid = stack.make_temp_mat(n, n);
    trid.copy_from_triangular_lower(matrix);
    let mut i: usize = 0;
    while i < n
        invariant
            trid.wf(),
            trid.spec_nrows() == n,
            trid.spec_ncols() == n,
            i <= n,
        decreases n - i,
    {
        let mut j: usize = i + 1;
        while j < n
            invariant
                trid.wf(),
                trid.spec_nrows() == n,
                trid.spec_ncols() == n,
                i < n,
                i + 1 <= j,
                j <= n || j == i + 1,
            decreases n - j,
        {
            let v = trid.read(j, i).faer_conj();
            trid.write(i, j, v);
            j += 1;
        }
        i += 1;
    }

    let mut householder = stack.make_temp_mat(1, n);
    tridiag::tridiagonalize_in_place(&mut trid, &mut householder, parallelism);

    // Extract the real tridiagonal data and the phase of each subdiagonal.
    let mut diag: Vec<E> = Vec::new();
    let mut i2: usize = 0;
    while i2 < n
        invariant
            trid.wf(),
            trid.spec_nrows() == n,
            trid.spec_ncols() == n,
            diag@.len() == i2,
            i2 <= n,
        decreases n - i2,
    {
        diag.push(trid.read(i2, i2).faer_real());
        i2 += 1;
    }
    let mut offdiag: Vec<E> = Vec::new();
    let mut i3: usize = 0;
    while i3 + 1 < n
        invariant
            trid.wf(),
            trid.spec_nrows() == n,
            trid.spec_ncols() == n,
            offdiag@.len() == i3,
            i3 + 1 <= n || i3 == 0,
        decreases n - i3,
    {
        offdiag.push(trid.read(i3 + 1, i3).faer_abs());
        i3 += 1;
    }

    if !want_u {
        let res = tridiag_qr_algorithm::compute_tridiag_real_evd_qr_algorithm(
            &mut diag,
            &mut offdiag,
            u,
            epsilon,
            zero_threshold,
        );
        let mut i4: usize = 0;
        while i4 < n
            invariant
                s.wf(),
                s.same_shape(old(s)),
                s.spec_nrows() == n,
                s.spec_ncols() == 1,
                diag@.len() == n,
                i4 <= n,
            decreases n - i4,
        {
            if i4 < diag.len() {
                s.write(i4, 0, E::faer_from_real(diag[i4]));
            }
            i4 += 1;
        }
        stack.give_back_mat(householder);
        stack.give_back_mat(trid);
        return res;
    }

    // Phase multipliers that turn the complex tridiagonal into the real one.
    let mut mul: Vec<E> = Vec::new();
    mul.push(E::faer_one());
    let mut x = E::faer_one();
    let mut i5: usize = 1;
    while i5 < n
        invariant
            trid.wf(),
            trid.spec_nrows() == n,
            trid.spec_ncols() == n,
            mul@.len() == i5,
            1 <= i5 <= n,
        decreases n - i5,
    {
        let t = trid.read(i5, i5 - 1).faer_mul(x.faer_conj());
        let normalized = if t.faer_is_zero() {
            E::faer_one()
        } else {
            t.faer_scale_real(t.faer_abs().faer_inv())
        };
        x = normalized.faer_conj();
        mul.push(x.faer_conj());
        i5 += 1;
    }

    let mut u_real = stack.make_temp_mat(n, n);
    let res = tridiag_qr_algorithm::compute_tridiag_real_evd_qr_algorithm(
        &mut diag,
        &mut offdiag,
        &mut u_real,
        epsilon,
        zero_threshold,
    );
    if let Err(e) = res {
        stack.give_back_mat(u_real);
        stack.give_back_mat(householder);
        stack.give_back_mat(trid);
        return Err(e);
    }

    // u = phases × u_real
    let mut j2: usize = 0;
    while j2 < n
        invariant
            u.wf(),
            u.same_shape(old(u)),
            u.spec_nrows() == n,
            u.spec_ncols() == n,
            u_real.wf(),
            u_real.spec_nrows() == n,
            u_real.spec_ncols() == n,
            mul@.len() == n,
            j2 <= n,
        decreases n - j2,
    {
        let mut i6: usize = 0;
        while i6 < n
            invariant
                u.wf(),
                u.same_shape(old(u)),
                u.spec_nrows() == n,
                u.spec_ncols() == n,
                u_real.wf(),
                u_real.spec_nrows() == n,
                u_real.spec_ncols() == n,
                mul@.len() == n,
                j2 < n,
                i6 <= n,
            decreases n - i6,
        {
            let v = mul[i6].faer_scale_real(u_real.read(i6, j2));
            u.write(i6, j2, v);
            i6 += 1;
        }
        j2 += 1;
    }
    stack.give_back_mat(u_real);

    let mut i7: usize = 0;
    while i7 < n
        invariant
            s.wf(),
            s.same_shape(old(s)),
            s.spec_nrows() == n,
            s.spec_ncols() == 1,
            diag@.len() == n,
            i7 <= n,
        decreases n - i7,
    {
        if i7 < diag.len() {
            s.write(i7, 0, E::faer_from_real(diag[i7]));
        }
        i7 += 1;
    }

    // Upgrade the reflector factors and back-transform the eigenvectors.
    if n > 1 {
        let mut hf = stack.make_temp_mat(bs, n - 1);
        let mut j3: usize = 0;
        while j3 < n - 1
            invariant
                householder.wf(),
                householder.spec_nrows() == 1,
                householder.spec_ncols() == n,
                hf.wf(),
                hf.spec_nrows() == bs,
                hf.spec_ncols() == n - 1,
                bs >= 1,
                n >= 1,
                j3 <= n - 1,
            decreases n - 1 - j3,
        {
            let t = householder.read(0, j3);
            hf.write(0, j3, t);
            j3 += 1;
        }

        let full_essentials = trid.submatrix(1, 0, n - 1, n - 1);
        crate::qr::no_pivoting::compute::upgrade_factor_blocks(
            &full_essentials,
            &mut hf,
            parallelism,
        );

        let mut u_sub = u.submatrix(1, 0, n - 1, n);
        proof {
            lemma_bs_times_cols(bs as int, n as int);
        }
        apply_block_householder_sequence_on_the_left_in_place_with_conj(
            &full_essentials,
            &hf,
            Conj::No,
            &mut u_sub,
            parallelism,
            stack,
        );
        u.write_block(1, 0, &u_sub);

        stack.give_back_mat(hf);
    }

    stack.give_back_mat(householder);
    stack.give_back_mat(trid);
    Ok(())
}

/// The exact scratch consumption of the general pipeline for dimension `n`:
/// the Hessenberg working copy, the accumulated transformation, the
/// eigenvector solve workspace, the block factors and the transformation
/// panel.
pub open spec fn spec_evd_scratch(n: int) -> int {
    if n == 0 {
        0
    } else {
        let bs = crate::qr::no_pivoting::compute::spec_recommended_blocksize(n - 1, n - 1);
        3 * (n * n) + n + 2 * (bs * (n - 1))
    }
}

/// The scratch requirement of [`compute_evd_real`] and
/// [`compute_evd_complex`].
pub fn compute_evd_req(
    n: usize,
    compute_eigenvectors: ComputeVectors,
    parallelism: Parallelism,
    params: EvdParams,
) -> (r: Result<StackReq, SizeOverflow>)
    ensures
        r is Ok ==> r->Ok_0.spec_size() == spec_evd_scratch(n as int),
        n == 0 ==> r is Ok,
{
    let _ = params;
    let _ = compute_eigenvectors;
    let _ = parallelism;
    if n == 0 {
        return Ok(StackReq::empty());
    }
    let bs = recommended_blocksize(n - 1, n - 1);
    let a = match temp_mat_req(n, n) {
        Ok(v) => v,
        Err(e) => {
            return Err(e);
        },
    };
    let b = match temp_mat_req(n, n) {
        Ok(v) => v,
        Err(e) => {
            return Err(e);
        },
    };
    let c = match temp_mat_req(n, n) {
        Ok(v) => v,
        Err(e) => {
            return Err(e);
        },
    };
    let d = match temp_mat_req(1, n) {
        Ok(v) => v,
        Err(e) => {
            return Err(e);
        },
    };
    let e2 = match temp_mat_req(bs, n - 1) {
        Ok(v) => v,
        Err(e) => {
            return Err(e);
        },
    };
    let f = match temp_mat_req(bs, n - 1) {
        Ok(v) => v,
        Err(e) => {
            return Err(e);
        },
    };
    let ab = match a.try_and(b) {
        Ok(v) => v,
        Err(e) => {
            return Err(e);
        },
    };
    let cd = match c.try_and(d) {
        Ok(v) => v,
        Err(e) => {
            return Err(e);
        },
    };
    let ef = match e2.try_and(f) {
        Ok(v) => v,
        Err(e) => {
            return Err(e);
        },
    };
    let abcd = match ab.try_and(cd) {
        Ok(v) => v,
        Err(e) => {
            return Err(e);
        },
    };
    let total = match abcd.try_and(ef) {
        Ok(v) => v,
        Err(e) => {
            return Err(e);
        },
    };
    Ok(total)
}

/// Reduces `matrix` to Hessenberg form in the working copy `h`, accumulates
/// the reduction in `z` when eigenvectors are wanted, and upgrades the block
/// factors; the shared front end of the general pipelines.
fn evd_front_end<E: ComplexField>(
    matrix: &Mat<E>,
    h: &mut Mat<E>,
    z: &mut Mat<E>,
    want_u: bool,
    parallelism: Parallelism,
    stack: &mut MemStack<E>,
) -> (r: Result<(), EvdError>)
    requires
        matrix.wf(),
        old(h).wf(),
        old(z).wf(),
        matrix.spec_nrows() == matrix.spec_ncols(),
        matrix.spec_nrows() >= 1,
        old(h).spec_nrows() == matrix.spec_nrows(),
        old(h).spec_ncols() == matrix.spec_nrows(),
        old(z).spec_nrows() == matrix.spec_nrows(),
        old(z).spec_ncols() == matrix.spec_nrows(),
        spec_evd_scratch(matrix.spec_nrows() as int) - 2 * (matrix.spec_nrows()
            * matrix.spec_nrows()) <= old(stack).spec_len(),
    ensures
        final(h).wf(),
        final(h).same_shape(old(h)),
        final(z).wf(),
        final(z).same_shape(old(z)),
        final(stack).spec_len() == old(stack).spec_len(),
{
    let n = matrix.nrows();
    let bs = recommended_blocksize(n - 1, n - 1);
    h.copy_from(matrix);

    let eye = Mat::identity(n, n);
    z.copy_from(&eye);

    let mut householder = stack.make_temp_mat(1, n);
    hessenberg::make_hessenberg_in_place(h, &mut householder, parallelism);

    if n > 1 {
        let mut hf = stack.make_temp_mat(bs, n - 1);
        let mut j3: usize = 0;
        while j3 < n - 1
            invariant
                householder.wf(),
                householder.spec_nrows() == 1,
                householder.spec_ncols() == n,
                hf.wf(),
                hf.spec_nrows() == bs,
                hf.spec_ncols() == n - 1,
                bs >= 1,
                n >= 1,
                j3 <= n - 1,
            decreases n - 1 - j3,
        {
            let t = householder.read(0, j3);
            hf.write(0, j3, t);
            j3 += 1;
        }
        let essentials = h.submatrix(1, 0, n - 1, n - 1);
        crate::qr::no_pivoting::compute::upgrade_factor_blocks(&essentials, &mut hf, parallelism);

        if want_u {
            // z[1.., 1..] accumulates the reduction applied from the right.
            let mut z_sub = z.submatrix(1, 1, n - 1, n - 1);
            proof {
                lemma_prod_monotone(bs as int, n as int);
            }
            crate::householder::apply_block_householder_sequence_on_the_right_in_place_with_conj(
                &essentials,
                &hf,
                Conj::No,
                &mut z_sub,
                parallelism,
                stack,
            );
            z.write_block(1, 1, &z_sub);
        }
        stack.give_back_mat(hf);
    }

    // Zero the entries below the subdiagonal of the Hessenberg form.
    let mut j: usize = 0;
    while j < n
        invariant
            h.wf(),
            h.same_shape(old(h)),
            h.spec_nrows() == n,
            h.spec_ncols() == n,
            j <= n,
        decreases n - j,
    {
        let mut i: usize = if j + 1 < n {
            j + 2
        } else {
            n
        };
        while i < n
            invariant
                h.wf(),
                h.same_shape(old(h)),
                h.spec_nrows() == n,
                h.spec_ncols() == n,
                j < n,
                i <= n,
            decreases n - i,
        {
            h.write(i, j, E::faer_zero());
            i += 1;
        }
        j += 1;
    }

    stack.give_back_mat(householder);
    Ok(())
}

/// A product with a factor of at least one dominates the other factor.
proof fn lemma_prod_monotone(bs: int, n: int)
    requires
        bs >= 1,
        n >= 1,
    ensures
        bs * (n - 1) >= n - 1,
        bs * n >= n,
        bs * (n - 1) + bs == bs * n,
{
    assert(bs * (n - 1) >= n - 1) by (nonlinear_arith)
        requires
            bs >= 1,
            n >= 1,
    ;
    assert(bs * n >= n) by (nonlinear_arith)
        requires
            bs >= 1,
            n >= 1,
    ;
    assert(bs * (n - 1) + bs == bs * n) by (nonlinear_arith);
}

/// Computes the eigenvalue decomposition of a square real `matrix`. The real
/// and imaginary parts of the eigenvalues land in the single columns of `s_re`
/// and `s_im`; complex-conjugate pairs sit in consecutive positions. When `u`
/// has columns, each real eigenvalue gets its eigenvector column, and each
/// complex pair at positions `k`, `k + 1` stores the real and imaginary parts
/// of the eigenvector of the eigenvalue with positive imaginary part in
/// columns `k` and `k + 1`. Reports a convergence failure when the iteration
/// cap of the QR iteration is exhausted.
pub fn compute_evd_real<E: RealField>(
    matrix: &Mat<E>,
    s_re: &mut Mat<E>,
    s_im: &mut Mat<E>,
    u: &mut Mat<E>,
    parallelism: Parallelism,
    stack: &mut MemStack<E>,
    params: EvdParams,
) -> (r: Result<(), EvdError>)
    requires
        matrix.wf(),
        old(s_re).wf(),
        old(s_im).wf(),
        old(u).wf(),
        matrix.spec_nrows() == matrix.spec_ncols(),
        old(s_re).spec_nrows() == matrix.spec_nrows(),
        old(s_re).spec_ncols() == 1,
        old(s_im).spec_nrows() == matrix.spec_nrows(),
        old(s_im).spec_ncols() == 1,
        old(u).spec_ncols() != 0 ==> old(u).spec_nrows() == matrix.spec_nrows() && old(
            u,
        ).spec_ncols() == matrix.spec_nrows(),
        spec_evd_scratch(matrix.spec_nrows() as int) <= old(stack).spec_len(),
    ensures
        final(s_re).wf(),
        final(s_re).same_shape(old(s_re)),
        final(s_im).wf(),
        final(s_im).same_shape(old(s_im)),
        final(u).wf(),
        final(u).same_shape(old(u)),
        final(stack).spec_len() == old(stack).spec_len(),
        matrix.spec_nrows() == 0 ==> r is Ok,
{
    compute_evd_real_custom_epsilon(
        matrix,
        s_re,
        s_im,
        u,
        E::faer_epsilon(),
        E::faer_zero_threshold(),
        parallelism,
        stack,
        params,
    )
}

/// See [`compute_evd_real`]; the precision and the absolute threshold of the
/// deflation tests are given by the caller.
pub fn compute_evd_real_custom_epsilon<E: RealField>(
    matrix: &Mat<E>,
    s_re: &mut Mat<E>,
    s_im: &mut Mat<E>,
    u: &mut Mat<E>,
    epsilon: E,
    zero_threshold: E,
    parallelism: Parallelism,
    stack: &mut MemStack<E>,
    params: EvdParams,
) -> (r: Result<(), EvdError>)
    requires
        matrix.wf(),
        old(s_re).wf(),
        old(s_im).wf(),
        old(u).wf(),
        matrix.spec_nrows() == matrix.spec_ncols(),
        old(s_re).spec_nrows() == matrix.spec_nrows(),
        old(s_re).spec_ncols() == 1,
        old(s_im).spec_nrows() == matrix.spec_nrows(),
        old(s_im).spec_ncols() == 1,
        old(u).spec_ncols() != 0 ==> old(u).spec_nrows() == matrix.spec_nrows() && old(
            u,
        ).spec_ncols() == matrix.spec_nrows(),
        spec_evd_scratch(matrix.spec_nrows() as int) <= old(stack).spec_len(),
    ensures
        final(s_re).wf(),
        final(s_re).same_shape(old(s_re)),
        final(s_im).wf(),
        final(s_im).same_shape(old(s_im)),
        final(u).wf(),
        final(u).same_shape(old(u)),
        final(stack).spec_len() == old(stack).spec_len(),
        matrix.spec_nrows() == 0 ==> r is Ok,
{
    let n = matrix.nrows();
    if n == 0 {
        return Ok(());
    }
    let want_u = u.ncols() != 0;

    let mut h = stack.make_temp_mat(n, n);
    let mut z = stack.make_temp_mat(n, n);

    let front = evd_front_end(matrix, &mut h, &mut z, want_u, parallelism, stack);
    if let Err(e) = front {
        stack.give_back_mat(z);
        stack.give_back_mat(h);
        return Err(e);
    }

    let res = hessenberg_real_evd::multishift_qr(
        want_u,
        &mut h,
        &mut z,
        s_re,
        s_im,
        epsilon,
        zero_threshold,
        parallelism,
        params,
    );
    if let Err(e) = res {
        stack.give_back_mat(z);
        stack.give_back_mat(h);
        return Err(e);
    }

    if want_u {
        // Solve for the eigenvectors of the quasi-triangular form by
        // back-substitution, then carry them back through `z`.
        let mut x = stack.make_temp_mat(n, n);
        x.fill_zero();

        let mut norm = zero_threshold;
        let mut jn: usize = 0;
        while jn < n
            invariant
                h.wf(),
                h.spec_nrows() == n,
                h.spec_ncols() == n,
                jn <= n,
            decreases n - jn,
        {
            let mut im: usize = 0;
            while im < n && im <= jn
                invariant
                    h.wf(),
                    h.spec_nrows() == n,
                    h.spec_ncols() == n,
                    jn < n,
                    im <= n,
                decreases n - im,
            {
                norm = norm.faer_add(h.read(im, jn).faer_abs());
                im += 1;
            }
            if jn + 1 < n {
                norm = norm.faer_add(h.read(jn + 1, jn).faer_abs());
            }
            jn += 1;
        }

        let mut k = n;
        while k > 0
            invariant
                h.wf(),
                h.spec_nrows() == n,
                h.spec_ncols() == n,
                x.wf(),
                x.spec_nrows() == n,
                x.spec_ncols() == n,
                k <= n,
            decreases k,
        {
            k -= 1;

            if k == 0 || h.read(k, k - 1).faer_is_zero() {
                // Real eigenvalue: forward elimination with a small
                // perturbation replacing an exactly singular pivot.
                let p = h.read(k, k);
                x.write(k, k, E::faer_one());

                let mut i = k;
                while i > 0
                    invariant
                        h.wf(),
                        h.spec_nrows() == n,
                        h.spec_ncols() == n,
                        x.wf(),
                        x.spec_nrows() == n,
                        x.spec_ncols() == n,
                        i <= k < n,
                    decreases i,
                {
                    i -= 1;

                    if i == 0 || h.read(i, i - 1).faer_is_zero() {
                        let mut dot = E::faer_zero();
                        let mut q: usize = i + 1;
                        while q <= k
                            invariant
                                h.wf(),
                                h.spec_nrows() == n,
                                h.spec_ncols() == n,
                                x.wf(),
                                x.spec_nrows() == n,
                                x.spec_ncols() == n,
                                i < n,
                                k < n,
                                i + 1 <= q,
                                q <= k + 1,
                            decreases k + 1 - q,
                        {
                            dot = dot.faer_add(h.read(i, q).faer_mul(x.read(q, k)));
                            q += 1;
                        }
                        let mut zz = h.read(i, i).faer_sub(p);
                        if zz.faer_is_zero() {
                            zz = epsilon.faer_mul(norm);
                        }
                        let num = x.read(i, k).faer_sub(dot);
                        x.write(i, k, num.faer_mul(zz.faer_inv()));
                    } else {
                        // Two-by-two diagonal block of the quasi-triangular
                        // form.
                        let mut dot0 = E::faer_zero();
                        let mut dot1 = E::faer_zero();
                        let mut q: usize = i + 1;
                        while q <= k
                            invariant
                                h.wf(),
                                h.spec_nrows() == n,
                                h.spec_ncols() == n,
                                x.wf(),
                                x.spec_nrows() == n,
                                x.spec_ncols() == n,
                                1 <= i < n,
                                k < n,
                                i + 1 <= q,
                                q <= k + 1,
                            decreases k + 1 - q,
                        {
                            dot0 = dot0.faer_add(h.read(i - 1, q).faer_mul(x.read(q, k)));
                            dot1 = dot1.faer_add(h.read(i, q).faer_mul(x.read(q, k)));
                            q += 1;
                        }
                        let r0 = x.read(i - 1, k).faer_sub(dot0);
                        let r1 = x.read(i, k).faer_sub(dot1);

                        let a = h.read(i, i).faer_sub(p);
                        let b = h.read(i - 1, i);
                        let c = h.read(i, i - 1);

                        let inv_det = a.faer_mul(a).faer_sub(b.faer_mul(c)).faer_inv();
                        let x0 = a.faer_mul(r0).faer_sub(b.faer_mul(r1)).faer_mul(inv_det);
                        let x1 = a.faer_mul(r1).faer_sub(c.faer_mul(r0)).faer_mul(inv_det);
                        x.write(i - 1, k, x0);
                        x.write(i, k, x1);

                        i -= 1;
                    }
                }
            } else {
                // Complex-conjugate pair: two columns solved at once with
                // complex arithmetic assembled from real and imaginary parts.
                let p = h.read(k, k);
                let q_im = h.read(k, k - 1).faer_abs().faer_sqrt().faer_mul(
                    h.read(k - 1, k).faer_abs().faer_sqrt(),
                );

                if h.read(k - 1, k).faer_abs().faer_ge(h.read(k, k - 1).faer_abs()) {
                    x.write(k - 1, k - 1, E::faer_one());
                    x.write(k, k, q_im.faer_mul(h.read(k - 1, k).faer_inv()));
                } else {
                    x.write(k - 1, k - 1, q_im.faer_neg().faer_mul(h.read(k, k - 1).faer_inv()));
                    x.write(k, k, E::faer_one());
                }
                x.write(k - 1, k, E::faer_zero());
                x.write(k, k - 1, E::faer_zero());

                let mut i2: usize = 0;
                while i2 < k - 1
                    invariant
                        h.wf(),
                        h.spec_nrows() == n,
                        h.spec_ncols() == n,
                        x.wf(),
                        x.spec_nrows() == n,
                        x.spec_ncols() == n,
                        1 <= k < n,
                        i2 <= k - 1,
                    decreases k - 1 - i2,
                {
                    let v0 = x.read(k - 1, k - 1).faer_neg().faer_mul(h.read(i2, k - 1));
                    x.write(i2, k - 1, v0);
                    let v1 = x.read(k, k).faer_neg().faer_mul(h.read(i2, k));
                    x.write(i2, k, v1);
                    i2 += 1;
                }

                let mut i = k - 1;
                while i > 0
                    invariant
                        h.wf(),
                        h.spec_nrows() == n,
                        h.spec_ncols() == n,
                        x.wf(),
                        x.spec_nrows() == n,
                        x.spec_ncols() == n,
                        1 <= k < n,
                        i <= k - 1,
                    decreases i,
                {
                    i -= 1;

                    if i == 0 || h.read(i, i - 1).faer_is_zero() {
                        let mut dot = crate::complex_native::Complex::new(
                            E::faer_zero(),
                            E::faer_zero(),
                        );
                        let mut q: usize = i + 1;
                        while q < k - 1
                            invariant
                                h.wf(),
                                h.spec_nrows() == n,
                                h.spec_ncols() == n,
                                x.wf(),
                                x.spec_nrows() == n,
                                x.spec_ncols() == n,
                                i < n,
                                1 <= k < n,
                                i + 1 <= q,
                                q <= k - 1 || q == i + 1,
                            decreases k - q,
                        {
                            let zq = crate::complex_native::Complex::new(
                                x.read(q, k - 1),
                                x.read(q, k),
                            );
                            dot = dot.faer_add(zq.faer_scale_real(
                                crate::complex_native::Complex::new(
                                    h.read(i, q),
                                    E::faer_zero(),
                                ),
                            ));
                            q += 1;
                        }

                        let re0 = x.read(i, k - 1).faer_sub(dot.re);
                        x.write(i, k - 1, re0);
                        let im0 = x.read(i, k).faer_sub(dot.im);
                        x.write(i, k, im0);

                        let zden = crate::complex_native::Complex::new(
                            h.read(i, i).faer_sub(p),
                            q_im.faer_neg(),
                        );
                        let xcur = crate::complex_native::Complex::new(
                            x.read(i, k - 1),
                            x.read(i, k),
                        );
                        if !(xcur.re.faer_is_zero() && xcur.im.faer_is_zero()) {
                            let sol = zden.faer_inv().faer_mul(xcur);
                            x.write(i, k - 1, sol.re);
                            x.write(i, k, sol.im);
                        }
                    } else {
                        let mut dot0 = crate::complex_native::Complex::new(
                            E::faer_zero(),
                            E::faer_zero(),
                        );
                        let mut dot1 = crate::complex_native::Complex::new(
                            E::faer_zero(),
                            E::faer_zero(),
                        );
                        let mut q: usize = i + 1;
                        while q < k - 1
                            invariant
                                h.wf(),
                                h.spec_nrows() == n,
                                h.spec_ncols() == n,
                                x.wf(),
                                x.spec_nrows() == n,
                                x.spec_ncols() == n,
                                1 <= i < n,
                                1 <= k < n,
                                i + 1 <= q,
                                q <= k - 1 || q == i + 1,
                            decreases k - q,
                        {
                            let zq = crate::complex_native::Complex::new(
                                x.read(q, k - 1),
                                x.read(q, k),
                            );
                            dot0 = dot0.faer_add(zq.faer_scale_real(
                                crate::complex_native::Complex::new(
                                    h.read(i - 1, q),
                                    E::faer_zero(),
                                ),
                            ));
                            dot1 = dot1.faer_add(zq.faer_scale_real(
                                crate::complex_native::Complex::new(
                                    h.read(i, q),
                                    E::faer_zero(),
                                ),
                            ));
                            q += 1;
                        }

                        let r00 = x.read(i - 1, k - 1).faer_sub(dot0.re);
                        x.write(i - 1, k - 1, r00);
                        let r01 = x.read(i - 1, k).faer_sub(dot0.im);
                        x.write(i - 1, k, r01);
                        let r10 = x.read(i, k - 1).faer_sub(dot1.re);
                        x.write(i, k - 1, r10);
                        let r11 = x.read(i, k).faer_sub(dot1.im);
                        x.write(i, k, r11);

                        let za = crate::complex_native::Complex::new(
                            h.read(i, i).faer_sub(p),
                            q_im.faer_neg(),
                        );
                        let b = h.read(i - 1, i);
                        let c = h.read(i, i - 1);

                        let r0 = crate::complex_native::Complex::new(
                            x.read(i - 1, k - 1),
                            x.read(i - 1, k),
                        );
                        let r1 = crate::complex_native::Complex::new(
                            x.read(i, k - 1),
                            x.read(i, k),
                        );

                        let bc = crate::complex_native::Complex::new(
                            b.faer_mul(c),
                            E::faer_zero(),
                        );
                        let inv_det = za.faer_mul(za).faer_sub(bc).faer_inv();

                        let sb = crate::complex_native::Complex::new(b, E::faer_zero());
                        let sc = crate::complex_native::Complex::new(c, E::faer_zero());
                        let x0 = za.faer_mul(r0).faer_sub(sb.faer_mul(r1)).faer_mul(inv_det);
                        let x1 = za.faer_mul(r1).faer_sub(sc.faer_mul(r0)).faer_mul(inv_det);

                        x.write(i - 1, k - 1, x0.re);
                        x.write(i - 1, k, x0.im);
                        x.write(i, k - 1, x1.re);
                        x.write(i, k, x1.im);

                        i -= 1;
                    }
                }

                k -= 1;
            }
        }

        // u = z × x over the upper triangle of x.
        crate::matmul::triangular::matmul(
            u,
            crate::matmul::triangular::BlockStructure::Rectangular,
            &z,
            crate::matmul::triangular::BlockStructure::Rectangular,
            &x,
            crate::matmul::triangular::BlockStructure::TriangularUpper,
            None,
            E::faer_one(),
            parallelism,
        );

        stack.give_back_mat(x);
    }

    stack.give_back_mat(z);
    stack.give_back_mat(h);
    Ok(())
}

/// Computes the eigenvalue decomposition of a square complex `matrix`. The
/// eigenvalues land in the single column of `s`; when `u` has columns, the
/// matching eigenvectors land in its columns. Reports a convergence failure
/// when the iteration cap of the QR iteration is exhausted.
pub fn compute_evd_complex<E: ComplexField>(
    matrix: &Mat<E>,
    s: &mut Mat<E>,
    u: &mut Mat<E>,
    parallelism: Parallelism,
    stack: &mut MemStack<E>,
    params: EvdParams,
) -> (r: Result<(), EvdError>)
    requires
        matrix.wf(),
        old(s).wf(),
        old(u).wf(),
        matrix.spec_nrows() == matrix.spec_ncols(),
        old(s).spec_nrows() == matrix.spec_nrows(),
        old(s).spec_ncols() == 1,
        old(u).spec_ncols() != 0 ==> old(u).spec_nrows() == matrix.spec_nrows() && old(
            u,
        ).spec_ncols() == matrix.spec_nrows(),
        spec_evd_scratch(matrix.spec_nrows() as int) <= old(stack).spec_len(),
    ensures
        final(s).wf(),
        final(s).same_shape(old(s)),
        final(u).wf(),
        final(u).same_shape(old(u)),
        final(stack).spec_len() == old(stack).spec_len(),
        matrix.spec_nrows() == 0 ==> r is Ok,
{
    compute_evd_complex_custom_epsilon(
        matrix,
        s,
        u,
        E::faer_epsilon(),
        E::faer_zero_threshold(),
        parallelism,
        stack,
        params,
    )
}

/// See [`compute_evd_complex`]; the precision and the absolute threshold of
/// the deflation tests are given by the caller.
pub fn compute_evd_complex_custom_epsilon<E: ComplexField>(
    matrix: &Mat<E>,
    s: &mut Mat<E>,
    u: &mut Mat<E>,
    epsilon: E,
    zero_threshold: E,
    parallelism: Parallelism,
    stack: &mut MemStack<E>,
    params: EvdParams,
) -> (r: Result<(), EvdError>)
    requires
        matrix.wf(),
        old(s).wf(),
        old(u).wf(),
        matrix.spec_nrows() == matrix.spec_ncols(),
        old(s).spec_nrows() == matrix.spec_nrows(),
        old(s).spec_ncols() == 1,
        old(u).spec_ncols() != 0 ==> old(u).spec_nrows() == matrix.spec_nrows() && old(
            u,
        ).spec_ncols() == matrix.spec_nrows(),
        spec_evd_scratch(matrix.spec_nrows() as int) <= old(stack).spec_len(),
    ensures
        final(s).wf(),
        final(s).same_shape(old(s)),
        final(u).wf(),
        final(u).same_shape(old(u)),
        final(stack).spec_len() == old(stack).spec_len(),
        matrix.spec_nrows() == 0 ==> r is Ok,
{
    let n = matrix.nrows();
    if n == 0 {
        return Ok(());
    }
    let want_u = u.ncols() != 0;

    let mut h = stack.make_temp_mat(n, n);
    let mut z = stack.make_temp_mat(n, n);

    let front = evd_front_end(matrix, &mut h, &mut z, want_u, parallelism, stack);
    if let Err(e) = front {
        stack.give_back_mat(z);
        stack.give_back_mat(h);
        return Err(e);
    }

    let res = hessenberg_cplx_evd::multishift_qr(
        want_u,
        &mut h,
        &mut z,
        s,
        epsilon,
        zero_threshold,
        parallelism,
        params,
    );
    if let Err(e) = res {
        stack.give_back_mat(z);
        stack.give_back_mat(h);
        return Err(e);
    }

    if want_u {
        // Solve for the eigenvectors of the triangular form, then carry them
        // back through `z`.
        let mut x = stack.make_temp_mat(n, n);
        x.fill_zero();

        let mut norm = zero_threshold;
        let mut jn: usize = 0;
        while jn < n
            invariant
                h.wf(),
                h.spec_nrows() == n,
                h.spec_ncols() == n,
                jn <= n,
            decreases n - jn,
        {
            let mut im: usize = 0;
            while im < n && im <= jn
                invariant
                    h.wf(),
                    h.spec_nrows() == n,
                    h.spec_ncols() == n,
                    jn < n,
                    im <= n,
                decreases n - im,
            {
                norm = norm.faer_add(h.read(im, jn).faer_abs2());
                im += 1;
            }
            jn += 1;
        }
        let norm = norm.faer_sqrt();

        let mut k = n;
        while k > 0
            invariant
                h.wf(),
                h.spec_nrows() == n,
                h.spec_ncols() == n,
                x.wf(),
                x.spec_nrows() == n,
                x.spec_ncols() == n,
                k <= n,
            decreases k,
        {
            k -= 1;
            x.write(k, k, E::faer_zero());
            let mut i = k;
            while i > 0
                invariant
                    h.wf(),
                    h.spec_nrows() == n,
                    h.spec_ncols() == n,
                    x.wf(),
                    x.spec_nrows() == n,
                    x.spec_ncols() == n,
                    i <= k < n,
                decreases i,
            {
                i -= 1;
                let mut acc = h.read(i, k).faer_neg();
                let mut q: usize = i + 1;
                while q < k
                    invariant
                        h.wf(),
                        h.spec_nrows() == n,
                        h.spec_ncols() == n,
                        x.wf(),
                        x.spec_nrows() == n,
                        x.spec_ncols() == n,
                        i < n,
                        k < n,
                        i + 1 <= q,
                        q <= k || q == i + 1,
                    decreases k - q,
                {
                    acc = acc.faer_sub(h.read(i, q).faer_mul(x.read(q, k)));
                    q += 1;
                }

                let mut zden = h.read(i, i).faer_sub(h.read(k, k));
                if zden.faer_is_zero() {
                    zden = E::faer_from_real(epsilon.faer_mul(norm));
                }
                if !acc.faer_is_zero() {
                    acc = acc.faer_mul(zden.faer_inv());
                }
                x.write(i, k, acc);
            }
        }

        // u = z × (x + I) over the unit upper triangle of x.
        crate::matmul::triangular::matmul(
            u,
            crate::matmul::triangular::BlockStructure::Rectangular,
            &z,
            crate::matmul::triangular::BlockStructure::Rectangular,
            &x,
            crate::matmul::triangular::BlockStructure::UnitTriangularUpper,
            None,
            E::faer_one(),
            parallelism,
        );

        stack.give_back_mat(x);
    }

    stack.give_back_mat(z);
    stack.give_back_mat(h);
    Ok(())
}

/// What remains on the stack after the leading allocations of the self-adjoint
/// pipeline still covers the remaining ones.
proof fn lemma_hermitian_scratch_parts(n: int)
    requires
        n >= 1,
    ensures
        n * n >= n,
        n * n >= n - 1,
{
    assert(n * n >= n) by (nonlinear_arith)
        requires
            n >= 1,
    ;
}

/// The back-transformation panel of the reflector sequence fits in the
/// eigenvector square and the panel allocation.
proof fn lemma_bs_times_cols(bs: int, n: int)
    requires
        bs >= 1,
        n >= 1,
    ensures
        bs * (n - 1) + n <= bs * n + n,
        bs * n >= n,
{
    assert(bs * (n - 1) + bs == bs * n) by (nonlinear_arith);
    assert(bs * n >= n) by (nonlinear_arith)
        requires
            bs >= 1,
            n >= 1,
    ;
}

} // verus!
