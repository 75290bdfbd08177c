//! The implicit-shift QR algorithm over a real tridiagonal matrix: a Wilkinson
//! shift is chosen from the trailing two-by-two block, the bulge is chased
//! down the band with Givens rotations, and an off diagonal entry deflates
//! when it falls under `epsilon · sqrt(|d[i]| + |d[i+1]|)`, floored by the
//! absolute threshold. The eigenvalues are sorted ascending at the end, with
//! paired column exchanges in the eigenvector matrix.

use vstd::prelude::*;
use crate::jacobi::JacobiRotation;
use crate::mat::Mat;
use crate::perm::swap_cols;
use crate::scalar::{real_max, ComplexField};
use crate::EvdError;

verus! {

/// The iteration budget per eigenvalue.
fn max_iters_per_dim() -> (r: usize)
    ensures
        r == 30,
{
    30
}

/// Computes the eigenvalues, and optionally the eigenvectors, of the real
/// symmetric tridiagonal matrix with the given diagonal and subdiagonal. The
/// eigenvalues land in `diag` in ascending order; when `u` has columns it must
/// be square of the tridiagonal dimension, and the eigenvectors land in its
/// columns. The values are real-valued scalars. Reports a convergence failure
/// when the iteration cap is exhausted.
pub fn compute_tridiag_real_evd_qr_algorithm<E: ComplexField>(
    diag: &mut Vec<E>,
    offdiag: &mut Vec<E>,
    u: &mut Mat<E>,
    epsilon: E,
    consider_zero_threshold: E,
) -> (r: Result<(), EvdError>)
    requires
        old(diag)@.len() >= 1 ==> old(offdiag)@.len() >= old(diag)@.len() - 1,
        old(u).wf(),
        old(u).spec_ncols() != 0 ==> old(u).spec_nrows() == old(diag)@.len() && old(
            u,
        ).spec_ncols() == old(diag)@.len(),
    ensures
        final(diag)@.len() == old(diag)@.len(),
        final(offdiag)@.len() == old(offdiag)@.len(),
        final(u).wf(),
        final(u).same_shape(old(u)),
        old(diag)@.len() <= 1 ==> r is Ok,
{
    let n = diag.len();
    if n <= 1 {
        if n == 1 && u.ncols() != 0 {
            let eye = Mat::identity(1, 1);
            u.copy_from(&eye);
        }
        return Ok(());
    }

    let want_u = u.ncols() != 0;
    if want_u {
        let eye = Mat::identity(n, n);
        u.copy_from(&eye);
    }

    let mut end = n - 1;
    let mut start: usize = 0;

    let cap = match crate::stack::checked_mul(max_iters_per_dim(), n) {
        Some(c) => c,
        _ => usize::MAX,
    };
    let mut iter: usize = 0;

    while end > 0
        invariant
            diag@.len() == n,
            diag@.len() == old(diag)@.len(),
            offdiag@.len() == old(offdiag)@.len(),
            offdiag@.len() >= n - 1,
            u.wf(),
            u.same_shape(old(u)),
            want_u ==> u.spec_nrows() == n && u.spec_ncols() == n,
            n >= 2,
            end < n,
            iter <= cap,
        decreases cap - iter, end,
    {
        // Deflation pass over the active window.
        let mut i: usize = if start < end {
            start
        } else {
            end
        };
        while i < end
            invariant
                diag@.len() == n,
                diag@.len() == old(diag)@.len(),
                offdiag@.len() == old(offdiag)@.len(),
                offdiag@.len() >= n - 1,
                end < n,
                i <= end,
            decreases end - i,
        {
            let od = offdiag[i].faer_abs();
            let scale = diag[i].faer_abs().faer_add(diag[i + 1].faer_abs()).faer_sqrt();
            if consider_zero_threshold.faer_gt(od) || epsilon.faer_mul(scale).faer_ge(od) {
                offdiag.set(i, E::faer_zero());
            }
            i += 1;
        }

        // Shrink the window from the back past deflated entries.
        while end > 0 && offdiag[end - 1].faer_is_zero()
            invariant
                diag@.len() == n,
                offdiag@.len() == old(offdiag)@.len(),
                offdiag@.len() >= n - 1,
                end < n,
            decreases end,
        {
            end -= 1;
        }
        if end == 0 {
            break ;
        }

        if iter >= cap {
            return Err(EvdError);
        }
        iter += 1;

        // Find the start of the unreduced block that ends at `end`.
        start = end - 1;
        while start > 0 && !offdiag[start - 1].faer_is_zero()
            invariant
                diag@.len() == n,
                offdiag@.len() == old(offdiag)@.len(),
                offdiag@.len() >= n - 1,
                end < n,
                start < end,
            decreases start,
        {
            start -= 1;
        }

        // Wilkinson shift from the trailing two-by-two block.
        let td = diag[end - 1];
        let e = offdiag[end - 1];
        let mut mu = diag[end];
        if td.faer_is_zero() {
            mu = mu.faer_sub(e.faer_abs());
        } else if !e.faer_is_zero() {
            let e2 = e.faer_abs2();
            let h = td.faer_abs2().faer_add(e2).faer_sqrt();
            let h = if td.faer_gt(E::faer_zero()) {
                h
            } else {
                h.faer_neg()
            };
            if e2.faer_is_zero() {
                mu = mu.faer_sub(e.faer_mul(td.faer_add(h).faer_mul(e.faer_inv()).faer_inv()));
            } else {
                mu = mu.faer_sub(e2.faer_mul(td.faer_add(h).faer_inv()));
            }
        }

        let mut x = diag[start].faer_sub(mu);
        let mut z = offdiag[start];

        // Chase the bulge down the band.
        let mut k = start;
        while k < end && !z.faer_is_zero()
            invariant
                diag@.len() == n,
                diag@.len() == old(diag)@.len(),
                offdiag@.len() == old(offdiag)@.len(),
                offdiag@.len() >= n - 1,
                u.wf(),
                u.same_shape(old(u)),
                want_u ==> u.spec_nrows() == n && u.spec_ncols() == n,
                end < n,
                start <= k,
                k <= end,
            decreases end - k,
        {
            let rot = JacobiRotation::make_givens(x, z);
            // T = Gᵀ T G over the rows and columns k, k + 1.
            let sdk = rot.s.faer_mul(diag[k]).faer_add(rot.c.faer_mul(offdiag[k]));
            let dkp1 = rot.s.faer_mul(offdiag[k]).faer_add(rot.c.faer_mul(diag[k + 1]));

            let new_dk = rot.c.faer_mul(
                rot.c.faer_mul(diag[k]).faer_sub(rot.s.faer_mul(offdiag[k])),
            ).faer_sub(
                rot.s.faer_mul(rot.c.faer_mul(offdiag[k]).faer_sub(rot.s.faer_mul(diag[k + 1]))),
            );
            diag.set(k, new_dk);
            diag.set(k + 1, rot.s.faer_mul(sdk).faer_add(rot.c.faer_mul(dkp1)));
            offdiag.set(k, rot.c.faer_mul(sdk).faer_sub(rot.s.faer_mul(dkp1)));

            if k > start {
                let prev = offdiag[k - 1];
                offdiag.set(k - 1, rot.c.faer_mul(prev).faer_sub(rot.s.faer_mul(z)));
            }

            x = offdiag[k];
            if k + 1 < end {
                z = rot.s.faer_neg().faer_mul(offdiag[k + 1]);
                offdiag.set(k + 1, rot.c.faer_mul(offdiag[k + 1]));
            } else {
                z = E::faer_zero();
            }

            // Accumulate the rotation in the eigenvector matrix: U = U × G.
            if want_u {
                rot.apply_on_the_right_in_place(u, k, k + 1);
            }
            k += 1;
        }
    }

    // Sort the eigenvalues ascending with paired column exchanges.
    let mut i2: usize = 0;
    while i2 + 1 < n
        invariant
            diag@.len() == n,
            diag@.len() == old(diag)@.len(),
            offdiag@.len() == old(offdiag)@.len(),
            u.wf(),
            u.same_shape(old(u)),
            want_u ==> u.spec_nrows() == n && u.spec_ncols() == n,
            n >= 2,
            i2 + 1 <= n || i2 == 0,
        decreases n - i2,
    {
        let mut min_idx = i2;
        let mut min_val = diag[i2];
        let mut k2: usize = i2 + 1;
        while k2 < n
            invariant
                diag@.len() == n,
                diag@.len() == old(diag)@.len(),
                i2 < n,
                i2 + 1 <= k2,
                k2 <= n || k2 == i2 + 1,
                i2 <= min_idx < n,
            decreases n - k2,
        {
            if min_val.faer_gt(diag[k2]) {
                min_idx = k2;
                min_val = diag[k2];
            }
            k2 += 1;
        }
        if min_idx > i2 {
            let tmp = diag[i2];
            diag.set(i2, diag[min_idx]);
            diag.set(min_idx, tmp);
            if want_u {
                swap_cols(u, min_idx, i2);
            }
        }
        i2 += 1;
    }

    Ok(())
}

} // verus!
