//! Implicit single-shift QR iteration over a complex upper Hessenberg matrix,
//! chasing the bulge down the subdiagonal with unitary plane rotations until
//! the matrix deflates to upper triangular Schur form.

use vstd::prelude::*;
use crate::mat::Mat;
use crate::scalar::{real_max, ComplexField};
use crate::{EvdError, Parallelism};
use crate::evd::EvdParams;

verus! {

/// The iteration budget per eigenvalue.
fn max_iters_per_dim() -> (r: usize)
    ensures
        r == 30,
{
    30
}

/// A unitary plane rotation `[[c, s], [-conj(s), c]]`, with a real cosine,
/// that sends the vector `(a, b)` to a multiple of the first basis vector.
fn make_complex_givens<E: ComplexField>(a: E, b: E) -> (E, E) {
    if b.faer_is_zero() {
        (E::faer_one(), E::faer_zero())
    } else if a.faer_is_zero() {
        let s = b.faer_conj().faer_scale_real(b.faer_abs().faer_inv());
        (E::faer_zero(), s)
    } else {
        let r = a.faer_abs2().faer_add(b.faer_abs2()).faer_sqrt();
        let r_inv = r.faer_inv();
        let c = a.faer_abs().faer_mul(r_inv);
        let phase = a.faer_scale_real(a.faer_abs().faer_inv());
        let s = phase.faer_mul(b.faer_conj()).faer_scale_real(r_inv);
        (c, s)
    }
}

/// Applies the rotation from the left over rows `i0` and `i1`.
fn rotate_rows<E: ComplexField>(h: &mut Mat<E>, c: E, s: E, i0: usize, i1: usize)
    requires
        old(h).wf(),
        i0 < old(h).spec_nrows(),
        i1 < old(h).spec_nrows(),
        i0 != i1,
    ensures
        final(h).wf(),
        final(h).same_shape(old(h)),
{
    let n = h.ncols();
    let mut j: usize = 0;
    while j < n
        invariant
            h.wf(),
            h.same_shape(old(h)),
            h.spec_ncols() == n,
            i0 < h.spec_nrows(),
            i1 < h.spec_nrows(),
            j <= n,
        decreases n - j,
    {
        let x = h.read(i0, j);
        let y = h.read(i1, j);
        h.write(i0, j, c.faer_mul(x).faer_add(s.faer_mul(y)));
        h.write(i1, j, s.faer_conj().faer_neg().faer_mul(x).faer_add(c.faer_mul(y)));
        j += 1;
    }
}

/// Applies the adjoint of the rotation from the right over columns `j0` and
/// `j1`.
fn rotate_cols<E: ComplexField>(h: &mut Mat<E>, c: E, s: E, j0: usize, j1: usize)
    requires
        old(h).wf(),
        j0 < old(h).spec_ncols(),
        j1 < old(h).spec_ncols(),
        j0 != j1,
    ensures
        final(h).wf(),
        final(h).same_shape(old(h)),
{
    let m = h.nrows();
    let mut i: usize = 0;
    while i < m
        invariant
            h.wf(),
            h.same_shape(old(h)),
            h.spec_nrows() == m,
            j0 < h.spec_ncols(),
            j1 < h.spec_ncols(),
            i <= m,
        decreases m - i,
    {
        let x = h.read(i, j0);
        let y = h.read(i, j1);
        h.write(i, j0, c.faer_mul(x).faer_add(s.faer_conj().faer_mul(y)));
        h.write(i, j1, s.faer_neg().faer_mul(x).faer_add(c.faer_mul(y)));
        i += 1;
    }
}

/// Runs the implicit single-shift QR iteration on the complex upper Hessenberg
/// matrix `h`, reducing it to upper triangular Schur form in place; the
/// eigenvalues land in the single column of `s`, and the
/// transformations accumulate in the columns of `z` when it has columns.
/// Reports a convergence failure when the iteration cap is exhausted.
pub fn multishift_qr<E: ComplexField>(
    want_t: bool,
    h: &mut Mat<E>,
    z: &mut Mat<E>,
    s: &mut Mat<E>,
    epsilon: E,
    zero_threshold: E,
    parallelism: Parallelism,
    params: EvdParams,
) -> (r: Result<(), EvdError>)
    requires
        old(h).wf(),
        old(z).wf(),
        old(s).wf(),
        old(h).spec_nrows() == old(h).spec_ncols(),
        old(s).spec_nrows() == old(h).spec_nrows(),
        old(s).spec_ncols() == 1,
        old(z).spec_ncols() != 0 ==> old(z).spec_nrows() == old(h).spec_nrows() && old(
            z,
        ).spec_ncols() == old(h).spec_nrows(),
    ensures
        final(h).wf(),
        final(h).same_shape(old(h)),
        final(z).wf(),
        final(z).same_shape(old(z)),
        final(s).wf(),
        final(s).same_shape(old(s)),
{
    let _ = want_t;
    let _ = parallelism;
    let _ = params;
    let n = h.nrows();
    if n == 0 {
        return Ok(());
    }
    let want_z = z.ncols() != 0;

    let cap = match crate::stack::checked_mul(max_iters_per_dim(), n) {
        Some(c) => c,
        _ => usize::MAX,
    };
    let mut iter: usize = 0;

    let half = E::faer_from_u64(2).faer_inv();

    let mut iu = n - 1;
    loop
        invariant_except_break
            h.wf(),
            h.same_shape(old(h)),
            h.spec_nrows() == n,
            h.spec_ncols() == n,
            z.wf(),
            z.same_shape(old(z)),
            want_z ==> z.spec_nrows() == n && z.spec_ncols() == n,
            s.wf(),
            s.same_shape(old(s)),
            s.spec_nrows() == n,
            s.spec_ncols() == 1,
            iu < n,
            iter <= cap,
        ensures
            h.wf(),
            h.same_shape(old(h)),
            z.wf(),
            z.same_shape(old(z)),
            s.wf(),
            s.same_shape(old(s)),
        decreases cap - iter, iu,
    {
        // Deflation scan.
        let mut l = iu;
        while l > 0
            invariant
                h.wf(),
                h.spec_nrows() == n,
                h.spec_ncols() == n,
                l <= iu < n,
            decreases l,
        {
            let od = h.read(l, l - 1).faer_abs();
            let scale = h.read(l - 1, l - 1).faer_abs().faer_add(h.read(l, l).faer_abs());
            let small = real_max(epsilon.faer_mul(scale), zero_threshold);
            if small.faer_ge(od) {
                h.write(l, l - 1, E::faer_zero());
                break ;
            }
            l -= 1;
        }

        if l == iu {
            let v = h.read(iu, iu);
            s.write(iu, 0, v);
            if iu == 0 {
                break ;
            }
            iu -= 1;
        } else {
            if iter >= cap {
                return Err(EvdError);
            }
            iter += 1;

            // Wilkinson shift from the trailing two-by-two block.
            let a = h.read(iu - 1, iu - 1);
            let b = h.read(iu - 1, iu);
            let c2 = h.read(iu, iu - 1);
            let d = h.read(iu, iu);
            let delta = a.faer_sub(d).faer_mul(half);
            let disc = delta.faer_mul(delta).faer_add(b.faer_mul(c2));
            let sq = disc.faer_sqrt();
            let d1 = delta.faer_add(sq);
            let d2 = delta.faer_sub(sq);
            let denom = if d1.faer_abs().faer_ge(d2.faer_abs()) {
                d1
            } else {
                d2
            };
            let shift = if denom.faer_is_zero() {
                d
            } else {
                d.faer_sub(b.faer_mul(c2).faer_mul(denom.faer_inv()))
            };

            let mut x = h.read(l, l).faer_sub(shift);
            let mut y = h.read(l + 1, l);

            let mut k = l;
            while k < iu
                invariant
                    h.wf(),
                    h.same_shape(old(h)),
                    h.spec_nrows() == n,
                    h.spec_ncols() == n,
                    z.wf(),
                    z.same_shape(old(z)),
                    want_z ==> z.spec_nrows() == n && z.spec_ncols() == n,
                    l <= k,
                    k <= iu,
                    iu < n,
                decreases iu - k,
            {
                let (c3, s3) = make_complex_givens(x, y);
                rotate_rows(h, c3, s3, k, k + 1);
                rotate_cols(h, c3, s3, k, k + 1);
                if want_z {
                    rotate_cols(z, c3, s3, k, k + 1);
                }

                if k > l {
                    h.write(k + 1, k - 1, E::faer_zero());
                }

                if k + 1 < iu {
                    x = h.read(k + 1, k);
                    y = h.read(k + 2, k);
                }
                k += 1;
            }
        }
    }
    Ok(())
}

} // verus!
