//! Implicit multishift QR iteration over a real upper Hessenberg matrix,
//! chasing a double-shift bulge down the subdiagonal with pairs of Givens
//! rotations until the matrix deflates to real Schur form: a quasi-triangular
//! matrix whose diagonal carries one-by-one blocks for real eigenvalues and
//! standardized two-by-two blocks for complex-conjugate pairs.

use vstd::prelude::*;
use crate::jacobi::JacobiRotation;
use crate::mat::Mat;
use crate::scalar::{real_max, ComplexField, RealField};
use crate::{EvdError, Parallelism};
use crate::evd::EvdParams;

verus! {

/// The iteration budget per eigenvalue.
fn max_iters_per_dim() -> (r: usize)
    ensures
        r == 30,
{
    30
}

/// Applies a rotation over rows `i0` and `i1` and columns `i0` and `i1` of
/// `h`, as a similarity, and accumulates it in the columns of `z` when `z` has
/// columns.
fn apply_similarity<E: ComplexField>(
    h: &mut Mat<E>,
    z: &mut Mat<E>,
    rot: &JacobiRotation<E>,
    i0: usize,
    i1: usize,
)
    requires
        old(h).wf(),
        old(z).wf(),
        old(h).spec_nrows() == old(h).spec_ncols(),
        i0 < old(h).spec_nrows(),
        i1 < old(h).spec_nrows(),
        i0 != i1,
        old(z).spec_ncols() != 0 ==> old(z).spec_ncols() == old(h).spec_nrows(),
    ensures
        final(h).wf(),
        final(h).same_shape(old(h)),
        final(z).wf(),
        final(z).same_shape(old(z)),
{
    rot.transpose().apply_on_the_left_in_place(h, i0, i1);
    rot.apply_on_the_right_in_place(h, i0, i1);
    if z.ncols() != 0 {
        rot.apply_on_the_right_in_place(z, i0, i1);
    }
}

/// Standardizes the two-by-two block `[[a, b], [c, d]]` with complex
/// eigenvalues: returns the rotation that makes the two diagonal entries
/// equal, after which the eigenvalues read off as the diagonal value plus or
/// minus `i sqrt(|b'| |c'|)`.
fn standardize_rotation<E: RealField>(a: E, b: E, c: E, d: E) -> JacobiRotation<E> {
    let temp = a.faer_sub(d);
    let half = E::faer_from_u64(2).faer_inv();
    let p = temp.faer_mul(half);
    let sigma = b.faer_add(c);
    if sigma.faer_is_zero() && p.faer_is_zero() {
        return JacobiRotation { c: E::faer_one(), s: E::faer_zero() };
    }
    let tau = sigma.faer_mul(sigma).faer_add(temp.faer_mul(temp)).faer_sqrt();
    if tau.faer_is_zero() {
        return JacobiRotation { c: E::faer_one(), s: E::faer_zero() };
    }
    let cs = E::faer_one().faer_add(sigma.faer_abs().faer_mul(tau.faer_inv())).faer_mul(
        half,
    ).faer_sqrt();
    let sign_sigma = if sigma.faer_ge(E::faer_zero()) {
        E::faer_one()
    } else {
        E::faer_one().faer_neg()
    };
    let sn = p.faer_mul(tau.faer_mul(cs).faer_inv()).faer_mul(sign_sigma);
    JacobiRotation { c: cs, s: sn }
}

/// Runs the implicit double-shift QR iteration on the upper Hessenberg matrix
/// `h`, reducing it to real Schur form in place; the real
/// and imaginary parts of the eigenvalues land in the single columns of `s_re`
/// and `s_im`, and the transformations accumulate in the columns of `z` when
/// it has columns. The quasi-triangular factor is maintained over the whole
/// matrix, whether or not it is wanted. Reports a convergence failure when the
/// iteration cap is exhausted.
pub fn multishift_qr<E: RealField>(
    want_t: bool,
    h: &mut Mat<E>,
    z: &mut Mat<E>,
    s_re: &mut Mat<E>,
    s_im: &mut Mat<E>,
    epsilon: E,
    zero_threshold: E,
    parallelism: Parallelism,
    params: EvdParams,
) -> (r: Result<(), EvdError>)
    requires
        old(h).wf(),
        old(z).wf(),
        old(s_re).wf(),
        old(s_im).wf(),
        old(h).spec_nrows() == old(h).spec_ncols(),
        old(s_re).spec_nrows() == old(h).spec_nrows(),
        old(s_re).spec_ncols() == 1,
        old(s_im).spec_nrows() == old(h).spec_nrows(),
        old(s_im).spec_ncols() == 1,
        old(z).spec_ncols() != 0 ==> old(z).spec_nrows() == old(h).spec_nrows() && old(
            z,
        ).spec_ncols() == old(h).spec_nrows(),
    ensures
        final(h).wf(),
        final(h).same_shape(old(h)),
        final(z).wf(),
        final(z).same_shape(old(z)),
        final(s_re).wf(),
        final(s_re).same_shape(old(s_re)),
        final(s_im).wf(),
        final(s_im).same_shape(old(s_im)),
{
    let _ = want_t;
    let _ = parallelism;
    let _ = params;
    let n = h.nrows();
    if n == 0 {
        return Ok(());
    }

    let cap = match crate::stack::checked_mul(max_iters_per_dim(), n) {
        Some(c) => c,
        _ => usize::MAX,
    };
    let mut iter: usize = 0;

    let half = E::faer_from_u64(2).faer_inv();

    // `iu` is the inclusive top of the active window.
    let mut iu = n - 1;
    loop
        invariant_except_break
            h.wf(),
            h.same_shape(old(h)),
            h.spec_nrows() == n,
            h.spec_ncols() == n,
            z.wf(),
            z.same_shape(old(z)),
            z.spec_ncols() != 0 ==> z.spec_nrows() == n && z.spec_ncols() == n,
            s_re.wf(),
            s_re.same_shape(old(s_re)),
            s_re.spec_nrows() == n,
            s_re.spec_ncols() == 1,
            s_im.wf(),
            s_im.same_shape(old(s_im)),
            s_im.spec_nrows() == n,
            s_im.spec_ncols() == 1,
            iu < n,
            iter <= cap,
        ensures
            h.wf(),
            h.same_shape(old(h)),
            z.wf(),
            z.same_shape(old(z)),
            s_re.wf(),
            s_re.same_shape(old(s_re)),
            s_im.wf(),
            s_im.same_shape(old(s_im)),
        decreases cap - iter, iu,
    {
        // Deflation scan: find the start `l` of the block that ends at `iu`.
        let mut l = iu;
        while l > 0
            invariant
                h.wf(),
                h.spec_nrows() == n,
                h.spec_ncols() == n,
                l <= iu < n,
            decreases l,
        {
            let od = h.read(l, l - 1).faer_abs();
            let scale = h.read(l - 1, l - 1).faer_abs().faer_add(h.read(l, l).faer_abs());
            let small = real_max(epsilon.faer_mul(scale), zero_threshold);
            if small.faer_ge(od) {
                h.write(l, l - 1, E::faer_zero());
                break ;
            }
            l -= 1;
        }

        if l == iu {
            // One real eigenvalue has converged.
            let v = h.read(iu, iu);
            s_re.write(iu, 0, v);
            s_im.write(iu, 0, E::faer_zero());
            if iu == 0 {
                break ;
            }
            iu -= 1;
        } else if l + 1 == iu {
            // A two-by-two block has converged: split it into two real
            // eigenvalues or standardize it for a complex-conjugate pair.
            let a = h.read(l, l);
            let b = h.read(l, iu);
            let c = h.read(iu, l);
            let d = h.read(iu, iu);
            let p = a.faer_sub(d).faer_mul(half);
            let q = p.faer_mul(p).faer_add(b.faer_mul(c));

            if q.faer_ge(E::faer_zero()) {
                // Real eigenvalues: rotate the eigenvector of the larger one
                // into the first basis vector.
                let sq = q.faer_sqrt();
                let zz = if p.faer_ge(E::faer_zero()) {
                    p.faer_add(sq)
                } else {
                    p.faer_sub(sq)
                };
                let rot = if zz.faer_is_zero() && c.faer_is_zero() {
                    JacobiRotation { c: E::faer_one(), s: E::faer_zero() }
                } else {
                    JacobiRotation::make_givens(zz, c)
                };
                apply_similarity(h, z, &rot, l, iu);
                h.write(iu, l, E::faer_zero());
                let v0 = h.read(l, l);
                s_re.write(l, 0, v0);
                s_im.write(l, 0, E::faer_zero());
                let v1 = h.read(iu, iu);
                s_re.write(iu, 0, v1);
                s_im.write(iu, 0, E::faer_zero());
            } else {
                let rot = standardize_rotation(a, b, c, d);
                apply_similarity(h, z, &rot, l, iu);
                let sa = h.read(l, l);
                let sb = h.read(l, iu);
                let sc = h.read(iu, l);
                let im = sb.faer_abs().faer_sqrt().faer_mul(sc.faer_abs().faer_sqrt());
                s_re.write(l, 0, sa);
                s_im.write(l, 0, im);
                let sd = h.read(iu, iu);
                s_re.write(iu, 0, sd);
                s_im.write(iu, 0, im.faer_neg());
            }
            if l == 0 {
                break ;
            }
            iu = l - 1;
        } else {
            // Francis double-shift sweep over the window `[l, iu]`.
            if iter >= cap {
                return Err(EvdError);
            }
            iter += 1;

            let hii = h.read(iu, iu);
            let himm = h.read(iu - 1, iu - 1);
            let shift_sum = hii.faer_add(himm);
            let shift_prod = hii.faer_mul(himm).faer_sub(
                h.read(iu, iu - 1).faer_mul(h.read(iu - 1, iu)),
            );

            // First column of (H - aI)(H - bI).
            let mut x = h.read(l, l).faer_mul(h.read(l, l)).faer_add(
                h.read(l, l + 1).faer_mul(h.read(l + 1, l)),
            ).faer_sub(shift_sum.faer_mul(h.read(l, l))).faer_add(shift_prod);
            let mut y = h.read(l + 1, l).faer_mul(
                h.read(l, l).faer_add(h.read(l + 1, l + 1)).faer_sub(shift_sum),
            );
            let mut w = if l + 2 <= iu {
                h.read(l + 1, l).faer_mul(h.read(l + 2, l + 1))
            } else {
                E::faer_zero()
            };

            let mut m = l;
            while m < iu
                invariant
                    h.wf(),
                    h.same_shape(old(h)),
                    h.spec_nrows() == n,
                    h.spec_ncols() == n,
                    z.wf(),
                    z.same_shape(old(z)),
                    z.spec_ncols() != 0 ==> z.spec_nrows() == n && z.spec_ncols() == n,
                    l <= m,
                    m <= iu,
                    iu < n,
                decreases iu - m,
            {
                // Annihilate the third bulge entry against the second, then the
                // second against the first.
                if m + 2 <= iu && !w.faer_is_zero() {
                    let rot1 = JacobiRotation::make_givens(y, w);
                    apply_similarity(h, z, &rot1, m + 1, m + 2);
                    y = rot1.c.faer_mul(y).faer_sub(rot1.s.faer_mul(w));
                }
                let rot2 = JacobiRotation::make_givens(x, y);
                apply_similarity(h, z, &rot2, m, m + 1);

                // Restore the Hessenberg zeros under the bulge.
                if m > l {
                    h.write(m + 1, m - 1, E::faer_zero());
                    if m + 2 <= iu {
                        h.write(m + 2, m - 1, E::faer_zero());
                    }
                }

                // Next bulge column.
                if m + 1 < iu {
                    x = h.read(m + 1, m);
                    y = h.read(m + 2, m);
                    w = if m + 3 <= iu {
                        h.read(m + 3, m)
                    } else {
                        E::faer_zero()
                    };
                }
                m += 1;
            }
        }
    }
    Ok(())
}

} // verus!
