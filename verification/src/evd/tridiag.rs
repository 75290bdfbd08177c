//! Tridiagonalization of a self-adjoint matrix through successive Householder
//! reflections: the reduced tridiagonal lands on the diagonal and the
//! subdiagonal, the essential parts of the reflectors land below the
//! subdiagonal, and the reflector factors land in the factor row.

use vstd::prelude::*;
use crate::householder::make_householder_in_place;
use crate::mat::Mat;
use crate::scalar::ComplexField;
use crate::Parallelism;

verus! {

/// Reduces the full self-adjoint `a` to tridiagonal form by a two-sided
/// Householder similarity at every column; the reflector factor of step `k`
/// lands in `householder[0, k]`.
pub fn tridiagonalize_in_place<E: ComplexField>(
    a: &mut Mat<E>,
    householder: &mut Mat<E>,
    parallelism: Parallelism,
)
    requires
        old(a).wf(),
        old(householder).wf(),
        old(a).spec_nrows() == old(a).spec_ncols(),
        old(householder).spec_nrows() >= 1,
        old(householder).spec_ncols() >= old(a).spec_nrows(),
    ensures
        final(a).wf(),
        final(a).same_shape(old(a)),
        final(householder).wf(),
        final(householder).same_shape(old(householder)),
{
    let _ = parallelism;
    let n = a.nrows();
    if n <= 1 {
        return ;
    }

    let mut k: usize = 0;
    while k + 1 < n
        invariant
            a.wf(),
            a.same_shape(old(a)),
            a.spec_nrows() == n,
            a.spec_ncols() == n,
            householder.wf(),
            householder.same_shape(old(householder)),
            householder.spec_nrows() >= 1,
            householder.spec_ncols() >= n,
            n >= 2,
            k + 1 <= n,
        decreases n - k,
    {
        // Reflector of the column below the diagonal.
        let mut tail_squared_norm = E::faer_zero();
        let mut i: usize = k + 2;
        while i < n
            invariant
                a.wf(),
                a.spec_nrows() == n,
                a.spec_ncols() == n,
                k + 1 < n,
                k + 2 <= i,
                i <= n || i == k + 2,
            decreases n - i,
        {
            tail_squared_norm = tail_squared_norm.faer_add(a.read(i, k).faer_abs2());
            i += 1;
        }
        let head = a.read(k + 1, k);
        let mut essential = a.submatrix(k + 2, k, n - k - 2, 1);
        let (tau, beta) = make_householder_in_place(&mut essential, head, tail_squared_norm);
        a.write(k + 1, k, beta);
        a.write_block(k + 2, k, &essential);
        householder.write(0, k, tau);

        // Two-sided update of the trailing block: with the reflector vector
        // `v` (unit head), p = T v / tau, w = p - (vᴴ p / (2 tau)) v, and
        // T -= v wᴴ + w vᴴ.
        let rem = n - k - 1;
        let tau_inv = tau.faer_inv();

        // v[i] for i in 0..rem: 1 at 0, stored entries below.
        let mut p: Vec<E> = Vec::new();
        let mut r: usize = 0;
        while r < rem
            invariant
                a.wf(),
                a.spec_nrows() == n,
                a.spec_ncols() == n,
                k + 1 < n,
                rem == n - k - 1,
                p@.len() == r,
                r <= rem,
            decreases rem - r,
        {
            let mut acc = E::faer_zero();
            let mut c: usize = 0;
            while c < rem
                invariant
                    a.wf(),
                    a.spec_nrows() == n,
                    a.spec_ncols() == n,
                    k + 1 < n,
                    rem == n - k - 1,
                    r < rem,
                    c <= rem,
                decreases rem - c,
            {
                let vc = if c == 0 {
                    E::faer_one()
                } else {
                    a.read(k + 1 + c, k)
                };
                acc = acc.faer_add(a.read(k + 1 + r, k + 1 + c).faer_mul(vc));
                c += 1;
            }
            p.push(acc.faer_mul(tau_inv));
            r += 1;
        }

        // alpha = vᴴ p / (2 tau)
        let mut vhp = E::faer_zero();
        let mut r2: usize = 0;
        while r2 < rem
            invariant
                a.wf(),
                a.spec_nrows() == n,
                a.spec_ncols() == n,
                k + 1 < n,
                rem == n - k - 1,
                p@.len() == rem,
                r2 <= rem,
            decreases rem - r2,
        {
            let vr = if r2 == 0 {
                E::faer_one()
            } else {
                a.read(k + 1 + r2, k)
            };
            vhp = vhp.faer_add(vr.faer_conj().faer_mul(p[r2]));
            r2 += 1;
        }
        let half = E::faer_from_u64(2).faer_inv();
        let alpha = vhp.faer_mul(tau_inv).faer_mul(half);

        // w = p - alpha v
        let mut w: Vec<E> = Vec::new();
        let mut r3: usize = 0;
        while r3 < rem
            invariant
                a.wf(),
                a.spec_nrows() == n,
                a.spec_ncols() == n,
                k + 1 < n,
                rem == n - k - 1,
                p@.len() == rem,
                w@.len() == r3,
                r3 <= rem,
            decreases rem - r3,
        {
            let vr = if r3 == 0 {
                E::faer_one()
            } else {
                a.read(k + 1 + r3, k)
            };
            w.push(p[r3].faer_sub(alpha.faer_mul(vr)));
            r3 += 1;
        }

        // T -= v wᴴ + w vᴴ
        let mut rr: usize = 0;
        while rr < rem
            invariant
                a.wf(),
                a.spec_nrows() == n,
                a.spec_ncols() == n,
                k + 1 < n,
                rem == n - k - 1,
                p@.len() == rem,
                w@.len() == rem,
                rr <= rem,
            decreases rem - rr,
        {
            let vr = if rr == 0 {
                E::faer_one()
            } else {
                a.read(k + 1 + rr, k)
            };
            let wr = w[rr];
            let mut cc: usize = 0;
            while cc < rem
                invariant
                    a.wf(),
                    a.spec_nrows() == n,
                    a.spec_ncols() == n,
                    k + 1 < n,
                    rem == n - k - 1,
                    p@.len() == rem,
                    w@.len() == rem,
                    rr < rem,
                    cc <= rem,
                decreases rem - cc,
            {
                let vc = if cc == 0 {
                    E::faer_one()
                } else {
                    a.read(k + 1 + cc, k)
                };
                let wc = w[cc];
                let upd = vr.faer_mul(wc.faer_conj()).faer_add(wr.faer_mul(vc.faer_conj()));
                let v = a.read(k + 1 + rr, k + 1 + cc).faer_sub(upd);
                a.write(k + 1 + rr, k + 1 + cc, v);
                cc += 1;
            }
            rr += 1;
        }

        k += 1;
    }
}

} // verus!
