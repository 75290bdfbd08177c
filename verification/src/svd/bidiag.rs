//! Bidiagonalization of a real matrix with at least as many rows as columns:
//! alternating left and right Householder reflections reduce it to upper
//! bidiagonal form, with the left reflector basis stored below the diagonal,
//! the right reflector basis stored right of the superdiagonal, and the
//! reflector factors stored in the two rows of `taus`.

use vstd::prelude::*;
use crate::householder::make_householder_in_place;
use crate::mat::Mat;
use crate::scalar::{ComplexField, RealField};
use crate::Parallelism;

verus! {

/// Reduces `a` to upper bidiagonal form in place: row zero of `taus` receives
/// the factors of the left reflectors, row one the factors of the right
/// reflectors.
pub fn bidiagonalize_in_place<E: RealField>(
    a: &mut Mat<E>,
    taus: &mut Mat<E>,
    parallelism: Parallelism,
)
    requires
        old(a).wf(),
        old(taus).wf(),
        old(a).spec_nrows() >= old(a).spec_ncols(),
        old(taus).spec_nrows() == 2,
        old(taus).spec_ncols() >= old(a).spec_ncols(),
    ensures
        final(a).wf(),
        final(a).same_shape(old(a)),
        final(taus).wf(),
        final(taus).same_shape(old(taus)),
{
    let _ = parallelism;
    let m = a.nrows();
    let n = a.ncols();

    let mut k: usize = 0;
    while k < n
        invariant
            a.wf(),
            a.same_shape(old(a)),
            a.spec_nrows() == m,
            a.spec_ncols() == n,
            taus.wf(),
            taus.same_shape(old(taus)),
            taus.spec_nrows() == 2,
            taus.spec_ncols() >= n,
            n <= m,
            k <= n,
        decreases n - k,
    {
        // Left reflector on the column below and including the diagonal.
        let mut tail_squared_norm = E::faer_zero();
        let mut i: usize = k + 1;
        while i < m
            invariant
                a.wf(),
                a.spec_nrows() == m,
                a.spec_ncols() == n,
                k < n,
                n <= m,
                k + 1 <= i,
                i <= m || i == k + 1,
            decreases m - i,
        {
            tail_squared_norm = tail_squared_norm.faer_add(a.read(i, k).faer_abs2());
            i += 1;
        }
        let head = a.read(k, k);
        let mut essential = a.submatrix(k + 1, k, m - k - 1, 1);
        let (tau, beta) = make_householder_in_place(&mut essential, head, tail_squared_norm);
        a.write(k, k, beta);
        a.write_block(k + 1, k, &essential);
        taus.write(0, k, tau);

        // Apply the left reflection to the trailing columns.
        let tau_inv = tau.faer_inv();
        let mut j: usize = k + 1;
        while j < n
            invariant
                a.wf(),
                a.spec_nrows() == m,
                a.spec_ncols() == n,
                k < n,
                n <= m,
                k + 1 <= j,
                j <= n || j == k + 1,
            decreases n - j,
        {
            let mut dot = a.read(k, j);
            let mut i2: usize = k + 1;
            while i2 < m
                invariant
                    a.wf(),
                    a.spec_nrows() == m,
                    a.spec_ncols() == n,
                    k < n,
                    j < n,
                    k + 1 <= i2,
                    i2 <= m || i2 == k + 1,
                decreases m - i2,
            {
                dot = dot.faer_add(a.read(i2, k).faer_mul(a.read(i2, j)));
                i2 += 1;
            }
            let f = dot.faer_mul(tau_inv);
            let head_upd = a.read(k, j).faer_sub(f);
            a.write(k, j, head_upd);
            let mut i3: usize = k + 1;
            while i3 < m
                invariant
                    a.wf(),
                    a.spec_nrows() == m,
                    a.spec_ncols() == n,
                    k < n,
                    j < n,
                    k + 1 <= i3,
                    i3 <= m || i3 == k + 1,
                decreases m - i3,
            {
                let v = a.read(i3, j).faer_sub(a.read(i3, k).faer_mul(f));
                a.write(i3, j, v);
                i3 += 1;
            }
            j += 1;
        }

        // Right reflector on the row right of the superdiagonal.
        if k + 1 < n {
            let mut row_tail_norm = E::faer_zero();
            let mut c: usize = k + 2;
            while c < n
                invariant
                    a.wf(),
                    a.spec_nrows() == m,
                    a.spec_ncols() == n,
                    k + 1 < n,
                    n <= m,
                    k + 2 <= c,
                    c <= n || c == k + 2,
                decreases n - c,
            {
                row_tail_norm = row_tail_norm.faer_add(a.read(k, c).faer_abs2());
                c += 1;
            }
            let rhead = a.read(k, k + 1);
            // The essential part lives in the row: move it through a column.
            let row_seg = a.submatrix(k, k + 2, 1, n - k - 2);
            let mut ess_col = row_seg.transpose();
            let (rtau, rbeta) = make_householder_in_place(&mut ess_col, rhead, row_tail_norm);
            a.write(k, k + 1, rbeta);
            let ess_row = ess_col.transpose();
            a.write_block(k, k + 2, &ess_row);
            taus.write(1, k, rtau);

            // Apply the right reflection to the rows below.
            let rtau_inv = rtau.faer_inv();
            let mut r2: usize = k + 1;
            while r2 < m
                invariant
                    a.wf(),
                    a.spec_nrows() == m,
                    a.spec_ncols() == n,
                    k + 1 < n,
                    n <= m,
                    k + 1 <= r2,
                    r2 <= m || r2 == k + 1,
                decreases m - r2,
            {
                let mut dot = a.read(r2, k + 1);
                let mut c2: usize = k + 2;
                while c2 < n
                    invariant
                        a.wf(),
                        a.spec_nrows() == m,
                        a.spec_ncols() == n,
                        k + 1 < n,
                        n <= m,
                        r2 < m,
                        k + 2 <= c2,
                        c2 <= n || c2 == k + 2,
                    decreases n - c2,
                {
                    dot = dot.faer_add(a.read(r2, c2).faer_mul(a.read(k, c2)));
                    c2 += 1;
                }
                let f = dot.faer_mul(rtau_inv);
                let head_upd = a.read(r2, k + 1).faer_sub(f);
                a.write(r2, k + 1, head_upd);
                let mut c3: usize = k + 2;
                while c3 < n
                    invariant
                        a.wf(),
                        a.spec_nrows() == m,
                        a.spec_ncols() == n,
                        k + 1 < n,
                        n <= m,
                        r2 < m,
                        k + 2 <= c3,
                        c3 <= n || c3 == k + 2,
                    decreases n - c3,
                {
                    let v = a.read(r2, c3).faer_sub(f.faer_mul(a.read(k, c3)));
                    a.write(r2, c3, v);
                    c3 += 1;
                }
                r2 += 1;
            }
        }

        k += 1;
    }
}

} // verus!
