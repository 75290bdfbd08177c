//! Reduction of a square matrix to upper Hessenberg form through successive
//! Householder reflections applied as a similarity: each reflector annihilates
//! a column below the subdiagonal, from the left over the trailing columns and
//! from the right over all rows.

use vstd::prelude::*;
use crate::householder::make_householder_in_place;
use crate::mat::Mat;
use crate::scalar::ComplexField;
use crate::Parallelism;

verus! {

/// Reduces `a` to upper Hessenberg form in place: the Hessenberg matrix lands
/// on and above the subdiagonal, the essential parts of the reflectors land
/// below it, and the reflector factor of step `k` lands in
/// `householder[0, k]`.
pub fn make_hessenberg_in_place<E: ComplexField>(
    a: &mut Mat<E>,
    householder: &mut Mat<E>,
    parallelism: Parallelism,
)
    requires
        old(a).wf(),
        old(householder).wf(),
        old(a).spec_nrows() == old(a).spec_ncols(),
        old(householder).spec_nrows() >= 1,
        old(householder).spec_ncols() >= old(a).spec_nrows(),
    ensures
        final(a).wf(),
        final(a).same_shape(old(a)),
        final(householder).wf(),
        final(householder).same_shape(old(householder)),
{
    let _ = parallelism;
    let n = a.nrows();
    if n <= 1 {
        return ;
    }

    let mut k: usize = 0;
    while k + 1 < n
        invariant
            a.wf(),
            a.same_shape(old(a)),
            a.spec_nrows() == n,
            a.spec_ncols() == n,
            householder.wf(),
            householder.same_shape(old(householder)),
            householder.spec_nrows() >= 1,
            householder.spec_ncols() >= n,
            n >= 2,
            k + 1 <= n,
        decreases n - k,
    {
        let mut tail_squared_norm = E::faer_zero();
        let mut i: usize = k + 2;
        while i < n
            invariant
                a.wf(),
                a.spec_nrows() == n,
                a.spec_ncols() == n,
                k + 1 < n,
                k + 2 <= i,
                i <= n || i == k + 2,
            decreases n - i,
        {
            tail_squared_norm = tail_squared_norm.faer_add(a.read(i, k).faer_abs2());
            i += 1;
        }
        let head = a.read(k + 1, k);
        let mut essential = a.submatrix(k + 2, k, n - k - 2, 1);
        let (tau, beta) = make_householder_in_place(&mut essential, head, tail_squared_norm);
        a.write(k + 1, k, beta);
        a.write_block(k + 2, k, &essential);
        householder.write(0, k, tau);

        let tau_inv = tau.faer_inv();

        // Left update of the trailing columns: for each column j > k,
        // a[k+1.., j] -= v (vᴴ a[k+1.., j]) / tau.
        let mut j: usize = k + 1;
        while j < n
            invariant
                a.wf(),
                a.spec_nrows() == n,
                a.spec_ncols() == n,
                k + 1 < n,
                k + 1 <= j,
                j <= n || j == k + 1,
            decreases n - j,
        {
            let mut dot = a.read(k + 1, j);
            let mut i2: usize = k + 2;
            while i2 < n
                invariant
                    a.wf(),
                    a.spec_nrows() == n,
                    a.spec_ncols() == n,
                    k + 1 < n,
                    j < n,
                    k + 2 <= i2,
                    i2 <= n || i2 == k + 2,
                decreases n - i2,
            {
                dot = dot.faer_add(a.read(i2, k).faer_conj().faer_mul(a.read(i2, j)));
                i2 += 1;
            }
            let f = dot.faer_mul(tau_inv);
            let head_upd = a.read(k + 1, j).faer_sub(f);
            a.write(k + 1, j, head_upd);
            let mut i3: usize = k + 2;
            while i3 < n
                invariant
                    a.wf(),
                    a.spec_nrows() == n,
                    a.spec_ncols() == n,
                    k + 1 < n,
                    j < n,
                    k + 2 <= i3,
                    i3 <= n || i3 == k + 2,
                decreases n - i3,
            {
                let v = a.read(i3, j).faer_sub(a.read(i3, k).faer_mul(f));
                a.write(i3, j, v);
                i3 += 1;
            }
            j += 1;
        }

        // Right update of all rows: for each row i,
        // a[i, k+1..] -= (a[i, k+1..] v) vᴴ / tau.
        let mut r: usize = 0;
        while r < n
            invariant
                a.wf(),
                a.spec_nrows() == n,
                a.spec_ncols() == n,
                k + 1 < n,
                r <= n,
            decreases n - r,
        {
            let mut dot = a.read(r, k + 1);
            let mut c: usize = k + 2;
            while c < n
                invariant
                    a.wf(),
                    a.spec_nrows() == n,
                    a.spec_ncols() == n,
                    k + 1 < n,
                    r < n,
                    k + 2 <= c,
                    c <= n || c == k + 2,
                decreases n - c,
            {
                dot = dot.faer_add(a.read(r, c).faer_mul(a.read(c, k)));
                c += 1;
            }
            let f = dot.faer_mul(tau_inv);
            let head_upd = a.read(r, k + 1).faer_sub(f);
            a.write(r, k + 1, head_upd);
            let mut c2: usize = k + 2;
            while c2 < n
                invariant
                    a.wf(),
                    a.spec_nrows() == n,
                    a.spec_ncols() == n,
                    k + 1 < n,
                    r < n,
                    k + 2 <= c2,
                    c2 <= n || c2 == k + 2,
                decreases n - c2,
            {
                let v = a.read(r, c2).faer_sub(f.faer_mul(a.read(c2, k).faer_conj()));
                a.write(r, c2, v);
                c2 += 1;
            }
            r += 1;
        }

        k += 1;
    }
}

} // verus!
