//! Bunch–Kaufman factorization of a self-adjoint indefinite matrix:
//! `P A Pᵀ = L B Lᴴ`, with `L` unit lower triangular, `B` block diagonal with
//! one-by-one and two-by-two blocks, and `P` a permutation.
//!
//! At each step the candidate pivots are weighed with the classical threshold
//! parameter `alpha = (1 + sqrt(17)) / 8`: the diagonal entry is accepted as a
//! one-by-one pivot when its magnitude dominates the column maximum by
//! `alpha`; otherwise the row of the column maximum is probed for a second
//! threshold test, falling back to a two-by-two pivot. Each step records a
//! [`Pivot`]: a one-by-one pivot records the exchanged row once, a two-by-two
//! pivot records it twice, once per covered row.

use vstd::prelude::*;
use vstd::pervasive::VecAdditionalExecFns;
use crate::mat::Mat;
use crate::matmul::{matmul_with_conj, triangular};
use crate::matmul::triangular::BlockStructure;
use crate::perm::{permute_rows, swap_cols, swap_rows, Perm};
use crate::scalar::{real_max, ComplexField};
use crate::stack::{MemStack, SizeOverflow, StackReq, temp_mat_req};
use crate::{Conj, Parallelism};

verus! {

/// The pivoting strategy of the factorization.
#[derive(Copy, Clone)]
#[non_exhaustive]
pub enum PivotingStrategy {
    /// Diagonal pivoting with the Bunch–Kaufman threshold tests.
    Diagonal,
}

/// Tuning parameters of the factorization.
#[derive(Copy, Clone)]
#[non_exhaustive]
pub struct BunchKaufmanParams {
    /// The pivoting strategy.
    pub pivoting: PivotingStrategy,
    /// The width of the panel of deferred updates.
    pub blocksize: usize,
}

impl Default for BunchKaufmanParams {
    /// Diagonal pivoting with a panel of 64 columns.
    fn default() -> Self {
        BunchKaufmanParams { pivoting: PivotingStrategy::Diagonal, blocksize: 64 }
    }
}

/// One recorded pivoting step: the row exchanged with the current one. A
/// two-by-two pivot block covers two rows and is recorded once per covered
/// row.
#[derive(Copy, Clone, PartialEq, Eq, Structural, Debug)]
pub enum Pivot {
    /// A one-by-one pivot block.
    Single(usize),
    /// A two-by-two pivot block.
    Pair(usize),
}

/// The recorded row of a pivot.
pub open spec fn spec_pivot_row(p: Pivot) -> usize {
    match p {
        Pivot::Single(x) => x,
        Pivot::Pair(x) => x,
    }
}

/// All recorded pivot rows of the sequence index into `0..n`.
pub open spec fn spec_pivots_in_range(pivots: Seq<Pivot>, n: int) -> bool {
    forall|i: int| 0 <= i < pivots.len() ==> (#[trigger] spec_pivot_row(pivots[i])) < n
}

/// Every two-by-two pivot of the prefix `0..end` is recorded twice, in
/// adjacent equal entries.
pub open spec fn spec_pivots_paired(pivots: Seq<Pivot>, end: int) -> bool {
    forall|i: int|
        0 <= i < end && (#[trigger] pivots[i]) is Pair ==> ((i + 1 < end && pivots[i + 1]
            == pivots[i]) || (i >= 1 && pivots[i - 1] == pivots[i]))
}

/// A pivot with its recorded row shifted up by an offset.
pub open spec fn spec_rebase_pivot(p: Pivot, offset: int) -> Pivot {
    match p {
        Pivot::Single(x) => Pivot::Single((x + offset) as usize),
        Pivot::Pair(x) => Pivot::Pair((x + offset) as usize),
    }
}

/// The position and value of the entry of largest modulus, or `None` for an
/// empty matrix.
fn best_score_idx<E: ComplexField>(a: &Mat<E>) -> (r: Option<(usize, usize, E)>)
    requires
        a.wf(),
    ensures
        r is Some <==> a.spec_nrows() > 0 && a.spec_ncols() > 0,
        r matches Some(t) ==> t.0 < a.spec_nrows() && t.1 < a.spec_ncols(),
{
    let m = a.nrows();
    let n = a.ncols();
    if m == 0 || n == 0 {
        return None;
    }

    let mut best_row: usize = 0;
    let mut best_col: usize = 0;
    let mut best_score = E::faer_zero();

    let mut j: usize = 0;
    while j < n
        invariant
            a.wf(),
            a.spec_nrows() == m,
            a.spec_ncols() == n,
            m > 0,
            n > 0,
            j <= n,
            best_row < m,
            best_col < n,
        decreases n - j,
    {
        let mut i: usize = 0;
        while i < m
            invariant
                a.wf(),
                a.spec_nrows() == m,
                a.spec_ncols() == n,
                m > 0,
                n > 0,
                j < n,
                i <= m,
                best_row < m,
                best_col < n,
            decreases m - i,
        {
            let score = a.read(i, j).faer_abs();
            if score.faer_gt(best_score) {
                best_row = i;
                best_col = j;
                best_score = score;
            }
            i += 1;
        }
        j += 1;
    }

    Some((best_row, best_col, best_score))
}

/// The largest modulus over the entries of a matrix; zero for an empty one.
fn best_score<E: ComplexField>(a: &Mat<E>) -> E
    requires
        a.wf(),
{
    let m = a.nrows();
    let n = a.ncols();
    let mut best = E::faer_zero();
    let mut j: usize = 0;
    while j < n
        invariant
            a.wf(),
            a.spec_nrows() == m,
            a.spec_ncols() == n,
            j <= n,
        decreases n - j,
    {
        let mut i: usize = 0;
        while i < m
            invariant
                a.wf(),
                a.spec_nrows() == m,
                a.spec_ncols() == n,
                j < n,
                i <= m,
            decreases m - i,
        {
            let score = a.read(i, j).faer_abs();
            if score.faer_gt(best) {
                best = score;
            }
            i += 1;
        }
        j += 1;
    }
    best
}

/// Copies column `j` of the matrix over column `i`.
fn assign_col<E: ComplexField>(a: &mut Mat<E>, i: usize, j: usize)
    requires
        old(a).wf(),
        i < old(a).spec_ncols(),
        j < old(a).spec_ncols(),
    ensures
        final(a).wf(),
        final(a).same_shape(old(a)),
{
    let m = a.nrows();
    let mut row: usize = 0;
    while row < m
        invariant
            a.wf(),
            a.spec_nrows() == m,
            a.spec_ncols() == old(a).spec_ncols(),
            i < a.spec_ncols(),
            j < a.spec_ncols(),
            row <= m,
        decreases m - row,
    {
        let v = a.read(row, j);
        a.write(row, i, v);
        row += 1;
    }
}

/// Replaces an entry with the embedding of its real part.
fn make_real<E: ComplexField>(a: &mut Mat<E>, i: usize, j: usize)
    requires
        old(a).wf(),
        i < old(a).spec_nrows(),
        j < old(a).spec_ncols(),
    ensures
        final(a).wf(),
        final(a).same_shape(old(a)),
{
    let v = E::faer_from_real(a.read(i, j).faer_real());
    a.write(i, j, v);
}

/// The unblocked pivoting loop: at each step the threshold tests pick a
/// one-by-one or two-by-two pivot, the chosen rows and columns are exchanged
/// symmetrically, the trailing block is downdated at once, and the step is
/// recorded in `pivots`.
fn cholesky_diagonal_pivoting_unblocked<E: ComplexField>(
    a: &mut Mat<E>,
    pivots: &mut Vec<Pivot>,
    alpha: E,
)
    requires
        old(a).wf(),
        old(a).spec_nrows() == old(a).spec_ncols(),
        old(pivots)@.len() == old(a).spec_nrows(),
        spec_pivots_in_range(old(pivots)@, old(a).spec_nrows() as int),
    ensures
        final(a).wf(),
        final(a).same_shape(old(a)),
        final(pivots)@.len() == old(pivots)@.len(),
        spec_pivots_in_range(final(pivots)@, old(a).spec_nrows() as int),
        spec_pivots_paired(final(pivots)@, old(a).spec_nrows() as int),
{
    let n = a.nrows();

    let mut k: usize = 0;
    while k < n
        invariant
            a.wf(),
            a.spec_nrows() == n,
            a.spec_ncols() == n,
            n == old(a).spec_nrows(),
            pivots@.len() == n,
            k <= n,
            spec_pivots_in_range(pivots@, n as int),
            spec_pivots_paired(pivots@, k as int),
        decreases n - k,
    {
        let mut k_step: usize = 1;

        let abs_akk = a.read(k, k).faer_abs();

        let mut kp: usize = k;
        let mut do_update = !abs_akk.faer_is_zero();
        if k + 1 < n {
            let mut imax: usize = k + 1;
            let mut colmax = E::faer_zero();
            let below = a.submatrix(k + 1, k, n - k - 1, 1);
            if let Some((bi, _, bs)) = best_score_idx(&below) {
                imax = bi + k + 1;
                colmax = bs;
            }

            if real_max(abs_akk, colmax).faer_is_zero() {
                kp = k;
                do_update = false;
            } else {
                do_update = true;
                if abs_akk.faer_ge(colmax.faer_mul(alpha)) {
                    kp = k;
                } else {
                    // Probe the row of the column maximum.
                    let left = a.submatrix(imax, k, 1, imax - k);
                    let below2 = a.submatrix(imax + 1, imax, n - imax - 1, 1);
                    let rowmax = real_max(best_score(&left), best_score(&below2));

                    if abs_akk.faer_ge(
                        alpha.faer_mul(colmax).faer_mul(colmax.faer_mul(rowmax.faer_inv())),
                    ) {
                        kp = k;
                    } else if a.read(imax, imax).faer_abs().faer_ge(alpha.faer_mul(rowmax)) {
                        kp = imax;
                    } else {
                        kp = imax;
                        k_step = 2;
                    }
                }
            }
        }

        if do_update {
            let kk = k + k_step - 1;

            if kp != kk {
                // Exchange rows and columns `kk` and `kp` symmetrically.
                if kp + 1 < n {
                    let mut below = a.submatrix(kp + 1, 0, n - kp - 1, n);
                    swap_cols(&mut below, kk, kp);
                    a.write_block(kp + 1, 0, &below);
                }
                let mut j: usize = kk + 1;
                while j < kp
                    invariant
                        a.wf(),
                        a.spec_nrows() == n,
                        a.spec_ncols() == n,
                        kk < kp < n,
                        kk + 1 <= j,
                        j <= kp,
                    decreases kp - j,
                {
                    let t = a.read(j, kk).faer_conj();
                    let u = a.read(kp, j).faer_conj();
                    a.write(j, kk, u);
                    a.write(kp, j, t);
                    j += 1;
                }

                let v = a.read(kp, kk).faer_conj();
                a.write(kp, kk, v);
                a.swap_elems(kk, kk, kp, kp);

                if k_step == 2 {
                    a.swap_elems(k + 1, k, kp, k);
                }
            }

            if k_step == 1 {
                // Downdate the trailing block by the rank-one update of the
                // scaled pivot column, then scale the column.
                let d11 = a.read(k, k).faer_real().faer_inv();
                let rem = n - k - 1;
                let mut j2: usize = 0;
                while j2 < rem
                    invariant
                        a.wf(),
                        a.spec_nrows() == n,
                        a.spec_ncols() == n,
                        k < n,
                        rem == n - k - 1,
                        j2 <= rem,
                    decreases rem - j2,
                {
                    let d11xj = a.read(k + 1 + j2, k).faer_conj().faer_scale_real(d11);
                    let mut i: usize = 0;
                    while i < rem
                        invariant
                            a.wf(),
                            a.spec_nrows() == n,
                            a.spec_ncols() == n,
                            k < n,
                            rem == n - k - 1,
                            j2 < rem,
                            i <= rem,
                        decreases rem - i,
                    {
                        let xi = a.read(k + 1 + i, k);
                        let v = a.read(k + 1 + i, k + 1 + j2).faer_sub(d11xj.faer_mul(xi));
                        a.write(k + 1 + i, k + 1 + j2, v);
                        i += 1;
                    }
                    make_real(a, k + 1 + j2, k + 1 + j2);
                    j2 += 1;
                }
                let mut i2: usize = 0;
                while i2 < rem
                    invariant
                        a.wf(),
                        a.spec_nrows() == n,
                        a.spec_ncols() == n,
                        k < n,
                        rem == n - k - 1,
                        i2 <= rem,
                    decreases rem - i2,
                {
                    let v = a.read(k + 1 + i2, k).faer_scale_real(d11);
                    a.write(k + 1 + i2, k, v);
                    i2 += 1;
                }
            } else {
                // Two-by-two pivot: downdate the trailing block by the rank-two
                // update computed from the inverted pivot block.
                let d = a.read(k + 1, k).faer_abs();
                let d_inv = d.faer_inv();
                let d11 = d_inv.faer_scale_real(a.read(k + 1, k + 1).faer_real());
                let d22 = d_inv.faer_scale_real(a.read(k, k).faer_real());

                let t = d11.faer_mul(d22).faer_sub(E::faer_one()).faer_inv();
                let d21 = a.read(k + 1, k).faer_scale_real(d_inv);
                let dd = t.faer_mul(d_inv);

                let mut j3: usize = k + 2;
                while j3 < n
                    invariant
                        a.wf(),
                        a.spec_nrows() == n,
                        a.spec_ncols() == n,
                        k + 1 < n,
                        k + 2 <= j3,
                        j3 <= n,
                    decreases n - j3,
                {
                    let wk = (a.read(j3, k).faer_scale_real(d11).faer_sub(
                        a.read(j3, k + 1).faer_mul(d21),
                    )).faer_scale_real(dd);
                    let wkp1 = (a.read(j3, k + 1).faer_scale_real(d22).faer_sub(
                        a.read(j3, k).faer_mul(d21.faer_conj()),
                    )).faer_scale_real(dd);

                    let mut i3: usize = j3;
                    while i3 < n
                        invariant
                            a.wf(),
                            a.spec_nrows() == n,
                            a.spec_ncols() == n,
                            k + 1 < n,
                            k + 2 <= j3 < n,
                            j3 <= i3,
                            i3 <= n,
                        decreases n - i3,
                    {
                        let v = a.read(i3, j3).faer_sub(
                            a.read(i3, k).faer_mul(wk.faer_conj()),
                        ).faer_sub(a.read(i3, k + 1).faer_mul(wkp1.faer_conj()));
                        a.write(i3, j3, v);
                        i3 += 1;
                    }
                    make_real(a, j3, j3);

                    a.write(j3, k, wk);
                    a.write(j3, k + 1, wkp1);
                    j3 += 1;
                }
            }
        }

        if k_step == 1 {
            pivots.set(k, Pivot::Single(kp));
        } else {
            pivots.set(k, Pivot::Pair(kp));
            pivots.set(k + 1, Pivot::Pair(kp));
        }

        k += k_step;
    }
}

/// The blocked pivoting step: up to one panel of pivoting steps is performed
/// while the updates are accumulated in the work matrix `w`, then the trailing
/// block is downdated once with a deferred rank-`k` update. Returns the number
/// of processed columns.
fn cholesky_diagonal_pivoting_blocked_step<E: ComplexField>(
    a: &mut Mat<E>,
    w: &mut Mat<E>,
    pivots: &mut Vec<Pivot>,
    alpha: E,
    parallelism: Parallelism,
) -> (processed: usize)
    requires
        old(a).wf(),
        old(w).wf(),
        old(a).spec_nrows() == old(a).spec_ncols(),
        old(w).spec_nrows() >= old(a).spec_nrows(),
        2 <= old(w).spec_ncols() < old(a).spec_nrows(),
        old(pivots)@.len() == old(a).spec_nrows(),
        spec_pivots_in_range(old(pivots)@, old(a).spec_nrows() as int),
    ensures
        final(a).wf(),
        final(a).same_shape(old(a)),
        final(w).wf(),
        final(w).same_shape(old(w)),
        final(pivots)@.len() == old(pivots)@.len(),
        1 <= processed <= old(a).spec_nrows(),
        processed <= old(w).spec_ncols(),
        spec_pivots_in_range(final(pivots)@, old(a).spec_nrows() as int),
        spec_pivots_paired(final(pivots)@, processed as int),
{
    let n = a.nrows();
    let nb = w.ncols();

    let mut k: usize = 0;
    while k < n && k + 1 < nb
        invariant
            a.wf(),
            w.wf(),
            a.spec_nrows() == n,
            a.spec_ncols() == n,
            n == old(a).spec_nrows(),
            w.same_shape(old(w)),
            w.spec_nrows() >= n,
            w.spec_ncols() == nb,
            2 <= nb < n,
            pivots@.len() == n,
            k <= n,
            k <= nb,
            spec_pivots_in_range(pivots@, n as int),
            spec_pivots_paired(pivots@, k as int),
        decreases n - k,
    {
        let mut k_step: usize = 1;

        // Load column `k` into the work panel and apply the deferred updates.
        let mut i: usize = k;
        while i < n
            invariant
                a.wf(),
                w.wf(),
                a.spec_nrows() == n,
                a.spec_ncols() == n,
                w.same_shape(old(w)),
                w.spec_nrows() >= n,
                w.spec_ncols() == nb,
                k < n,
                k + 1 < nb,
                k <= i <= n,
            decreases n - i,
        {
            let v = a.read(i, k);
            w.write(i, k, v);
            i += 1;
        }
        // w[k.., k] -= A[k.., :k] × w[k, :k]ᵀ
        let a_panel = a.submatrix(k, 0, n - k, k);
        let w_row = w.submatrix(k, 0, 1, k);
        let w_row_t = w_row.transpose();
        let mut w_col = w.submatrix(k, k, n - k, 1);
        matmul_with_conj(
            &mut w_col,
            &a_panel,
            Conj::No,
            &w_row_t,
            Conj::No,
            Some(E::faer_one()),
            E::faer_one().faer_neg(),
            parallelism,
        );
        w.write_block(k, k, &w_col);
        make_real(w, k, k);

        let abs_akk = w.read(k, k).faer_real().faer_abs();

        let mut kp: usize = k;
        let mut do_update = !abs_akk.faer_is_zero();
        if k + 1 < n {
            let mut imax: usize = k + 1;
            let mut colmax = E::faer_zero();
            let below = w.submatrix(k + 1, k, n - k - 1, 1);
            if let Some((bi, _, bs)) = best_score_idx(&below) {
                imax = bi + k + 1;
                colmax = bs;
            }

            if real_max(abs_akk, colmax).faer_is_zero() {
                kp = k;
                do_update = false;
            } else {
                do_update = true;
                if abs_akk.faer_ge(colmax.faer_mul(alpha)) {
                    kp = k;
                } else {
                    // Load column `imax` into the next work column, with the
                    // conjugated row head, and apply the deferred updates.
                    let mut r: usize = 0;
                    while r < imax - k
                        invariant
                            a.wf(),
                            w.wf(),
                            a.spec_nrows() == n,
                            a.spec_ncols() == n,
                            w.same_shape(old(w)),
                            w.spec_nrows() >= n,
                            w.spec_ncols() == nb,
                            k < n,
                            k + 1 < nb,
                            k < imax < n,
                            r <= imax - k,
                        decreases imax - k - r,
                    {
                        let v = a.read(imax, k + r).faer_conj();
                        w.write(k + r, k + 1, v);
                        r += 1;
                    }
                    let mut r2: usize = imax;
                    while r2 < n
                        invariant
                            a.wf(),
                            w.wf(),
                            a.spec_nrows() == n,
                            a.spec_ncols() == n,
                            w.same_shape(old(w)),
                            w.spec_nrows() >= n,
                            w.spec_ncols() == nb,
                            k < n,
                            k + 1 < nb,
                            k < imax < n,
                            imax <= r2 <= n,
                        decreases n - r2,
                    {
                        let v = a.read(r2, imax);
                        w.write(r2, k + 1, v);
                        r2 += 1;
                    }
                    // w[k.., k + 1] -= A[k.., :k] × w[imax, :k]ᵀ
                    let a_panel2 = a.submatrix(k, 0, n - k, k);
                    let w_row2 = w.submatrix(imax, 0, 1, k);
                    let w_row2_t = w_row2.transpose();
                    let mut w_col2 = w.submatrix(k, k + 1, n - k, 1);
                    matmul_with_conj(
                        &mut w_col2,
                        &a_panel2,
                        Conj::No,
                        &w_row2_t,
                        Conj::No,
                        Some(E::faer_one()),
                        E::faer_one().faer_neg(),
                        parallelism,
                    );
                    w.write_block(k, k + 1, &w_col2);
                    make_real(w, imax, k + 1);

                    let above = w.submatrix(k, k + 1, imax - k, 1);
                    let below2 = w.submatrix(imax + 1, k + 1, n - imax - 1, 1);
                    let rowmax = real_max(best_score(&above), best_score(&below2));

                    if abs_akk.faer_ge(
                        alpha.faer_mul(colmax).faer_mul(colmax.faer_mul(rowmax.faer_inv())),
                    ) {
                        kp = k;
                    } else if w.read(imax, k + 1).faer_real().faer_abs().faer_ge(
                        alpha.faer_mul(rowmax),
                    ) {
                        kp = imax;
                        // The probed column becomes the pivot column.
                        let mut wsub = w.submatrix(k, 0, n - k, nb);
                        assign_col(&mut wsub, k, k + 1);
                        w.write_block(k, 0, &wsub);
                    } else {
                        kp = imax;
                        k_step = 2;
                    }
                }
            }
        }

        if do_update {
            let kk = k + k_step - 1;

            if kp != kk {
                // Exchange rows `kk` and `kp` of both the matrix and the work
                // panel, conjugating the exchanged column segment.
                let v_kk = a.read(kk, kk);
                a.write(kp, kp, v_kk);
                let mut j: usize = kk + 1;
                while j < kp
                    invariant
                        a.wf(),
                        a.spec_nrows() == n,
                        a.spec_ncols() == n,
                        kk < kp < n,
                        kk + 1 <= j,
                        j <= kp,
                    decreases kp - j,
                {
                    let v = a.read(j, kk).faer_conj();
                    a.write(kp, j, v);
                    j += 1;
                }
                if kp + 1 < n {
                    let mut below3 = a.submatrix(kp + 1, 0, n - kp - 1, n);
                    assign_col(&mut below3, kp, kk);
                    a.write_block(kp + 1, 0, &below3);
                }

                if k > 0 {
                    let mut a_left = a.submatrix(0, 0, n, k);
                    swap_rows(&mut a_left, kk, kp);
                    a.write_block(0, 0, &a_left);
                }
                let mut w_left = w.submatrix(0, 0, n, kk + 1);
                swap_rows(&mut w_left, kk, kp);
                w.write_block(0, 0, &w_left);
            }

            if k_step == 1 {
                // Copy the updated pivot column back and scale it.
                let mut i4: usize = k;
                while i4 < n
                    invariant
                        a.wf(),
                        w.wf(),
                        a.spec_nrows() == n,
                        a.spec_ncols() == n,
                        w.same_shape(old(w)),
                        w.spec_nrows() >= n,
                        w.spec_ncols() == nb,
                        k < n,
                        k + 1 < nb,
                        k <= i4 <= n,
                    decreases n - i4,
                {
                    let v = w.read(i4, k);
                    a.write(i4, k, v);
                    i4 += 1;
                }
                if k + 1 < n {
                    let d11 = a.read(k, k).faer_real().faer_inv();
                    let mut i5: usize = k + 1;
                    while i5 < n
                        invariant
                            a.wf(),
                            a.spec_nrows() == n,
                            a.spec_ncols() == n,
                            k + 1 < n,
                            k + 1 <= i5 <= n,
                        decreases n - i5,
                    {
                        let v = a.read(i5, k).faer_scale_real(d11);
                        a.write(i5, k, v);
                        i5 += 1;
                    }
                    let mut i6: usize = k + 1;
                    while i6 < n
                        invariant
                            w.wf(),
                            w.same_shape(old(w)),
                            w.spec_nrows() >= n,
                            w.spec_ncols() == nb,
                            k + 1 < nb,
                            k + 1 < n,
                            k + 1 <= i6 <= n,
                        decreases n - i6,
                    {
                        let v = w.read(i6, k).faer_conj();
                        w.write(i6, k, v);
                        i6 += 1;
                    }
                }
            } else {
                // Two-by-two pivot: form the columns of L from the inverted
                // pivot block applied to the work columns.
                if k + 2 < n {
                    let d21 = w.read(k + 1, k);
                    let d21_inv = d21.faer_inv();
                    let d11 = w.read(k + 1, k + 1).faer_mul(d21_inv);
                    let d22 = w.read(k, k).faer_mul(d21_inv.faer_conj());

                    let t = (d11.faer_mul(d22)).faer_real().faer_sub(
                        E::faer_one(),
                    ).faer_inv();
                    let d21s = d21_inv.faer_scale_real(t);

                    let mut j4: usize = k + 2;
                    while j4 < n
                        invariant
                            a.wf(),
                            w.wf(),
                            a.spec_nrows() == n,
                            a.spec_ncols() == n,
                            w.same_shape(old(w)),
                            w.spec_nrows() >= n,
                            w.spec_ncols() == nb,
                            k + 1 < nb,
                            k + 2 < n,
                            k + 2 <= j4 <= n,
                        decreases n - j4,
                    {
                        let wk = d21s.faer_conj().faer_mul(
                            d11.faer_mul(w.read(j4, k)).faer_sub(w.read(j4, k + 1)),
                        );
                        let wkp1 = d21s.faer_mul(
                            d22.faer_mul(w.read(j4, k + 1)).faer_sub(w.read(j4, k)),
                        );
                        a.write(j4, k, wk);
                        a.write(j4, k + 1, wkp1);
                        j4 += 1;
                    }
                }

                let v00 = w.read(k, k);
                a.write(k, k, v00);
                let v10 = w.read(k + 1, k);
                a.write(k + 1, k, v10);
                let v11 = w.read(k + 1, k + 1);
                a.write(k + 1, k + 1, v11);
                make_real(a, k, k);
                make_real(a, k + 1, k + 1);

                let mut i7: usize = k + 1;
                while i7 < n
                    invariant
                        w.wf(),
                        w.same_shape(old(w)),
                        w.spec_nrows() >= n,
                        w.spec_ncols() == nb,
                        k + 1 < nb,
                        k + 1 <= i7,
                        i7 <= n,
                    decreases n - i7,
                {
                    let v = w.read(i7, k).faer_conj();
                    w.write(i7, k, v);
                    i7 += 1;
                }
                let mut i8: usize = k + 2;
                while i8 < n
                    invariant
                        w.wf(),
                        w.same_shape(old(w)),
                        w.spec_nrows() >= n,
                        w.spec_ncols() == nb,
                        k + 1 < nb,
                        k + 2 <= i8,
                        i8 <= n || i8 == k + 2,
                    decreases n - i8,
                {
                    let v = w.read(i8, k + 1).faer_conj();
                    w.write(i8, k + 1, v);
                    i8 += 1;
                }
            }
        }

        if k_step == 1 {
            pivots.set(k, Pivot::Single(kp));
        } else {
            pivots.set(k, Pivot::Pair(kp));
            pivots.set(k + 1, Pivot::Pair(kp));
        }

        k += k_step;
    }

    // Deferred update of the trailing block:
    // A[k.., k..] -= A[k.., :k] × w[k.., :k]ᵀ
    let a_left = a.submatrix(k, 0, n - k, k);
    let w_panel = w.submatrix(k, 0, n - k, k);
    let w_panel_t = w_panel.transpose();
    let mut a_right = a.submatrix(k, k, n - k, n - k);
    triangular::matmul(
        &mut a_right,
        BlockStructure::TriangularLower,
        &a_left,
        BlockStructure::Rectangular,
        &w_panel_t,
        BlockStructure::Rectangular,
        Some(E::faer_one()),
        E::faer_one().faer_neg(),
        parallelism,
    );
    let mut d: usize = 0;
    while d < n - k
        invariant
            a_right.wf(),
            a_right.spec_nrows() == n - k,
            a_right.spec_ncols() == n - k,
            d <= n - k,
        decreases n - k - d,
    {
        make_real(&mut a_right, d, d);
        d += 1;
    }
    a.write_block(k, k, &a_right);

    // Undo the interleaved row exchanges on the already factored columns.
    if k == 0 {
        return 1;
    }
    let processed = k;
    let mut j5 = processed - 1;
    loop
        invariant_except_break
            a.wf(),
            a.spec_nrows() == n,
            a.spec_ncols() == n,
            n == old(a).spec_nrows(),
            pivots@.len() == n,
            processed <= n,
            j5 < processed,
            spec_pivots_in_range(pivots@, n as int),
        ensures
            a.wf(),
            a.spec_nrows() == n,
            a.spec_ncols() == n,
        decreases j5,
    {
        let jj = j5;
        proof {
            assert(spec_pivot_row(pivots@[j5 as int]) < n);
        }
        let jp = match pivots[j5] {
            Pivot::Single(p) => p,
            Pivot::Pair(p) => {
                if j5 == 0 {
                    break ;
                }
                j5 -= 1;
                p
            },
        };

        if j5 == 0 {
            break ;
        }
        j5 -= 1;

        if jp != jj {
            let mut a_left2 = a.submatrix(0, 0, n, j5 + 1);
            swap_rows(&mut a_left2, jp, jj);
            a.write_block(0, 0, &a_left2);
        }
        if j5 == 0 {
            break ;
        }
    }
    processed
}

/// The scratch requirement of [`cholesky_in_place`]: a work panel of the
/// configured width when the blocked path is taken, and nothing otherwise.
pub fn cholesky_in_place_req(
    dim: usize,
    parallelism: Parallelism,
    params: BunchKaufmanParams,
) -> (r: Result<StackReq, SizeOverflow>)
    ensures
        r is Ok ==> (params.blocksize < 2 || dim <= params.blocksize ==> r->Ok_0.spec_size()
            == 0),
        r is Ok ==> (!(params.blocksize < 2 || dim <= params.blocksize)
            ==> r->Ok_0.spec_size() == dim * params.blocksize),
{
    let _ = parallelism;
    let mut bs = params.blocksize;
    if bs < 2 || dim <= bs {
        bs = 0;
    }
    temp_mat_req(dim, bs)
}

/// Computes the Bunch–Kaufman factorization of a self-adjoint `matrix`, with
/// the factor `L` stored in the lower triangular half, the blocks of `B`
/// stored on the diagonal and in `subdiag`, and the accumulated exchanges
/// returned as a permutation. Only the lower triangular half of the input is
/// read; the strictly upper half is left in an unspecified state.
pub fn cholesky_in_place<E: ComplexField>(
    matrix: &mut Mat<E>,
    subdiag: &mut Mat<E>,
    parallelism: Parallelism,
    stack: &mut MemStack<E>,
    params: BunchKaufmanParams,
) -> (perm: Perm)
    requires
        old(matrix).wf(),
        old(subdiag).wf(),
        old(matrix).spec_nrows() == old(matrix).spec_ncols(),
        old(subdiag).spec_nrows() == old(matrix).spec_nrows(),
        old(subdiag).spec_ncols() == 1,
        !(params.blocksize < 2 || old(matrix).spec_nrows() <= params.blocksize)
            ==> old(matrix).spec_nrows() * params.blocksize <= old(stack).spec_len(),
    ensures
        final(matrix).wf(),
        final(matrix).same_shape(old(matrix)),
        final(subdiag).wf(),
        final(subdiag).same_shape(old(subdiag)),
        final(stack).spec_len() == old(stack).spec_len(),
        perm.wf(),
        perm.spec_len() == old(matrix).spec_nrows(),
{
    let n = matrix.nrows();

    // alpha = (1 + sqrt(17)) / 8
    let alpha = E::faer_one().faer_add(E::faer_from_u64(17).faer_sqrt()).faer_mul(
        E::faer_from_u64(8).faer_inv(),
    );

    let mut pivots: Vec<Pivot> = Vec::new();
    let mut ii: usize = 0;
    while ii < n
        invariant
            pivots@.len() == ii,
            ii <= n,
            spec_pivots_in_range(pivots@, n as int),
        decreases n - ii,
    {
        pivots.push(Pivot::Single(ii));
        ii += 1;
    }

    let use_blocked = params.blocksize >= 2 && n > params.blocksize;

    if use_blocked {
        let bs = params.blocksize;
        let mut w = stack.make_temp_mat(n, bs);

        let mut k: usize = 0;
        while k < n
            invariant
                matrix.wf(),
                w.wf(),
                matrix.spec_nrows() == n,
                matrix.spec_ncols() == n,
                n == old(matrix).spec_nrows(),
                w.spec_nrows() == n,
                w.spec_ncols() == bs,
                bs >= 2,
                pivots@.len() == n,
                k <= n,
                spec_pivots_in_range(pivots@, n as int),
            decreases n - k,
        {
            let rem = n - k;

            let mut sub = matrix.submatrix(k, k, rem, rem);
            let mut sub_pivots: Vec<Pivot> = Vec::new();
            let mut q: usize = 0;
            while q < rem
                invariant
                    sub_pivots@.len() == q,
                    q <= rem,
                    spec_pivots_in_range(sub_pivots@, rem as int),
                decreases rem - q,
            {
                sub_pivots.push(Pivot::Single(q));
                q += 1;
            }

            let kb: usize;
            if bs < rem {
                let mut wsub = w.submatrix(0, 0, rem, bs);
                kb = cholesky_diagonal_pivoting_blocked_step(
                    &mut sub,
                    &mut wsub,
                    &mut sub_pivots,
                    alpha,
                    parallelism,
                );
                w.write_block(0, 0, &wsub);
            } else {
                cholesky_diagonal_pivoting_unblocked(&mut sub, &mut sub_pivots, alpha);
                kb = rem;
            }
            matrix.write_block(k, k, &sub);

            // Rebase the recorded rows by the leading offset.
            let mut q2: usize = 0;
            while q2 < kb
                invariant
                    matrix.wf(),
                    matrix.spec_nrows() == n,
                    matrix.spec_ncols() == n,
                    n == old(matrix).spec_nrows(),
                    sub_pivots@.len() == rem,
                    pivots@.len() == n,
                    kb <= rem,
                    rem == n - k,
                    q2 <= kb,
                    spec_pivots_in_range(sub_pivots@, rem as int),
                    spec_pivots_in_range(pivots@, n as int),
                decreases kb - q2,
            {
                proof {
                    assert(spec_pivot_row(sub_pivots@[q2 as int]) < rem);
                }
                let rebased = match sub_pivots[q2] {
                    Pivot::Single(p) => Pivot::Single(p + k),
                    Pivot::Pair(p) => Pivot::Pair(p + k),
                };
                pivots.set(k + q2, rebased);
                q2 += 1;
            }
            k += kb;
        }

        stack.give_back_mat(w);
    } else {
        cholesky_diagonal_pivoting_unblocked(matrix, &mut pivots, alpha);
    }

    convert(matrix, &pivots, subdiag);

    // Fold the recorded exchanges into a permutation.
    let mut perm = Perm::identity(n);
    let mut i9: usize = 0;
    while i9 < n
        invariant
            perm.wf(),
            perm.spec_len() == n,
            pivots@.len() == n,
            i9 <= n,
            spec_pivots_in_range(pivots@, n as int),
        decreases n - i9,
    {
        proof {
            assert(spec_pivot_row(pivots@[i9 as int]) < n);
        }
        match pivots[i9] {
            Pivot::Single(p) => {
                perm.swap(i9, p);
                i9 += 1;
            },
            Pivot::Pair(p) => {
                if i9 + 1 < n {
                    perm.swap(i9 + 1, p);
                    i9 += 2;
                } else {
                    i9 += 1;
                }
            },
        }
    }
    perm
}

/// Converts the interleaved storage of the pivoting loops into the final
/// layout: the subdiagonal entries of the two-by-two blocks move to `subdiag`,
/// and the deferred row exchanges are applied to the factored columns.
fn convert<E: ComplexField>(a: &mut Mat<E>, pivots: &Vec<Pivot>, subdiag: &mut Mat<E>)
    requires
        old(a).wf(),
        old(subdiag).wf(),
        old(a).spec_nrows() == old(a).spec_ncols(),
        old(subdiag).spec_nrows() == old(a).spec_nrows(),
        old(subdiag).spec_ncols() == 1,
        pivots@.len() == old(a).spec_nrows(),
        spec_pivots_in_range(pivots@, old(a).spec_nrows() as int),
    ensures
        final(a).wf(),
        final(a).same_shape(old(a)),
        final(subdiag).wf(),
        final(subdiag).same_shape(old(subdiag)),
{
    let n = a.nrows();

    let mut i: usize = 0;
    while i < n
        invariant
            a.wf(),
            subdiag.wf(),
            a.spec_nrows() == n,
            a.spec_ncols() == n,
            n == old(a).spec_nrows(),
            subdiag.spec_nrows() == n,
            subdiag.spec_ncols() == 1,
            pivots@.len() == n,
            i <= n,
        decreases n - i,
    {
        match pivots[i] {
            Pivot::Pair(_) => {
                if i + 1 < n {
                    let v = a.read(i + 1, i);
                    subdiag.write(i, 0, v);
                    subdiag.write(i + 1, 0, E::faer_zero());
                    a.write(i + 1, i, E::faer_zero());
                    i += 2;
                } else {
                    subdiag.write(i, 0, E::faer_zero());
                    i += 1;
                }
            },
            Pivot::Single(_) => {
                subdiag.write(i, 0, E::faer_zero());
                i += 1;
            },
        }
    }

    let mut i2: usize = 0;
    while i2 < n
        invariant
            a.wf(),
            a.spec_nrows() == n,
            a.spec_ncols() == n,
            n == old(a).spec_nrows(),
            pivots@.len() == n,
            i2 <= n,
            spec_pivots_in_range(pivots@, n as int),
        decreases n - i2,
    {
        proof {
            assert(spec_pivot_row(pivots@[i2 as int]) < n);
        }
        match pivots[i2] {
            Pivot::Pair(p) => {
                if i2 + 1 < n {
                    if i2 > 0 {
                        let mut left = a.submatrix(0, 0, n, i2);
                        swap_rows(&mut left, i2 + 1, p);
                        a.write_block(0, 0, &left);
                    }
                    i2 += 2;
                } else {
                    i2 += 1;
                }
            },
            Pivot::Single(p) => {
                if i2 > 0 {
                    let mut left = a.submatrix(0, 0, n, i2);
                    swap_rows(&mut left, i2, p);
                    a.write_block(0, 0, &left);
                }
                i2 += 1;
            },
        }
    }
}

/// The scratch requirement of [`solve_in_place_with_conj`].
pub fn solve_in_place_req(
    dim: usize,
    rhs_ncols: usize,
    parallelism: Parallelism,
) -> (r: Result<StackReq, SizeOverflow>)
    ensures
        r is Ok <==> dim * rhs_ncols <= usize::MAX,
        r is Ok ==> r->Ok_0.spec_size() == dim * rhs_ncols,
{
    let _ = parallelism;
    temp_mat_req(dim, rhs_ncols)
}

/// Solves `op(A) × X = rhs` in place over `rhs`, given the Bunch–Kaufman
/// factorization of `A`: gather the rows through the permutation, solve
/// against the unit triangular factor, divide by the block diagonal, solve
/// against the adjoint factor, and scatter the rows back.
pub fn solve_in_place_with_conj<E: ComplexField>(
    lb_factors: &Mat<E>,
    subdiag: &Mat<E>,
    conj: Conj,
    perm: &Perm,
    rhs: &mut Mat<E>,
    parallelism: Parallelism,
    stack: &mut MemStack<E>,
)
    requires
        lb_factors.wf(),
        subdiag.wf(),
        perm.wf(),
        old(rhs).wf(),
        lb_factors.spec_nrows() == lb_factors.spec_ncols(),
        old(rhs).spec_nrows() == lb_factors.spec_nrows(),
        subdiag.spec_nrows() == lb_factors.spec_nrows(),
        subdiag.spec_ncols() == 1,
        perm.spec_len() == lb_factors.spec_nrows(),
        lb_factors.spec_nrows() * old(rhs).spec_ncols() <= old(stack).spec_len(),
    ensures
        final(rhs).wf(),
        final(rhs).same_shape(old(rhs)),
        final(stack).spec_len() == old(stack).spec_len(),
{
    let n = lb_factors.nrows();
    let k = rhs.ncols();
    let a = lb_factors;
    let not_conj = conj.compose(Conj::Yes);

    let mut x = stack.make_temp_mat(n, k);
    permute_rows(&mut x, rhs, perm);
    crate::solve::solve_unit_lower_triangular_in_place_with_conj(a, conj, &mut x, parallelism);

    // Divide by the block diagonal.
    let mut i: usize = 0;
    while i < n
        invariant
            a.wf(),
            subdiag.wf(),
            x.wf(),
            a.spec_nrows() == n,
            a.spec_ncols() == n,
            subdiag.spec_nrows() == n,
            subdiag.spec_ncols() == 1,
            x.spec_nrows() == n,
            x.spec_ncols() == k,
            i <= n,
        decreases n - i,
    {
        if subdiag.read(i, 0).faer_is_zero() || i + 1 >= n {
            let d_inv = a.read(i, i).faer_real().faer_inv();
            let mut j: usize = 0;
            while j < k
                invariant
                    x.wf(),
                    x.spec_nrows() == n,
                    x.spec_ncols() == k,
                    i < n,
                    j <= k,
                decreases k - j,
            {
                let v = x.read(i, j).faer_scale_real(d_inv);
                x.write(i, j, v);
                j += 1;
            }
            i += 1;
        } else {
            let akm1k = if conj == Conj::Yes {
                subdiag.read(i, 0).faer_conj().faer_inv()
            } else {
                subdiag.read(i, 0).faer_inv()
            };
            let akm1 = akm1k.faer_conj().faer_scale_real(a.read(i, i).faer_real());
            let ak = akm1k.faer_scale_real(a.read(i + 1, i + 1).faer_real());
            let denom = akm1.faer_mul(ak).faer_sub(E::faer_one()).faer_inv();

            let mut j: usize = 0;
            while j < k
                invariant
                    x.wf(),
                    x.spec_nrows() == n,
                    x.spec_ncols() == k,
                    i + 1 < n,
                    j <= k,
                decreases k - j,
            {
                let xkm1 = x.read(i, j).faer_mul(akm1k.faer_conj());
                let xk = x.read(i + 1, j).faer_mul(akm1k);
                x.write(i, j, ak.faer_mul(xkm1).faer_sub(xk).faer_mul(denom));
                x.write(i + 1, j, akm1.faer_mul(xk).faer_sub(xkm1).faer_mul(denom));
                j += 1;
            }
            i += 2;
        }
    }

    let at = a.transpose();
    crate::solve::solve_unit_upper_triangular_in_place_with_conj(&at, not_conj, &mut x, parallelism);
    let perm_inv = perm.inverse();
    permute_rows(rhs, &x, &perm_inv);
    stack.give_back_mat(x);
}

} // verus!
