//! Matrix multiplication.
//!
//! The accumulator update is `acc = alpha * acc + beta * op(lhs) * op(rhs)`,
//! where `op` conjugates an operand or leaves it as stored. A `None` scaling
//! factor for the previous accumulator value means that the accumulator is
//! overwritten instead of updated.
//!
//! The `parallelism` argument bounds the fork-join budget of the operation;
//! running every sub-task on the calling thread, as this implementation does,
//! is one of the legal schedules of the fork-join model.

pub mod triangular;

use vstd::prelude::*;
use crate::mat::Mat;
use crate::scalar::{maybe_conj, ComplexField};
use crate::{Conj, Parallelism};

verus! {

/// The inner product of two vectors of equal length, with an optional
/// conjugation applied to each side.
pub fn inner_prod_with_conj<E: ComplexField>(
    lhs: &Vec<E>,
    conj_lhs: Conj,
    rhs: &Vec<E>,
    conj_rhs: Conj,
) -> E
    requires
        lhs@.len() == rhs@.len(),
{
    let n = lhs.len();
    let mut acc = E::faer_zero();
    for k in 0..n
        invariant
            lhs@.len() == n,
            rhs@.len() == n,
    {
        let l = maybe_conj(conj_lhs, lhs[k]);
        let r = maybe_conj(conj_rhs, rhs[k]);
        acc = acc.faer_add(l.faer_mul(r));
    }
    acc
}

/// A single accumulator entry of the product: the inner product of row `i` of
/// `op(lhs)` with column `j` of `op(rhs)`.
fn dot_entry<E: ComplexField>(
    lhs: &Mat<E>,
    conj_lhs: Conj,
    rhs: &Mat<E>,
    conj_rhs: Conj,
    i: usize,
    j: usize,
) -> E
    requires
        lhs.wf(),
        rhs.wf(),
        lhs.spec_ncols() == rhs.spec_nrows(),
        i < lhs.spec_nrows(),
        j < rhs.spec_ncols(),
{
    let depth = lhs.ncols();
    let mut acc = E::faer_zero();
    for k in 0..depth
        invariant
            lhs.wf(),
            rhs.wf(),
            lhs.spec_ncols() == depth,
            rhs.spec_nrows() == depth,
            i < lhs.spec_nrows(),
            j < rhs.spec_ncols(),
    {
        let l = maybe_conj(conj_lhs, lhs.read(i, k));
        let r = maybe_conj(conj_rhs, rhs.read(k, j));
        acc = acc.faer_add(l.faer_mul(r));
    }
    acc
}

/// The matrix-vector product kernel: the accumulator is a single column, and
/// each of its entries is updated with one inner product.
fn matvec<E: ComplexField>(
    acc: &mut Mat<E>,
    lhs: &Mat<E>,
    conj_lhs: Conj,
    rhs: &Mat<E>,
    conj_rhs: Conj,
    alpha: Option<E>,
    beta: E,
)
    requires
        old(acc).wf(),
        lhs.wf(),
        rhs.wf(),
        old(acc).spec_nrows() == lhs.spec_nrows(),
        old(acc).spec_ncols() == 1,
        rhs.spec_ncols() == 1,
        lhs.spec_ncols() == rhs.spec_nrows(),
    ensures
        final(acc).wf(),
        final(acc).same_shape(old(acc)),
{
    let m = acc.nrows();
    let mut i: usize = 0;
    while i < m
        invariant
            acc.wf(),
            lhs.wf(),
            rhs.wf(),
            acc.spec_nrows() == m,
            acc.spec_ncols() == 1,
            lhs.spec_nrows() == m,
            rhs.spec_ncols() == 1,
            lhs.spec_ncols() == rhs.spec_nrows(),
            i <= m,
        decreases m - i,
    {
        let dot = dot_entry(lhs, conj_lhs, rhs, conj_rhs, i, 0);
        let scaled = beta.faer_mul(dot);
        let updated = match alpha {
            Some(a) => a.faer_mul(acc.read(i, 0)).faer_add(scaled),
            None => scaled,
        };
        acc.write(i, 0, updated);
        i += 1;
    }
}

/// The dense product kernel: updates every accumulator entry with the
/// corresponding inner product, scaled by `beta`, after scaling the previous
/// accumulator value by `alpha` (or discarding it when `alpha` is `None`).
fn matmul_imp<E: ComplexField>(
    acc: &mut Mat<E>,
    lhs: &Mat<E>,
    conj_lhs: Conj,
    rhs: &Mat<E>,
    conj_rhs: Conj,
    alpha: Option<E>,
    beta: E,
)
    requires
        old(acc).wf(),
        lhs.wf(),
        rhs.wf(),
        old(acc).spec_nrows() == lhs.spec_nrows(),
        old(acc).spec_ncols() == rhs.spec_ncols(),
        lhs.spec_ncols() == rhs.spec_nrows(),
    ensures
        final(acc).wf(),
        final(acc).same_shape(old(acc)),
{
    let m = acc.nrows();
    let n = acc.ncols();
    let mut j: usize = 0;
    while j < n
        invariant
            acc.wf(),
            lhs.wf(),
            rhs.wf(),
            acc.spec_nrows() == m,
            acc.spec_ncols() == n,
            lhs.spec_nrows() == m,
            rhs.spec_ncols() == n,
            lhs.spec_ncols() == rhs.spec_nrows(),
            j <= n,
        decreases n - j,
    {
        let mut i: usize = 0;
        while i < m
            invariant
                acc.wf(),
                lhs.wf(),
                rhs.wf(),
                acc.spec_nrows() == m,
                acc.spec_ncols() == n,
                lhs.spec_nrows() == m,
                rhs.spec_ncols() == n,
                lhs.spec_ncols() == rhs.spec_nrows(),
                j < n,
                i <= m,
            decreases m - i,
        {
            let dot = dot_entry(lhs, conj_lhs, rhs, conj_rhs, i, j);
            let scaled = beta.faer_mul(dot);
            let updated = match alpha {
                Some(a) => a.faer_mul(acc.read(i, j)).faer_add(scaled),
                None => scaled,
            };
            acc.write(i, j, updated);
            i += 1;
        }
        j += 1;
    }
}

/// Computes `alpha * acc + beta * op(lhs) * op(rhs)` and stores the result in
/// `acc`, where `op` conjugates according to the corresponding flag.
pub fn matmul_with_conj<E: ComplexField>(
    acc: &mut Mat<E>,
    lhs: &Mat<E>,
    conj_lhs: Conj,
    rhs: &Mat<E>,
    conj_rhs: Conj,
    alpha: Option<E>,
    beta: E,
    parallelism: Parallelism,
)
    requires
        old(acc).wf(),
        lhs.wf(),
        rhs.wf(),
        old(acc).spec_nrows() == lhs.spec_nrows(),
        old(acc).spec_ncols() == rhs.spec_ncols(),
        lhs.spec_ncols() == rhs.spec_nrows(),
    ensures
        final(acc).wf(),
        final(acc).same_shape(old(acc)),
{
    let _ = parallelism;
    if rhs.ncols() == 1 {
        matvec(acc, lhs, conj_lhs, rhs, conj_rhs, alpha, beta);
    } else {
        matmul_imp(acc, lhs, conj_lhs, rhs, conj_rhs, alpha, beta);
    }
}

/// Computes `alpha * acc + beta * lhs * rhs` and stores the result in `acc`.
pub fn matmul<E: ComplexField>(
    acc: &mut Mat<E>,
    lhs: &Mat<E>,
    rhs: &Mat<E>,
    alpha: Option<E>,
    beta: E,
    parallelism: Parallelism,
)
    requires
        old(acc).wf(),
        lhs.wf(),
        rhs.wf(),
        old(acc).spec_nrows() == lhs.spec_nrows(),
        old(acc).spec_ncols() == rhs.spec_ncols(),
        lhs.spec_ncols() == rhs.spec_nrows(),
    ensures
        final(acc).wf(),
        final(acc).same_shape(old(acc)),
{
    matmul_with_conj(acc, lhs, Conj::No, rhs, Conj::No, alpha, beta, parallelism);
}

} // verus!
