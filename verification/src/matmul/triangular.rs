//! Matrix multiplication over triangular operands.
//!
//! Each operand and the accumulator carry a [`BlockStructure`] describing
//! which part of the stored rectangle is meaningful: the part outside the
//! structure reads as zero (it is never accessed), a unit diagonal reads as
//! one, and only accumulator entries inside the accumulator's structure are
//! written.

use vstd::prelude::*;
use crate::mat::Mat;
use crate::scalar::{maybe_conj, ComplexField};
use crate::{Conj, Parallelism};

verus! {

/// The structure of a matrix operand of a triangular multiply.
#[derive(Copy, Clone, PartialEq, Eq, Structural, Debug)]
pub enum BlockStructure {
    /// Every entry of the rectangle is meaningful.
    Rectangular,
    /// Entries on or below the diagonal are meaningful; the rest read as zero.
    TriangularLower,
    /// Entries strictly below the diagonal are meaningful; the diagonal reads
    /// as zero too.
    StrictTriangularLower,
    /// Entries strictly below the diagonal are meaningful; the diagonal reads
    /// as one.
    UnitTriangularLower,
    /// Entries on or above the diagonal are meaningful; the rest read as zero.
    TriangularUpper,
    /// Entries strictly above the diagonal are meaningful; the diagonal reads
    /// as zero too.
    StrictTriangularUpper,
    /// Entries strictly above the diagonal are meaningful; the diagonal reads
    /// as one.
    UnitTriangularUpper,
}

/// Whether the entry at `(i, j)` lies inside the given structure, so that a
/// multiply is allowed to write it.
pub open spec fn spec_in_structure(i: int, j: int, structure: BlockStructure) -> bool {
    match structure {
        BlockStructure::Rectangular => true,
        BlockStructure::TriangularLower => i >= j,
        BlockStructure::StrictTriangularLower => i > j,
        BlockStructure::UnitTriangularLower => i > j,
        BlockStructure::TriangularUpper => i <= j,
        BlockStructure::StrictTriangularUpper => i < j,
        BlockStructure::UnitTriangularUpper => i < j,
    }
}

/// Whether the entry at `(i, j)` lies inside the given structure.
pub fn in_structure(i: usize, j: usize, structure: BlockStructure) -> (r: bool)
    ensures
        r == spec_in_structure(i as int, j as int, structure),
{
    match structure {
        BlockStructure::Rectangular => true,
        BlockStructure::TriangularLower => i >= j,
        BlockStructure::StrictTriangularLower => i > j,
        BlockStructure::UnitTriangularLower => i > j,
        BlockStructure::TriangularUpper => i <= j,
        BlockStructure::StrictTriangularUpper => i < j,
        BlockStructure::UnitTriangularUpper => i < j,
    }
}

/// Reads an entry of a structured operand: stored entries inside the
/// structure, zero outside it, and one on a unit diagonal.
fn read_structured<E: ComplexField>(
    mat: &Mat<E>,
    i: usize,
    j: usize,
    structure: BlockStructure,
    conj: Conj,
) -> E
    requires
        mat.wf(),
        i < mat.spec_nrows(),
        j < mat.spec_ncols(),
{
    let unit_diag = match structure {
        BlockStructure::UnitTriangularLower => true,
        BlockStructure::UnitTriangularUpper => true,
        _ => false,
    };
    if i == j && unit_diag {
        E::faer_one()
    } else if in_structure(i, j, structure) {
        maybe_conj(conj, mat.read(i, j))
    } else {
        E::faer_zero()
    }
}

/// Computes `alpha * acc + beta * op(lhs) * op(rhs)` over structured operands
/// and stores the result in the entries of `acc` that lie inside
/// `acc_structure`; the entries outside it are left as they were.
pub fn matmul_with_conj<E: ComplexField>(
    acc: &mut Mat<E>,
    acc_structure: BlockStructure,
    lhs: &Mat<E>,
    lhs_structure: BlockStructure,
    conj_lhs: Conj,
    rhs: &Mat<E>,
    rhs_structure: BlockStructure,
    conj_rhs: Conj,
    alpha: Option<E>,
    beta: E,
    parallelism: Parallelism,
)
    requires
        old(acc).wf(),
        lhs.wf(),
        rhs.wf(),
        old(acc).spec_nrows() == lhs.spec_nrows(),
        old(acc).spec_ncols() == rhs.spec_ncols(),
        lhs.spec_ncols() == rhs.spec_nrows(),
    ensures
        final(acc).wf(),
        final(acc).same_shape(old(acc)),
        forall|i: int, j: int|
            0 <= i < old(acc).spec_nrows() && 0 <= j < old(acc).spec_ncols()
                && !spec_in_structure(i, j, acc_structure)
                ==> final(acc).at(i, j) == old(acc).at(i, j),
{
    let _ = parallelism;
    let m = acc.nrows();
    let n = acc.ncols();
    let depth = lhs.ncols();
    let mut j: usize = 0;
    while j < n
        invariant
            acc.wf(),
            lhs.wf(),
            rhs.wf(),
            acc.spec_nrows() == m,
            acc.spec_ncols() == n,
            lhs.spec_nrows() == m,
            rhs.spec_ncols() == n,
            lhs.spec_ncols() == depth,
            rhs.spec_nrows() == depth,
            j <= n,
            forall|i2: int, j2: int|
                0 <= i2 < m && 0 <= j2 < n && !spec_in_structure(i2, j2, acc_structure)
                    ==> acc.at(i2, j2) == old(acc).at(i2, j2),
        decreases n - j,
    {
        let mut i: usize = 0;
        while i < m
            invariant
                acc.wf(),
                lhs.wf(),
                rhs.wf(),
                acc.spec_nrows() == m,
                acc.spec_ncols() == n,
                lhs.spec_nrows() == m,
                rhs.spec_ncols() == n,
                lhs.spec_ncols() == depth,
                rhs.spec_nrows() == depth,
                j < n,
                i <= m,
                forall|i2: int, j2: int|
                    0 <= i2 < m && 0 <= j2 < n && !spec_in_structure(i2, j2, acc_structure)
                        ==> acc.at(i2, j2) == old(acc).at(i2, j2),
            decreases m - i,
        {
            if in_structure(i, j, acc_structure) {
                let mut dot = E::faer_zero();
                let mut k: usize = 0;
                while k < depth
                    invariant
                        lhs.wf(),
                        rhs.wf(),
                        lhs.spec_nrows() == m,
                        rhs.spec_ncols() == n,
                        lhs.spec_ncols() == depth,
                        rhs.spec_nrows() == depth,
                        i < m,
                        j < n,
                        k <= depth,
                    decreases depth - k,
                {
                    let l = read_structured(lhs, i, k, lhs_structure, conj_lhs);
                    let r = read_structured(rhs, k, j, rhs_structure, conj_rhs);
                    dot = dot.faer_add(l.faer_mul(r));
                    k += 1;
                }
                let scaled = beta.faer_mul(dot);
                let updated = match alpha {
                    Some(a) => a.faer_mul(acc.read(i, j)).faer_add(scaled),
                    None => scaled,
                };
                acc.write(i, j, updated);
            }
            i += 1;
        }
        j += 1;
    }
}

/// Computes `alpha * acc + beta * lhs * rhs` over structured operands and
/// stores the result in the entries of `acc` that lie inside `acc_structure`.
pub fn matmul<E: ComplexField>(
    acc: &mut Mat<E>,
    acc_structure: BlockStructure,
    lhs: &Mat<E>,
    lhs_structure: BlockStructure,
    rhs: &Mat<E>,
    rhs_structure: BlockStructure,
    alpha: Option<E>,
    beta: E,
    parallelism: Parallelism,
)
    requires
        old(acc).wf(),
        lhs.wf(),
        rhs.wf(),
        old(acc).spec_nrows() == lhs.spec_nrows(),
        old(acc).spec_ncols() == rhs.spec_ncols(),
        lhs.spec_ncols() == rhs.spec_nrows(),
    ensures
        final(acc).wf(),
        final(acc).same_shape(old(acc)),
        forall|i: int, j: int|
            0 <= i < old(acc).spec_nrows() && 0 <= j < old(acc).spec_ncols()
                && !spec_in_structure(i, j, acc_structure)
                ==> final(acc).at(i, j) == old(acc).at(i, j),
{
    matmul_with_conj(
        acc,
        acc_structure,
        lhs,
        lhs_structure,
        Conj::No,
        rhs,
        rhs_structure,
        Conj::No,
        alpha,
        beta,
        parallelism,
    );
}

} // verus!
