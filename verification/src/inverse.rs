//! Triangular matrix inversion, through a triangular solve against the
//! identity.

use vstd::prelude::*;
use crate::mat::Mat;
use crate::scalar::ComplexField;
use crate::solve;
use crate::{Conj, Parallelism};

verus! {

/// Fills `dst` with the inverse of the lower triangular matrix stored in the
/// lower half of `src` (its strictly upper half is never read).
pub fn invert_lower_triangular<E: ComplexField>(
    dst: &mut Mat<E>,
    src: &Mat<E>,
    conj: Conj,
    parallelism: Parallelism,
)
    requires
        old(dst).wf(),
        src.wf(),
        src.spec_nrows() == src.spec_ncols(),
        old(dst).spec_nrows() == src.spec_nrows(),
        old(dst).spec_ncols() == src.spec_ncols(),
    ensures
        final(dst).wf(),
        final(dst).same_shape(old(dst)),
{
    let n = src.nrows();
    let eye = Mat::identity(n, n);
    dst.copy_from(&eye);
    solve::solve_lower_triangular_in_place_with_conj(src, conj, dst, parallelism);
}

/// Fills `dst` with the inverse of the upper triangular matrix stored in the
/// upper half of `src` (its strictly lower half is never read).
pub fn invert_upper_triangular<E: ComplexField>(
    dst: &mut Mat<E>,
    src: &Mat<E>,
    conj: Conj,
    parallelism: Parallelism,
)
    requires
        old(dst).wf(),
        src.wf(),
        src.spec_nrows() == src.spec_ncols(),
        old(dst).spec_nrows() == src.spec_nrows(),
        old(dst).spec_ncols() == src.spec_ncols(),
    ensures
        final(dst).wf(),
        final(dst).same_shape(old(dst)),
{
    let n = src.nrows();
    let eye = Mat::identity(n, n);
    dst.copy_from(&eye);
    solve::solve_upper_triangular_in_place_with_conj(src, conj, dst, parallelism);
}

/// Fills `dst` with the inverse of the unit lower triangular matrix stored in
/// the strictly lower half of `src`.
pub fn invert_unit_lower_triangular<E: ComplexField>(
    dst: &mut Mat<E>,
    src: &Mat<E>,
    conj: Conj,
    parallelism: Parallelism,
)
    requires
        old(dst).wf(),
        src.wf(),
        src.spec_nrows() == src.spec_ncols(),
        old(dst).spec_nrows() == src.spec_nrows(),
        old(dst).spec_ncols() == src.spec_ncols(),
    ensures
        final(dst).wf(),
        final(dst).same_shape(old(dst)),
{
    let n = src.nrows();
    let eye = Mat::identity(n, n);
    dst.copy_from(&eye);
    solve::solve_unit_lower_triangular_in_place_with_conj(src, conj, dst, parallelism);
}

} // verus!
