//! Permutations.
//!
//! A permutation is stored as a pair of index arrays that are mutually
//! inverse: the forward array and the inverse array. Pivoted factorizations
//! build one by exchanging entries of the identity, which keeps both arrays in
//! step, and solve-stage kernels apply one by gathering rows before a
//! triangular solve and scattering them back after it.

use vstd::prelude::*;
use vstd::pervasive::VecAdditionalExecFns;
use crate::mat::Mat;
use crate::scalar::ComplexField;

verus! {

/// A permutation of `0..len`, stored as mutually inverse forward and inverse
/// index arrays.
pub struct Perm {
    fwd: Vec<usize>,
    inv: Vec<usize>,
}

impl Perm {
    /// Well-formedness: the two arrays have the same length, index into the
    /// permuted range, and are mutually inverse.
    pub closed spec fn wf(&self) -> bool {
        &&& self.fwd@.len() == self.inv@.len()
        &&& forall|i: int|
            0 <= i < self.fwd@.len() ==> (#[trigger] self.fwd@[i]) < self.fwd@.len()
                && self.inv@[self.fwd@[i] as int] == i
        &&& forall|i: int|
            0 <= i < self.inv@.len() ==> (#[trigger] self.inv@[i]) < self.inv@.len()
                && self.fwd@[self.inv@[i] as int] == i
    }

    /// The length of the permuted range, at the specification level.
    pub closed spec fn spec_len(&self) -> nat {
        self.fwd@.len()
    }

    /// The forward image of index `i`, at the specification level.
    pub closed spec fn spec_fwd(&self, i: int) -> usize {
        self.fwd@[i]
    }

    /// The inverse image of index `i`, at the specification level.
    pub closed spec fn spec_inv(&self, i: int) -> usize {
        self.inv@[i]
    }

    /// The identity permutation over `0..len`.
    pub fn identity(len: usize) -> (r: Perm)
        ensures
            r.wf(),
            r.spec_len() == len,
            forall|i: int| 0 <= i < len ==> r.spec_fwd(i) == i && r.spec_inv(i) == i,
    {
        let mut fwd: Vec<usize> = Vec::new();
        let mut inv: Vec<usize> = Vec::new();
        for i in 0..len
            invariant
                fwd@.len() == i,
                inv@.len() == i,
                forall|k: int| 0 <= k < i ==> (#[trigger] fwd@[k]) == k,
                forall|k: int| 0 <= k < i ==> (#[trigger] inv@[k]) == k,
        {
            fwd.push(i);
            inv.push(i);
        }
        Perm { fwd, inv }
    }

    /// The length of the permuted range.
    pub fn len(&self) -> (r: usize)
        ensures
            r == self.spec_len(),
    {
        self.fwd.len()
    }

    /// The forward image of index `i`.
    pub fn fwd(&self, i: usize) -> (r: usize)
        requires
            self.wf(),
            i < self.spec_len(),
        ensures
            r == self.spec_fwd(i as int),
            r < self.spec_len(),
            self.spec_inv(r as int) == i,
    {
        self.fwd[i]
    }

    /// The inverse image of index `i`.
    pub fn inv(&self, i: usize) -> (r: usize)
        requires
            self.wf(),
            i < self.spec_len(),
        ensures
            r == self.spec_inv(i as int),
            r < self.spec_len(),
            self.spec_fwd(r as int) == i,
    {
        self.inv[i]
    }

    /// Exchanges the forward images of positions `i` and `j`, keeping the two
    /// arrays mutually inverse.
    pub fn swap(&mut self, i: usize, j: usize)
        requires
            old(self).wf(),
            i < old(self).spec_len(),
            j < old(self).spec_len(),
        ensures
            final(self).wf(),
            final(self).spec_len() == old(self).spec_len(),
            final(self).spec_fwd(i as int) == old(self).spec_fwd(j as int),
            final(self).spec_fwd(j as int) == old(self).spec_fwd(i as int),
            forall|k: int|
                0 <= k < old(self).spec_len() && k != i as int && k != j as int
                    ==> final(self).spec_fwd(k) == old(self).spec_fwd(k),
    {
        let a = self.fwd[i];
        let b = self.fwd[j];
        self.fwd.set(i, b);
        self.fwd.set(j, a);
        self.inv.set(b, i);
        self.inv.set(a, j);
    }

    /// The inverse permutation: the same pair of arrays with their roles
    /// exchanged.
    pub fn inverse(&self) -> (r: Perm)
        requires
            self.wf(),
        ensures
            r.wf(),
            r.spec_len() == self.spec_len(),
            forall|i: int| 0 <= i < self.spec_len() ==> r.spec_fwd(i) == self.spec_inv(i),
            forall|i: int| 0 <= i < self.spec_len() ==> r.spec_inv(i) == self.spec_fwd(i),
    {
        let mut fwd: Vec<usize> = Vec::new();
        let mut inv: Vec<usize> = Vec::new();
        let n = self.fwd.len();
        for i in 0..n
            invariant
                self.wf(),
                self.spec_len() == n,
                fwd@.len() == i,
                inv@.len() == i,
                forall|k: int| 0 <= k < i ==> (#[trigger] fwd@[k]) == self.inv@[k],
                forall|k: int| 0 <= k < i ==> (#[trigger] inv@[k]) == self.fwd@[k],
        {
            fwd.push(self.inv[i]);
            inv.push(self.fwd[i]);
        }
        Perm { fwd, inv }
    }

    /// The two index arrays: forward first, inverse second.
    pub fn into_arrays(self) -> (r: (Vec<usize>, Vec<usize>))
        requires
            self.wf(),
        ensures
            r.0@.len() == self.spec_len(),
            r.1@.len() == self.spec_len(),
            forall|i: int| 0 <= i < self.spec_len() ==> (#[trigger] r.0@[i]) == self.spec_fwd(i),
            forall|i: int| 0 <= i < self.spec_len() ==> (#[trigger] r.1@[i]) == self.spec_inv(i),
    {
        let Perm { fwd, inv } = self;
        (fwd, inv)
    }
}

/// Gathers rows: fills `dst` with the rows of `src`, the row `fwd(i)` of
/// `src` landing in row `i` of `dst`.
pub fn permute_rows<E: ComplexField>(dst: &mut Mat<E>, src: &Mat<E>, perm: &Perm)
    requires
        old(dst).wf(),
        src.wf(),
        perm.wf(),
        old(dst).same_shape(src),
        perm.spec_len() == src.spec_nrows(),
    ensures
        final(dst).wf(),
        final(dst).same_shape(src),
        forall|i: int, j: int|
            0 <= i < src.spec_nrows() && 0 <= j < src.spec_ncols() ==> final(dst).at(i, j)
                == src.at(perm.spec_fwd(i) as int, j),
{
    let m = src.nrows();
    let n = src.ncols();
    let mut i: usize = 0;
    while i < m
        invariant
            dst.wf(),
            src.wf(),
            perm.wf(),
            dst.spec_nrows() == m,
            dst.spec_ncols() == n,
            src.spec_nrows() == m,
            src.spec_ncols() == n,
            perm.spec_len() == m,
            i <= m,
            forall|i2: int, j2: int|
                0 <= i2 < i && 0 <= j2 < n ==> dst.at(i2, j2) == src.at(
                    perm.spec_fwd(i2) as int,
                    j2,
                ),
        decreases m - i,
    {
        let pi = perm.fwd(i);
        let mut j: usize = 0;
        while j < n
            invariant
                dst.wf(),
                src.wf(),
                perm.wf(),
                dst.spec_nrows() == m,
                dst.spec_ncols() == n,
                src.spec_nrows() == m,
                src.spec_ncols() == n,
                perm.spec_len() == m,
                i < m,
                j <= n,
                pi == perm.spec_fwd(i as int),
                pi < m,
                forall|i2: int, j2: int|
                    0 <= i2 < i && 0 <= j2 < n ==> dst.at(i2, j2) == src.at(
                        perm.spec_fwd(i2) as int,
                        j2,
                    ),
                forall|j2: int|
                    0 <= j2 < j ==> dst.at(i as int, j2) == src.at(pi as int, j2),
            decreases n - j,
        {
            let v = src.read(pi, j);
            dst.write(i, j, v);
            j += 1;
        }
        i += 1;
    }
}

/// Gathering rows by a permutation and then gathering by its inverse restores
/// every entry: for all indices, the row that the inverse brings back is the
/// row that the permutation took away.
pub proof fn lemma_permute_rows_round_trip(perm: &Perm, i: int)
    requires
        perm.wf(),
        0 <= i < perm.spec_len(),
    ensures
        perm.spec_inv(perm.spec_fwd(i) as int) == i,
        perm.spec_fwd(perm.spec_inv(i) as int) == i,
{
}

/// Gathers columns: fills `dst` with the columns of `src`, the column
/// `fwd(j)` of `src` landing in column `j` of `dst`.
pub fn permute_cols<E: ComplexField>(dst: &mut Mat<E>, src: &Mat<E>, perm: &Perm)
    requires
        old(dst).wf(),
        src.wf(),
        perm.wf(),
        old(dst).same_shape(src),
        perm.spec_len() == src.spec_ncols(),
    ensures
        final(dst).wf(),
        final(dst).same_shape(src),
        forall|i: int, j: int|
            0 <= i < src.spec_nrows() && 0 <= j < src.spec_ncols() ==> final(dst).at(i, j)
                == src.at(i, perm.spec_fwd(j) as int),
{
    let m = src.nrows();
    let n = src.ncols();
    let mut j: usize = 0;
    while j < n
        invariant
            dst.wf(),
            src.wf(),
            perm.wf(),
            dst.spec_nrows() == m,
            dst.spec_ncols() == n,
            src.spec_nrows() == m,
            src.spec_ncols() == n,
            perm.spec_len() == n,
            j <= n,
            forall|i2: int, j2: int|
                0 <= i2 < m && 0 <= j2 < j ==> dst.at(i2, j2) == src.at(
                    i2,
                    perm.spec_fwd(j2) as int,
                ),
        decreases n - j,
    {
        let pj = perm.fwd(j);
        let mut i: usize = 0;
        while i < m
            invariant
                dst.wf(),
                src.wf(),
                perm.wf(),
                dst.spec_nrows() == m,
                dst.spec_ncols() == n,
                src.spec_nrows() == m,
                src.spec_ncols() == n,
                perm.spec_len() == n,
                j < n,
                i <= m,
                pj == perm.spec_fwd(j as int),
                pj < n,
                forall|i2: int, j2: int|
                    0 <= i2 < m && 0 <= j2 < j ==> dst.at(i2, j2) == src.at(
                        i2,
                        perm.spec_fwd(j2) as int,
                    ),
                forall|i2: int|
                    0 <= i2 < i ==> dst.at(i2, j as int) == src.at(i2, pj as int),
            decreases m - i,
        {
            let v = src.read(i, pj);
            dst.write(i, j, v);
            i += 1;
        }
        j += 1;
    }
}

/// Exchanges two rows of a matrix.
pub fn swap_rows<E: ComplexField>(mat: &mut Mat<E>, i0: usize, i1: usize)
    requires
        old(mat).wf(),
        i0 < old(mat).spec_nrows(),
        i1 < old(mat).spec_nrows(),
    ensures
        final(mat).wf(),
        final(mat).same_shape(old(mat)),
        forall|j: int|
            0 <= j < old(mat).spec_ncols() ==> final(mat).at(i0 as int, j) == old(mat).at(
                i1 as int,
                j,
            ),
        forall|j: int|
            0 <= j < old(mat).spec_ncols() ==> final(mat).at(i1 as int, j) == (if i0 == i1 {
                old(mat).at(i1 as int, j)
            } else {
                old(mat).at(i0 as int, j)
            }),
        forall|i: int, j: int|
            0 <= i < old(mat).spec_nrows() && 0 <= j < old(mat).spec_ncols() && i != i0 as int
                && i != i1 as int ==> final(mat).at(i, j) == old(mat).at(i, j),
{
    let n = mat.ncols();
    let ghost m0 = *old(mat);
    let mut j: usize = 0;
    while j < n
        invariant
            mat.wf(),
            mat.same_shape(&m0),
            m0.wf(),
            i0 < m0.spec_nrows(),
            i1 < m0.spec_nrows(),
            m0.spec_ncols() == n,
            j <= n,
            forall|j2: int| 0 <= j2 < j ==> mat.at(i0 as int, j2) == m0.at(i1 as int, j2),
            forall|j2: int|
                0 <= j2 < j ==> mat.at(i1 as int, j2) == (if i0 == i1 {
                    m0.at(i1 as int, j2)
                } else {
                    m0.at(i0 as int, j2)
                }),
            forall|j2: int| j <= j2 < n ==> mat.at(i0 as int, j2) == m0.at(i0 as int, j2),
            forall|j2: int| j <= j2 < n ==> mat.at(i1 as int, j2) == m0.at(i1 as int, j2),
            forall|i: int, j2: int|
                0 <= i < m0.spec_nrows() && 0 <= j2 < n && i != i0 as int && i != i1 as int
                    ==> mat.at(i, j2) == m0.at(i, j2),
        decreases n - j,
    {
        mat.swap_elems(i0, j, i1, j);
        j += 1;
    }
}

/// Exchanges two columns of a matrix.
pub fn swap_cols<E: ComplexField>(mat: &mut Mat<E>, j0: usize, j1: usize)
    requires
        old(mat).wf(),
        j0 < old(mat).spec_ncols(),
        j1 < old(mat).spec_ncols(),
    ensures
        final(mat).wf(),
        final(mat).same_shape(old(mat)),
        forall|i: int|
            0 <= i < old(mat).spec_nrows() ==> final(mat).at(i, j0 as int) == old(mat).at(
                i,
                j1 as int,
            ),
        forall|i: int|
            0 <= i < old(mat).spec_nrows() ==> final(mat).at(i, j1 as int) == (if j0 == j1 {
                old(mat).at(i, j1 as int)
            } else {
                old(mat).at(i, j0 as int)
            }),
        forall|i: int, j: int|
            0 <= i < old(mat).spec_nrows() && 0 <= j < old(mat).spec_ncols() && j != j0 as int
                && j != j1 as int ==> final(mat).at(i, j) == old(mat).at(i, j),
{
    let m = mat.nrows();
    let ghost m0 = *old(mat);
    let mut i: usize = 0;
    while i < m
        invariant
            mat.wf(),
            mat.same_shape(&m0),
            m0.wf(),
            j0 < m0.spec_ncols(),
            j1 < m0.spec_ncols(),
            m0.spec_nrows() == m,
            i <= m,
            forall|i2: int| 0 <= i2 < i ==> mat.at(i2, j0 as int) == m0.at(i2, j1 as int),
            forall|i2: int|
                0 <= i2 < i ==> mat.at(i2, j1 as int) == (if j0 == j1 {
                    m0.at(i2, j1 as int)
                } else {
                    m0.at(i2, j0 as int)
                }),
            forall|i2: int| i <= i2 < m ==> mat.at(i2, j0 as int) == m0.at(i2, j0 as int),
            forall|i2: int| i <= i2 < m ==> mat.at(i2, j1 as int) == m0.at(i2, j1 as int),
            forall|i2: int, j: int|
                0 <= i2 < m && 0 <= j < m0.spec_ncols() && j != j0 as int && j != j1 as int
                    ==> mat.at(i2, j) == m0.at(i2, j),
        decreases m - i,
    {
        mat.swap_elems(i, j0, i, j1);
        i += 1;
    }
}

} // verus!
