//! Sparse matrix in compressed row format, with values.

use vstd::prelude::*;
use crate::scalar::ComplexField;
use crate::sparse::CreationError;

verus! {

/// A sparse matrix in row format: a nondecreasing row start array, the column
/// index of each stored entry, and the matching values.
pub struct SparseRowMat<E> {
    nrows: usize,
    ncols: usize,
    row_ptr: Vec<usize>,
    col_ind: Vec<usize>,
    values: Vec<E>,
}

impl<E: ComplexField> SparseRowMat<E> {
    /// Well-formedness of the stored arrays.
    pub closed spec fn wf(&self) -> bool {
        &&& self.row_ptr@.len() == self.nrows + 1
        &&& forall|i: int|
            0 <= i < self.nrows ==> (#[trigger] self.row_ptr@[i]) <= self.row_ptr@[i + 1]
        &&& self.row_ptr@[self.nrows as int] <= self.col_ind@.len()
        &&& forall|k: int|
            0 <= k < self.col_ind@.len() ==> (#[trigger] self.col_ind@[k]) < self.ncols
        &&& self.values@.len() == self.col_ind@.len()
    }

    /// The number of rows, at the specification level.
    pub closed spec fn spec_nrows(&self) -> nat {
        self.nrows as nat
    }

    /// The number of columns, at the specification level.
    pub closed spec fn spec_ncols(&self) -> nat {
        self.ncols as nat
    }

    /// The row start array, at the specification level.
    pub closed spec fn spec_row_ptr(&self) -> Seq<usize> {
        self.row_ptr@
    }

    /// The column index array, at the specification level.
    pub closed spec fn spec_col_ind(&self) -> Seq<usize> {
        self.col_ind@
    }

    /// The value array, at the specification level.
    pub closed spec fn spec_values(&self) -> Seq<E> {
        self.values@
    }

    /// A nondecreasing row start array stays ordered across any span.
    pub proof fn lemma_ptr_ordered(&self, a: int, b: int)
        requires
            self.wf(),
            0 <= a <= b <= self.spec_nrows(),
        ensures
            self.spec_row_ptr()[a] <= self.spec_row_ptr()[b],
        decreases b - a,
    {
        if a < b {
            self.lemma_ptr_ordered(a + 1, b);
        }
    }

    /// Builds the matrix from its parts.
    pub fn new(
        nrows: usize,
        ncols: usize,
        row_ptrs: Vec<usize>,
        col_indices: Vec<usize>,
        values: Vec<E>,
    ) -> (r: SparseRowMat<E>)
        requires
            row_ptrs@.len() == nrows + 1,
            forall|i: int| 0 <= i < nrows ==> (#[trigger] row_ptrs@[i]) <= row_ptrs@[i + 1],
            row_ptrs@[nrows as int] <= col_indices@.len(),
            forall|k: int|
                0 <= k < col_indices@.len() ==> (#[trigger] col_indices@[k]) < ncols,
            values@.len() == col_indices@.len(),
        ensures
            r.wf(),
            r.spec_nrows() == nrows,
            r.spec_ncols() == ncols,
            r.spec_values() == values@,
    {
        SparseRowMat { nrows, ncols, row_ptr: row_ptrs, col_ind: col_indices, values }
    }

    /// The number of rows.
    pub fn nrows(&self) -> (r: usize)
        ensures
            r == self.spec_nrows(),
    {
        self.nrows
    }

    /// The number of columns.
    pub fn ncols(&self) -> (r: usize)
        ensures
            r == self.spec_ncols(),
    {
        self.ncols
    }

    /// A borrow of the matrix.
    pub fn as_ref(&self) -> (r: &SparseRowMat<E>)
        ensures
            r == self,
    {
        self
    }

    /// A mutable borrow of the matrix.
    pub fn as_mut(&mut self) -> (r: &mut SparseRowMat<E>)
        ensures
            *r == *old(self),
            *final(self) == *final(r),
    {
        self
    }

    /// The matrix parts: row count, column count, row starts, column indices,
    /// values.
    pub fn into_parts(self) -> (r: (usize, usize, Vec<usize>, Vec<usize>, Vec<E>))
        ensures
            r.0 == self.spec_nrows(),
            r.1 == self.spec_ncols(),
            r.2@ == self.spec_row_ptr(),
            r.3@ == self.spec_col_ind(),
            r.4@ == self.spec_values(),
    {
        let SparseRowMat { nrows, ncols, row_ptr, col_ind, values } = self;
        (nrows, ncols, row_ptr, col_ind, values)
    }

    /// The values of the stored entries.
    pub fn values(&self) -> (r: &Vec<E>)
        ensures
            r@ == self.spec_values(),
    {
        &self.values
    }

    /// A mutable borrow of the values of the stored entries. Shrinking or
    /// growing the borrowed vector leaves the matrix malformed.
    pub fn values_mut(&mut self) -> (r: &mut Vec<E>)
        ensures
            r@ == old(self).spec_values(),
            final(self).spec_values() == final(r)@,
            final(self).spec_nrows() == old(self).spec_nrows(),
            final(self).spec_ncols() == old(self).spec_ncols(),
            final(self).spec_row_ptr() == old(self).spec_row_ptr(),
            final(self).spec_col_ind() == old(self).spec_col_ind(),
    {
        &mut self.values
    }

    /// The number of stored entries.
    pub fn compute_nnz(&self) -> (r: usize)
        requires
            self.wf(),
        ensures
            r <= self.spec_col_ind().len(),
    {
        let start = self.row_ptr[0];
        let end = self.row_ptr[self.nrows];
        proof {
            self.lemma_ptr_ordered(0, self.nrows as int);
        }
        end - start
    }

    /// The row start array.
    pub fn row_ptrs(&self) -> (r: &Vec<usize>)
        ensures
            r@ == self.spec_row_ptr(),
    {
        &self.row_ptr
    }

    /// The per-row counts: this matrix is always compressed, so there are
    /// none.
    pub fn nnz_per_row(&self) -> (r: Option<&Vec<usize>>)
        ensures
            r is None,
    {
        Option::<&Vec<usize>>::None
    }

    /// The column index array.
    pub fn col_indices(&self) -> (r: &Vec<usize>)
        ensures
            r@ == self.spec_col_ind(),
    {
        &self.col_ind
    }

    /// The start and the end of the range of row `i` in the column index
    /// array.
    pub fn row_range(&self, i: usize) -> (r: (usize, usize))
        requires
            self.wf(),
            i < self.spec_nrows(),
        ensures
            r.0 <= r.1,
            r.1 <= self.spec_col_ind().len(),
    {
        let start = self.row_ptr[i];
        let end = self.row_ptr[i + 1];
        proof {
            self.lemma_ptr_ordered(i as int, i + 1);
            self.lemma_ptr_ordered(i + 1, self.nrows as int);
        }
        (start, end)
    }

    /// A copy of the stored column indices of row `i`.
    pub fn col_indices_of_row_raw(&self, i: usize) -> (r: Vec<usize>)
        requires
            self.wf(),
            i < self.spec_nrows(),
        ensures
            forall|k: int| 0 <= k < r@.len() ==> (#[trigger] r@[k]) < self.spec_ncols(),
    {
        self.col_indices_of_row(i)
    }

    /// A copy of the column indices of row `i`.
    pub fn col_indices_of_row(&self, i: usize) -> (r: Vec<usize>)
        requires
            self.wf(),
            i < self.spec_nrows(),
        ensures
            forall|k: int| 0 <= k < r@.len() ==> (#[trigger] r@[k]) < self.spec_ncols(),
    {
        let (start, end) = self.row_range(i);
        let mut r: Vec<usize> = Vec::new();
        let mut k = start;
        while k < end
            invariant
                self.wf(),
                end <= self.spec_col_ind().len(),
                k <= end,
                forall|i2: int| 0 <= i2 < r@.len() ==> (#[trigger] r@[i2]) < self.spec_ncols(),
            decreases end - k,
        {
            r.push(self.col_ind[k]);
            k += 1;
        }
        r
    }

    /// The stored value at the given position, or `None` when the position is
    /// not stored. When a position is stored several times, the first stored
    /// value is returned.
    pub fn get(&self, row: usize, col: usize) -> (r: Option<E>)
        requires
            self.wf(),
            row < self.spec_nrows(),
            col < self.spec_ncols(),
    {
        let (start, end) = self.row_range(row);
        let mut k = start;
        while k < end
            invariant
                self.wf(),
                end <= self.spec_col_ind().len(),
                k <= end,
            decreases end - k,
        {
            if self.col_ind[k] == col {
                return Some(self.values[k]);
            }
            k += 1;
        }
        None
    }

    /// Replaces the first stored value at the given position; a position that
    /// is not stored is left as it is. Returns whether a value was replaced.
    pub fn get_mut(&mut self, row: usize, col: usize, value: E) -> (r: bool)
        requires
            old(self).wf(),
            row < old(self).spec_nrows(),
            col < old(self).spec_ncols(),
        ensures
            final(self).wf(),
            final(self).spec_nrows() == old(self).spec_nrows(),
            final(self).spec_ncols() == old(self).spec_ncols(),
    {
        let (start, end) = self.row_range(row);
        let mut k = start;
        while k < end
            invariant
                self.wf(),
                self.spec_nrows() == old(self).spec_nrows(),
                self.spec_ncols() == old(self).spec_ncols(),
                end <= self.spec_col_ind().len(),
                k <= end,
            decreases end - k,
        {
            if self.col_ind[k] == col {
                proof {
                    assert(self.values@.len() == self.col_ind@.len());
                }
                set_value(&mut self.values, k, value);
                return true;
            }
            k += 1;
        }
        false
    }

    /// A copy of the matrix.
    pub fn to_owned(&self) -> (r: SparseRowMat<E>)
        requires
            self.wf(),
        ensures
            r.wf(),
            r.spec_nrows() == self.spec_nrows(),
            r.spec_ncols() == self.spec_ncols(),
    {
        let mut row_ptr: Vec<usize> = Vec::new();
        let np = self.row_ptr.len();
        let mut k: usize = 0;
        while k < np
            invariant
                self.row_ptr@.len() == np,
                row_ptr@.len() == k,
                k <= np,
                forall|i: int| 0 <= i < k ==> (#[trigger] row_ptr@[i]) == self.row_ptr@[i],
            decreases np - k,
        {
            row_ptr.push(self.row_ptr[k]);
            k += 1;
        }
        let mut col_ind: Vec<usize> = Vec::new();
        let ni = self.col_ind.len();
        let mut k2: usize = 0;
        while k2 < ni
            invariant
                self.col_ind@.len() == ni,
                col_ind@.len() == k2,
                k2 <= ni,
                forall|i: int| 0 <= i < k2 ==> (#[trigger] col_ind@[i]) == self.col_ind@[i],
            decreases ni - k2,
        {
            col_ind.push(self.col_ind[k2]);
            k2 += 1;
        }
        let mut values: Vec<E> = Vec::new();
        let nv = self.values.len();
        let mut k3: usize = 0;
        while k3 < nv
            invariant
                self.values@.len() == nv,
                values@.len() == k3,
                k3 <= nv,
            decreases nv - k3,
        {
            values.push(self.values[k3]);
            k3 += 1;
        }
        proof {
            assert(row_ptr@ =~= self.row_ptr@);
            assert(col_ind@ =~= self.col_ind@);
        }
        SparseRowMat { nrows: self.nrows, ncols: self.ncols, row_ptr, col_ind, values }
    }

    /// The transposed matrix, in the same row format: the entries of output
    /// row `c` are gathered from the rows whose ranges hold column `c`.
    pub fn into_transpose(self) -> (r: SparseRowMat<E>)
        requires
            self.wf(),
        ensures
            r.wf(),
            r.spec_nrows() == self.spec_ncols(),
            r.spec_ncols() == self.spec_nrows(),
    {
        let m = self.nrows;
        let n = self.ncols;
        let mut row_ptr: Vec<usize> = Vec::new();
        let mut col_ind: Vec<usize> = Vec::new();
        let mut values: Vec<E> = Vec::new();
        row_ptr.push(0);
        let mut c: usize = 0;
        while c < n
            invariant
                self.wf(),
                self.spec_nrows() == m,
                self.spec_ncols() == n,
                row_ptr@.len() == c + 1,
                c <= n,
                forall|i: int|
                    0 <= i < c ==> (#[trigger] row_ptr@[i]) <= row_ptr@[i + 1],
                row_ptr@[c as int] == col_ind@.len(),
                forall|k: int| 0 <= k < col_ind@.len() ==> (#[trigger] col_ind@[k]) < m,
                values@.len() == col_ind@.len(),
            decreases n - c,
        {
            let mut i: usize = 0;
            while i < m
                invariant
                    self.wf(),
                    self.spec_nrows() == m,
                    self.spec_ncols() == n,
                    c < n,
                    i <= m,
                    forall|k: int| 0 <= k < col_ind@.len() ==> (#[trigger] col_ind@[k]) < m,
                    values@.len() == col_ind@.len(),
                    row_ptr@.len() == c + 1,
                    row_ptr@[c as int] <= col_ind@.len(),
                decreases m - i,
            {
                let (start, end) = self.row_range(i);
                let mut k = start;
                while k < end
                    invariant
                        self.wf(),
                        self.spec_nrows() == m,
                        self.spec_ncols() == n,
                        end <= self.spec_col_ind().len(),
                        k <= end,
                        c < n,
                        i < m,
                        forall|k2: int|
                            0 <= k2 < col_ind@.len() ==> (#[trigger] col_ind@[k2]) < m,
                        values@.len() == col_ind@.len(),
                        row_ptr@.len() == c + 1,
                        row_ptr@[c as int] <= col_ind@.len(),
                    decreases end - k,
                {
                    if self.col_ind[k] == c {
                        col_ind.push(i);
                        values.push(self.values[k]);
                    }
                    k += 1;
                }
                i += 1;
            }
            row_ptr.push(col_ind.len());
            c += 1;
        }
        SparseRowMat { nrows: n, ncols: m, row_ptr, col_ind, values }
    }

    /// The adjoint matrix: the transpose with every value conjugated.
    pub fn into_adjoint(self) -> (r: SparseRowMat<E>)
        requires
            self.wf(),
        ensures
            r.wf(),
            r.spec_nrows() == self.spec_ncols(),
            r.spec_ncols() == self.spec_nrows(),
    {
        let mut t = self.into_transpose();
        let nv = t.values.len();
        let mut k: usize = 0;
        while k < nv
            invariant
                t.wf(),
                t.spec_nrows() == self.spec_ncols(),
                t.spec_ncols() == self.spec_nrows(),
                t.values@.len() == nv,
                t.col_ind@.len() == nv,
                k <= nv,
            decreases nv - k,
        {
            let v = t.values[k].faer_conj();
            set_value(&mut t.values, k, v);
            k += 1;
        }
        t
    }

    /// Builds the matrix from `(row, column, value)` triplets: the values of
    /// the triplets that name the same position are summed. A triplet out of
    /// range fails the construction.
    pub fn try_new_from_triplets(
        nrows: usize,
        ncols: usize,
        triplets: &Vec<(usize, usize, E)>,
    ) -> (r: Result<SparseRowMat<E>, CreationError>)
        ensures
            r matches Ok(s) ==> s.wf() && s.spec_nrows() == nrows && s.spec_ncols() == ncols,
    {
        let len = triplets.len();
        let mut k: usize = 0;
        while k < len
            invariant
                triplets@.len() == len,
                k <= len,
            decreases len - k,
        {
            let (i, j, _) = triplets[k];
            if i >= nrows || j >= ncols {
                return Err(CreationError);
            }
            k += 1;
        }

        let mut row_ptr: Vec<usize> = Vec::new();
        let mut col_ind: Vec<usize> = Vec::new();
        let mut values: Vec<E> = Vec::new();
        row_ptr.push(0);
        let mut i: usize = 0;
        while i < nrows
            invariant
                triplets@.len() == len,
                row_ptr@.len() == i + 1,
                i <= nrows,
                forall|q: int| 0 <= q < i ==> (#[trigger] row_ptr@[q]) <= row_ptr@[q + 1],
                row_ptr@[i as int] == col_ind@.len(),
                forall|q: int| 0 <= q < col_ind@.len() ==> (#[trigger] col_ind@[q]) < ncols,
                values@.len() == col_ind@.len(),
            decreases nrows - i,
        {
            let mut j: usize = 0;
            while j < ncols
                invariant
                    triplets@.len() == len,
                    i < nrows,
                    j <= ncols,
                    forall|q: int|
                        0 <= q < col_ind@.len() ==> (#[trigger] col_ind@[q]) < ncols,
                    values@.len() == col_ind@.len(),
                    row_ptr@.len() == i + 1,
                    row_ptr@[i as int] <= col_ind@.len(),
                decreases ncols - j,
            {
                let mut found = false;
                let mut acc = E::faer_zero();
                let mut k2: usize = 0;
                while k2 < len
                    invariant
                        triplets@.len() == len,
                        k2 <= len,
                        i < nrows,
                        j < ncols,
                    decreases len - k2,
                {
                    let (ri, ci, v) = triplets[k2];
                    if ri == i && ci == j {
                        found = true;
                        acc = acc.faer_add(v);
                    }
                    k2 += 1;
                }
                if found {
                    col_ind.push(j);
                    values.push(acc);
                }
                j += 1;
            }
            row_ptr.push(col_ind.len());
            i += 1;
        }
        Ok(SparseRowMat { nrows, ncols, row_ptr, col_ind, values })
    }

    /// Builds the matrix from signed `(row, column, value)` triplets: triplets
    /// with a negative coordinate are skipped, and one otherwise out of range
    /// fails the construction.
    pub fn try_new_from_nonnegative_triplets(
        nrows: usize,
        ncols: usize,
        triplets: &Vec<(i64, i64, E)>,
    ) -> (r: Result<SparseRowMat<E>, CreationError>)
        ensures
            r matches Ok(s) ==> s.wf() && s.spec_nrows() == nrows && s.spec_ncols() == ncols,
    {
        let len = triplets.len();
        let mut filtered: Vec<(usize, usize, E)> = Vec::new();
        let mut k: usize = 0;
        while k < len
            invariant
                triplets@.len() == len,
                k <= len,
            decreases len - k,
        {
            let (i, j, v) = triplets[k];
            if i >= 0 && j >= 0 {
                if i >= 0x7fff_ffff_ffff_ffff || j >= 0x7fff_ffff_ffff_ffff {
                    return Err(CreationError);
                }
                filtered.push((i as usize, j as usize, v));
            }
            k += 1;
        }
        SparseRowMat::try_new_from_triplets(nrows, ncols, &filtered)
    }
}

/// Replaces one element of a vector.
fn set_value<E: ComplexField>(v: &mut Vec<E>, k: usize, value: E)
    requires
        k < old(v)@.len(),
    ensures
        final(v)@.len() == old(v)@.len(),
        final(v)@ == old(v)@.update(k as int, value),
{
    let slot: &mut E = &mut v[k];
    *slot = value;
}

} // verus!
