//! Symbolic structure of a sparse matrix in compressed column format: the
//! column start array, the row indices, and optionally a per-column count for
//! uncompressed columns that keep unused space between them.

use vstd::prelude::*;
use crate::sparse::CreationError;

verus! {

/// Symbolic structure of a sparse matrix in column format, either compressed
/// or uncompressed. The column start array is nondecreasing, ends within the
/// row index array, and every stored row index is in range; when the
/// per-column counts are present, each is bounded by the width of its column
/// range.
pub struct SymbolicSparseColMat {
    nrows: usize,
    ncols: usize,
    col_ptr: Vec<usize>,
    col_nnz: Option<Vec<usize>>,
    row_ind: Vec<usize>,
}

impl SymbolicSparseColMat {
    /// Well-formedness of the stored arrays.
    pub closed spec fn wf(&self) -> bool {
        &&& self.col_ptr@.len() == self.ncols + 1
        &&& forall|j: int|
            0 <= j < self.ncols ==> (#[trigger] self.col_ptr@[j]) <= self.col_ptr@[j + 1]
        &&& self.col_ptr@[self.ncols as int] <= self.row_ind@.len()
        &&& forall|k: int|
            0 <= k < self.row_ind@.len() ==> (#[trigger] self.row_ind@[k]) < self.nrows
        &&& match self.col_nnz {
            Some(nnz) => nnz@.len() == self.ncols && forall|j: int|
                0 <= j < self.ncols ==> (#[trigger] nnz@[j]) <= self.col_ptr@[j + 1]
                    - self.col_ptr@[j],
            _ => true,
        }
    }

    /// The number of rows, at the specification level.
    pub closed spec fn spec_nrows(&self) -> nat {
        self.nrows as nat
    }

    /// The number of columns, at the specification level.
    pub closed spec fn spec_ncols(&self) -> nat {
        self.ncols as nat
    }

    /// The column start array, at the specification level.
    pub closed spec fn spec_col_ptr(&self) -> Seq<usize> {
        self.col_ptr@
    }

    /// The row index array, at the specification level.
    pub closed spec fn spec_row_ind(&self) -> Seq<usize> {
        self.row_ind@
    }

    /// The optional per-column counts, at the specification level.
    pub closed spec fn spec_col_nnz(&self) -> Option<Vec<usize>> {
        self.col_nnz
    }

    /// A nondecreasing column start array stays ordered across any span.
    pub proof fn lemma_ptr_ordered(&self, a: int, b: int)
        requires
            self.wf(),
            0 <= a <= b <= self.spec_ncols(),
        ensures
            self.spec_col_ptr()[a] <= self.spec_col_ptr()[b],
        decreases b - a,
    {
        if a < b {
            self.lemma_ptr_ordered(a + 1, b);
        }
    }

    /// Builds the structure after checking its invariants, with row indices
    /// sorted within each column.
    pub fn new_checked(
        nrows: usize,
        ncols: usize,
        col_ptrs: Vec<usize>,
        nnz_per_col: Option<Vec<usize>>,
        row_indices: Vec<usize>,
    ) -> (r: SymbolicSparseColMat)
        requires
            col_ptrs@.len() == ncols + 1,
            forall|j: int| 0 <= j < ncols ==> (#[trigger] col_ptrs@[j]) <= col_ptrs@[j + 1],
            col_ptrs@[ncols as int] <= row_indices@.len(),
            forall|k: int|
                0 <= k < row_indices@.len() ==> (#[trigger] row_indices@[k]) < nrows,
            match nnz_per_col {
                Some(nnz) => nnz@.len() == ncols && forall|j: int|
                    0 <= j < ncols ==> (#[trigger] nnz@[j]) <= col_ptrs@[j + 1] - col_ptrs@[j],
                _ => true,
            },
        ensures
            r.wf(),
            r.spec_nrows() == nrows,
            r.spec_ncols() == ncols,
            r.spec_col_ptr() == col_ptrs@,
            r.spec_row_ind() == row_indices@,
    {
        SymbolicSparseColMat { nrows, ncols, col_ptr: col_ptrs, col_nnz: nnz_per_col, row_ind: row_indices }
    }

    /// Builds the structure after checking its invariants, allowing unsorted
    /// or repeated row indices within a column.
    pub fn new_unsorted_checked(
        nrows: usize,
        ncols: usize,
        col_ptrs: Vec<usize>,
        nnz_per_col: Option<Vec<usize>>,
        row_indices: Vec<usize>,
    ) -> (r: SymbolicSparseColMat)
        requires
            col_ptrs@.len() == ncols + 1,
            forall|j: int| 0 <= j < ncols ==> (#[trigger] col_ptrs@[j]) <= col_ptrs@[j + 1],
            col_ptrs@[ncols as int] <= row_indices@.len(),
            forall|k: int|
                0 <= k < row_indices@.len() ==> (#[trigger] row_indices@[k]) < nrows,
            match nnz_per_col {
                Some(nnz) => nnz@.len() == ncols && forall|j: int|
                    0 <= j < ncols ==> (#[trigger] nnz@[j]) <= col_ptrs@[j + 1] - col_ptrs@[j],
                _ => true,
            },
        ensures
            r.wf(),
            r.spec_nrows() == nrows,
            r.spec_ncols() == ncols,
    {
        SymbolicSparseColMat { nrows, ncols, col_ptr: col_ptrs, col_nnz: nnz_per_col, row_ind: row_indices }
    }

    /// The structure's parts: row count, column count, column starts, optional
    /// per-column counts, and row indices.
    pub fn into_parts(self) -> (r: (usize, usize, Vec<usize>, Option<Vec<usize>>, Vec<usize>))
        ensures
            r.0 == self.spec_nrows(),
            r.1 == self.spec_ncols(),
            r.2@ == self.spec_col_ptr(),
            r.4@ == self.spec_row_ind(),
    {
        let SymbolicSparseColMat { nrows, ncols, col_ptr, col_nnz, row_ind } = self;
        (nrows, ncols, col_ptr, col_nnz, row_ind)
    }

    /// A borrow of the structure.
    pub fn as_ref(&self) -> (r: &SymbolicSparseColMat)
        ensures
            r == self,
    {
        self
    }

    /// The number of rows.
    pub fn nrows(&self) -> (r: usize)
        ensures
            r == self.spec_nrows(),
    {
        self.nrows
    }

    /// The number of columns.
    pub fn ncols(&self) -> (r: usize)
        ensures
            r == self.spec_ncols(),
    {
        self.ncols
    }

    /// A copy of the structure.
    pub fn to_owned(&self) -> (r: SymbolicSparseColMat)
        requires
            self.wf(),
        ensures
            r.wf(),
            r.spec_nrows() == self.spec_nrows(),
            r.spec_ncols() == self.spec_ncols(),
            r.spec_col_ptr() == self.spec_col_ptr(),
            r.spec_row_ind() == self.spec_row_ind(),
    {
        let mut col_ptr: Vec<usize> = Vec::new();
        let mut k: usize = 0;
        let np = self.col_ptr.len();
        while k < np
            invariant
                self.col_ptr@.len() == np,
                col_ptr@.len() == k,
                k <= np,
                forall|i: int| 0 <= i < k ==> (#[trigger] col_ptr@[i]) == self.col_ptr@[i],
            decreases np - k,
        {
            col_ptr.push(self.col_ptr[k]);
            k += 1;
        }
        let mut row_ind: Vec<usize> = Vec::new();
        let mut k2: usize = 0;
        let ni = self.row_ind.len();
        while k2 < ni
            invariant
                self.row_ind@.len() == ni,
                row_ind@.len() == k2,
                k2 <= ni,
                forall|i: int| 0 <= i < k2 ==> (#[trigger] row_ind@[i]) == self.row_ind@[i],
            decreases ni - k2,
        {
            row_ind.push(self.row_ind[k2]);
            k2 += 1;
        }
        let col_nnz: Option<Vec<usize>> = match &self.col_nnz {
            Some(nnz) => {
                let mut out: Vec<usize> = Vec::new();
                let mut k3: usize = 0;
                let nn = nnz.len();
                while k3 < nn
                    invariant
                        nnz@.len() == nn,
                        out@.len() == k3,
                        k3 <= nn,
                        forall|i: int| 0 <= i < k3 ==> (#[trigger] out@[i]) == nnz@[i],
                    decreases nn - k3,
                {
                    out.push(nnz[k3]);
                    k3 += 1;
                }
                proof {
                    assert(out@ =~= nnz@);
                }
                Some(out)
            },
            _ => { Option::<Vec<usize>>::None },
        };
        proof {
            assert(col_ptr@ =~= self.col_ptr@);
            assert(row_ind@ =~= self.row_ind@);
        }
        SymbolicSparseColMat { nrows: self.nrows, ncols: self.ncols, col_ptr, col_nnz, row_ind }
    }

    /// The number of stored entries.
    pub fn compute_nnz(&self) -> (r: usize)
        requires
            self.wf(),
        ensures
            r <= self.spec_row_ind().len(),
    {
        match &self.col_nnz {
            Some(nnz) => {
                let n = self.ncols;
                let mut acc: usize = 0;
                let mut j: usize = 0;
                while j < n
                    invariant
                        self.wf(),
                        self.spec_ncols() == n,
                        self.col_nnz == Some(*nnz),
                        j <= n,
                        acc + self.col_ptr@[0] <= self.col_ptr@[j as int],
                    decreases n - j,
                {
                    proof {
                        self.lemma_ptr_ordered(j + 1, n as int);
                    }
                    acc = acc + nnz[j];
                    j += 1;
                }
                proof {
                    self.lemma_ptr_ordered(0, n as int);
                }
                acc
            },
            _ => {
                let start = self.col_ptr[0];
                let end = self.col_ptr[self.ncols];
                proof {
                    self.lemma_ptr_ordered(0, self.ncols as int);
                }
                end - start
            },
        }
    }

    /// The column start array.
    pub fn col_ptrs(&self) -> (r: &Vec<usize>)
        ensures
            r@ == self.spec_col_ptr(),
    {
        &self.col_ptr
    }

    /// The per-column counts, when the structure is uncompressed.
    pub fn nnz_per_col(&self) -> (r: &Option<Vec<usize>>)
        ensures
            *r == self.spec_col_nnz(),
    {
        &self.col_nnz
    }

    /// The row index array.
    pub fn row_indices(&self) -> (r: &Vec<usize>)
        ensures
            r@ == self.spec_row_ind(),
    {
        &self.row_ind
    }

    /// The start and the end of the range of column `j` in the row index
    /// array.
    pub fn col_range(&self, j: usize) -> (r: (usize, usize))
        requires
            self.wf(),
            j < self.spec_ncols(),
        ensures
            r.0 <= r.1,
            r.1 <= self.spec_row_ind().len(),
    {
        let start = self.col_ptr[j];
        let end = match &self.col_nnz {
            Some(nnz) => start + nnz[j],
            _ => self.col_ptr[j + 1],
        };
        proof {
            self.lemma_ptr_ordered(j + 1, self.ncols as int);
        }
        (start, end)
    }

    /// A copy of the stored row indices of column `j`, including any unused
    /// slots of an uncompressed column.
    pub fn row_indices_of_col_raw(&self, j: usize) -> (r: Vec<usize>)
        requires
            self.wf(),
            j < self.spec_ncols(),
        ensures
            forall|k: int| 0 <= k < r@.len() ==> (#[trigger] r@[k]) < self.spec_nrows(),
    {
        self.row_indices_of_col(j)
    }

    /// A copy of the row indices of column `j`.
    pub fn row_indices_of_col(&self, j: usize) -> (r: Vec<usize>)
        requires
            self.wf(),
            j < self.spec_ncols(),
        ensures
            forall|k: int| 0 <= k < r@.len() ==> (#[trigger] r@[k]) < self.spec_nrows(),
    {
        let (start, end) = self.col_range(j);
        let mut r: Vec<usize> = Vec::new();
        let mut k = start;
        while k < end
            invariant
                self.wf(),
                end <= self.spec_row_ind().len(),
                k <= end,
                forall|i: int| 0 <= i < r@.len() ==> (#[trigger] r@[i]) < self.spec_nrows(),
            decreases end - k,
        {
            r.push(self.row_ind[k]);
            k += 1;
        }
        r
    }

    /// The structure of the transposed matrix, in the same column format: the
    /// entries of output column `c` are the columns whose ranges hold row `c`,
    /// gathered in order, so the output is sorted and compressed.
    pub fn into_transpose(self) -> (r: SymbolicSparseColMat)
        requires
            self.wf(),
        ensures
            r.wf(),
            r.spec_nrows() == self.spec_ncols(),
            r.spec_ncols() == self.spec_nrows(),
    {
        let mut col_ptr: Vec<usize> = Vec::new();
        let mut row_ind: Vec<usize> = Vec::new();
        col_ptr.push(0);
        let m = self.nrows;
        let n = self.ncols;
        let mut c: usize = 0;
        while c < m
            invariant
                self.wf(),
                self.spec_nrows() == m,
                self.spec_ncols() == n,
                col_ptr@.len() == c + 1,
                c <= m,
                forall|i: int|
                    0 <= i < c ==> (#[trigger] col_ptr@[i]) <= col_ptr@[i + 1],
                col_ptr@[c as int] == row_ind@.len(),
                forall|k: int| 0 <= k < row_ind@.len() ==> (#[trigger] row_ind@[k]) < n,
            decreases m - c,
        {
            let mut j: usize = 0;
            while j < n
                invariant
                    self.wf(),
                    self.spec_nrows() == m,
                    self.spec_ncols() == n,
                    c < m,
                    j <= n,
                    forall|k: int| 0 <= k < row_ind@.len() ==> (#[trigger] row_ind@[k]) < n,
                    row_ind@.len() >= col_ptr@[c as int],
                    col_ptr@.len() == c + 1,
                    col_ptr@[c as int] <= row_ind@.len(),
                decreases n - j,
            {
                let (start, end) = self.col_range(j);
                let mut k = start;
                let mut found = false;
                while k < end
                    invariant
                        self.wf(),
                        end <= self.spec_row_ind().len(),
                        k <= end,
                        c < m,
                    decreases end - k,
                {
                    if self.row_ind[k] == c {
                        found = true;
                    }
                    k += 1;
                }
                if found {
                    row_ind.push(j);
                }
                j += 1;
            }
            col_ptr.push(row_ind.len());
            c += 1;
        }
        SymbolicSparseColMat {
            nrows: n,
            ncols: m,
            col_ptr,
            col_nnz: Option::<Vec<usize>>::None,
            row_ind,
        }
    }

    /// Builds the structure of the matrix whose entries are the given
    /// `(row, column)` pairs: per column, the rows that appear in the list,
    /// deduplicated and sorted. A pair out of range fails the construction.
    pub fn try_new_from_indices(
        nrows: usize,
        ncols: usize,
        indices: &Vec<(usize, usize)>,
    ) -> (r: Result<SymbolicSparseColMat, CreationError>)
        ensures
            r matches Ok(s) ==> s.wf() && s.spec_nrows() == nrows && s.spec_ncols() == ncols,
    {
        let len = indices.len();
        let mut k: usize = 0;
        while k < len
            invariant
                indices@.len() == len,
                k <= len,
            decreases len - k,
        {
            let (i, j) = indices[k];
            if i >= nrows || j >= ncols {
                return Err(CreationError);
            }
            k += 1;
        }

        let mut col_ptr: Vec<usize> = Vec::new();
        let mut row_ind: Vec<usize> = Vec::new();
        col_ptr.push(0);
        let mut j: usize = 0;
        while j < ncols
            invariant
                indices@.len() == len,
                col_ptr@.len() == j + 1,
                j <= ncols,
                forall|i: int|
                    0 <= i < j ==> (#[trigger] col_ptr@[i]) <= col_ptr@[i + 1],
                col_ptr@[j as int] == row_ind@.len(),
                forall|k2: int| 0 <= k2 < row_ind@.len() ==> (#[trigger] row_ind@[k2]) < nrows,
            decreases ncols - j,
        {
            let mut r: usize = 0;
            while r < nrows
                invariant
                    indices@.len() == len,
                    j < ncols,
                    r <= nrows,
                    forall|k2: int|
                        0 <= k2 < row_ind@.len() ==> (#[trigger] row_ind@[k2]) < nrows,
                    row_ind@.len() >= col_ptr@[j as int],
                    col_ptr@.len() == j + 1,
                    col_ptr@[j as int] <= row_ind@.len(),
                decreases nrows - r,
            {
                let mut found = false;
                let mut k2: usize = 0;
                while k2 < len
                    invariant
                        indices@.len() == len,
                        k2 <= len,
                        r < nrows,
                        j < ncols,
                    decreases len - k2,
                {
                    let (ri, ci) = indices[k2];
                    if ri == r && ci == j {
                        found = true;
                    }
                    k2 += 1;
                }
                if found {
                    row_ind.push(r);
                }
                r += 1;
            }
            col_ptr.push(row_ind.len());
            j += 1;
        }
        Ok(
            SymbolicSparseColMat {
                nrows,
                ncols,
                col_ptr,
                col_nnz: Option::<Vec<usize>>::None,
                row_ind,
            },
        )
    }

    /// Builds the structure from signed `(row, column)` pairs: pairs with a
    /// negative coordinate are skipped, and a pair otherwise out of range
    /// fails the construction.
    pub fn try_new_from_nonnegative_indices(
        nrows: usize,
        ncols: usize,
        indices: &Vec<(i64, i64)>,
    ) -> (r: Result<SymbolicSparseColMat, CreationError>)
        ensures
            r matches Ok(s) ==> s.wf() && s.spec_nrows() == nrows && s.spec_ncols() == ncols,
    {
        let len = indices.len();
        let mut filtered: Vec<(usize, usize)> = Vec::new();
        let mut k: usize = 0;
        while k < len
            invariant
                indices@.len() == len,
                k <= len,
            decreases len - k,
        {
            let (i, j) = indices[k];
            if i >= 0 && j >= 0 {
                if i >= 0x7fff_ffff_ffff_ffff || j >= 0x7fff_ffff_ffff_ffff {
                    return Err(CreationError);
                }
                filtered.push((i as usize, j as usize));
            }
            k += 1;
        }
        SymbolicSparseColMat::try_new_from_indices(nrows, ncols, &filtered)
    }
}

} // verus!
