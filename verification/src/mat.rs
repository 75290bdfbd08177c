//! Heap allocated column-major matrix.

use vstd::prelude::*;
use vstd::pervasive::VecAdditionalExecFns;
use crate::scalar::ComplexField;

verus! {

/// Heap allocated matrix, stored as a sequence of columns so that each column
/// is contiguous in memory.
pub struct Mat<E> {
    nrows: usize,
    cols: Vec<Vec<E>>,
    row_capacity: usize,
    col_capacity: usize,
}

impl<E> Mat<E> {
    /// Well-formedness: every stored column holds exactly one element per row.
    pub closed spec fn wf(&self) -> bool {
        forall|j: int|
            0 <= j < self.cols@.len() ==> (#[trigger] self.cols@[j])@.len() == self.nrows
    }

    /// The number of rows, at the specification level.
    pub closed spec fn spec_nrows(&self) -> nat {
        self.nrows as nat
    }

    /// The number of columns, at the specification level.
    pub closed spec fn spec_ncols(&self) -> nat {
        self.cols@.len()
    }

    /// The entry at row `i`, column `j`, at the specification level.
    pub closed spec fn at(&self, i: int, j: int) -> E {
        self.cols@[j]@[i]
    }

    /// Both dimensions agree with those of `other`.
    pub open spec fn same_shape<F>(&self, other: &Mat<F>) -> bool {
        self.spec_nrows() == other.spec_nrows() && self.spec_ncols() == other.spec_ncols()
    }

    /// Returns an empty matrix of dimension `0×0`.
    pub fn new() -> (r: Self)
        ensures
            r.wf(),
            r.spec_nrows() == 0,
            r.spec_ncols() == 0,
    {
        Mat { nrows: 0, cols: Vec::new(), row_capacity: 0, col_capacity: 0 }
    }

    /// Returns the number of rows of the matrix.
    pub fn nrows(&self) -> (r: usize)
        ensures
            r == self.spec_nrows(),
    {
        self.nrows
    }

    /// Returns the number of columns of the matrix.
    pub fn ncols(&self) -> (r: usize)
        ensures
            r == self.spec_ncols(),
    {
        self.cols.len()
    }

    /// Reads the value of the element at the given indices.
    pub fn read(&self, row: usize, col: usize) -> (r: E) where E: Copy
        requires
            self.wf(),
            row < self.spec_nrows(),
            col < self.spec_ncols(),
        ensures
            r == self.at(row as int, col as int),
    {
        self.cols[col][row]
    }

    /// Writes the value to the element at the given indices; every other entry
    /// is left as it was.
    pub fn write(&mut self, row: usize, col: usize, value: E)
        requires
            old(self).wf(),
            row < old(self).spec_nrows(),
            col < old(self).spec_ncols(),
        ensures
            final(self).wf(),
            final(self).same_shape(old(self)),
            final(self).at(row as int, col as int) == value,
            forall|i: int, j: int|
                0 <= i < old(self).spec_nrows() && 0 <= j < old(self).spec_ncols()
                    && !(i == row as int && j == col as int)
                    ==> final(self).at(i, j) == old(self).at(i, j),
    {
        self.cols[col].set(row, value);
    }

    /// Exchanges the values of two entries.
    pub fn swap_elems(&mut self, i0: usize, j0: usize, i1: usize, j1: usize) where E: Copy
        requires
            old(self).wf(),
            i0 < old(self).spec_nrows(),
            j0 < old(self).spec_ncols(),
            i1 < old(self).spec_nrows(),
            j1 < old(self).spec_ncols(),
        ensures
            final(self).wf(),
            final(self).same_shape(old(self)),
            final(self).at(i0 as int, j0 as int) == old(self).at(i1 as int, j1 as int),
            final(self).at(i1 as int, j1 as int) == (if i0 == i1 && j0 == j1 {
                old(self).at(i1 as int, j1 as int)
            } else {
                old(self).at(i0 as int, j0 as int)
            }),
            forall|i: int, j: int|
                0 <= i < old(self).spec_nrows() && 0 <= j < old(self).spec_ncols()
                    && !(i == i0 as int && j == j0 as int)
                    && !(i == i1 as int && j == j1 as int)
                    ==> final(self).at(i, j) == old(self).at(i, j),
    {
        let a = self.read(i0, j0);
        let b = self.read(i1, j1);
        self.write(i0, j0, b);
        self.write(i1, j1, a);
    }

    /// Copies `block` into the rectangular region of `self` whose top left
    /// corner is `(row_start, col_start)`; every entry outside the region is
    /// left as it was.
    pub fn write_block(&mut self, row_start: usize, col_start: usize, block: &Mat<E>) where
        E: Copy
        requires
            old(self).wf(),
            block.wf(),
            row_start + block.spec_nrows() <= old(self).spec_nrows(),
            col_start + block.spec_ncols() <= old(self).spec_ncols(),
        ensures
            final(self).wf(),
            final(self).same_shape(old(self)),
            forall|i: int, j: int|
                0 <= i < block.spec_nrows() && 0 <= j < block.spec_ncols()
                    ==> final(self).at(row_start + i, col_start + j) == block.at(i, j),
            forall|i: int, j: int|
                0 <= i < old(self).spec_nrows() && 0 <= j < old(self).spec_ncols()
                    && !(row_start <= i < row_start + block.spec_nrows()
                        && col_start <= j < col_start + block.spec_ncols())
                    ==> final(self).at(i, j) == old(self).at(i, j),
    {
        let m = self.nrows();
        let n = self.ncols();
        let bm = block.nrows();
        let bn = block.ncols();
        let mut j: usize = 0;
        while j < bn
            invariant
                self.wf(),
                block.wf(),
                self.spec_nrows() == m,
                self.spec_ncols() == n,
                block.spec_nrows() == bm,
                block.spec_ncols() == bn,
                row_start + bm <= m,
                col_start + bn <= n,
                j <= bn,
                forall|i2: int, j2: int|
                    0 <= i2 < bm && 0 <= j2 < j ==> self.at(row_start + i2, col_start + j2)
                        == block.at(i2, j2),
                forall|i2: int, j2: int|
                    0 <= i2 < m && 0 <= j2 < n && !(row_start <= i2 < row_start + bm && col_start
                        <= j2 < col_start + bn) ==> self.at(i2, j2) == old(self).at(i2, j2),
            decreases bn - j,
        {
            let mut i: usize = 0;
            while i < bm
                invariant
                    self.wf(),
                    block.wf(),
                    self.spec_nrows() == m,
                    self.spec_ncols() == n,
                    block.spec_nrows() == bm,
                    block.spec_ncols() == bn,
                    row_start + bm <= m,
                    col_start + bn <= n,
                    j < bn,
                    i <= bm,
                    forall|i2: int, j2: int|
                        0 <= i2 < bm && 0 <= j2 < j ==> self.at(row_start + i2, col_start + j2)
                            == block.at(i2, j2),
                    forall|i2: int|
                        0 <= i2 < i ==> self.at(row_start + i2, col_start + j) == block.at(
                            i2,
                            j as int,
                        ),
                    forall|i2: int, j2: int|
                        0 <= i2 < m && 0 <= j2 < n && !(row_start <= i2 < row_start + bm
                            && col_start <= j2 < col_start + bn) ==> self.at(i2, j2) == old(
                            self,
                        ).at(i2, j2),
                decreases bm - i,
            {
                let v = block.read(i, j);
                self.write(row_start + i, col_start + j, v);
                i += 1;
            }
            j += 1;
        }
    }

    /// Returns a reference to the element at the given indices.
    pub fn get(&self, row: usize, col: usize) -> (r: &E)
        requires
            self.wf(),
            row < self.spec_nrows(),
            col < self.spec_ncols(),
        ensures
            *r == self.at(row as int, col as int),
    {
        &self.cols[col][row]
    }

    /// Returns a mutable reference to the element at the given indices.
    pub fn get_mut(&mut self, row: usize, col: usize) -> (r: &mut E)
        requires
            old(self).wf(),
            row < old(self).spec_nrows(),
            col < old(self).spec_ncols(),
        ensures
            *r == old(self).at(row as int, col as int),
            final(self).wf(),
            final(self).same_shape(old(self)),
            final(self).at(row as int, col as int) == *final(r),
            forall|i: int, j: int|
                0 <= i < old(self).spec_nrows() && 0 <= j < old(self).spec_ncols()
                    && !(i == row as int && j == col as int)
                    ==> final(self).at(i, j) == old(self).at(i, j),
    {
        &mut self.cols[col][row]
    }

    /// Returns the offset between the first elements of two successive rows:
    /// always `1`, since the matrix is column major.
    pub fn row_stride(&self) -> (r: isize)
        ensures
            r == 1,
    {
        1
    }

    /// Returns the offset between the first elements of two successive
    /// columns: the number of rows, since each column is stored contiguously.
    pub fn col_stride(&self) -> (r: isize)
        ensures
            self.spec_nrows() <= isize::MAX ==> r == self.spec_nrows(),
    {
        #[verifier::truncate] (self.nrows as isize)
    }

    /// Returns the copy of a rectangular region: the submatrix starting at
    /// indices `(row_start, col_start)`, with dimensions `(nrows, ncols)`.
    pub fn submatrix(&self, row_start: usize, col_start: usize, nrows: usize, ncols: usize) -> (r:
        Mat<E>) where E: Copy
        requires
            self.wf(),
            row_start + nrows <= self.spec_nrows(),
            col_start + ncols <= self.spec_ncols(),
        ensures
            r.wf(),
            r.spec_nrows() == nrows,
            r.spec_ncols() == ncols,
            forall|i: int, j: int|
                0 <= i < nrows && 0 <= j < ncols ==> #[trigger] r.at(i, j) == self.at(
                    row_start + i,
                    col_start + j,
                ),
    {
        let m = self.nrows();
        let n = self.ncols();
        let mut cols: Vec<Vec<E>> = Vec::new();
        for j in 0..ncols
            invariant
                self.wf(),
                self.spec_nrows() == m,
                self.spec_ncols() == n,
                row_start + nrows <= m,
                col_start + ncols <= n,
                cols@.len() == j,
                forall|jj: int| 0 <= jj < j ==> (#[trigger] cols@[jj])@.len() == nrows,
                forall|jj: int, i: int|
                    0 <= jj < j && 0 <= i < nrows ==> (#[trigger] cols@[jj]@[i]) == self.at(
                        row_start + i,
                        col_start + jj,
                    ),
        {
            let mut col: Vec<E> = Vec::new();
            for i in 0..nrows
                invariant
                    self.wf(),
                    self.spec_nrows() == m,
                    self.spec_ncols() == n,
                    row_start + nrows <= m,
                    col_start + ncols <= n,
                    j < ncols,
                    col@.len() == i,
                    forall|ii: int|
                        0 <= ii < i ==> col@[ii] == self.at(row_start + ii, col_start + j),
            {
                col.push(self.read(row_start + i, col_start + j));
            }
            cols.push(col);
        }
        Mat { nrows, cols, row_capacity: nrows, col_capacity: ncols }
    }

    /// Returns a copy of the rows `row_start..row_start + nrows`.
    pub fn subrows(&self, row_start: usize, nrows: usize) -> (r: Mat<E>) where E: Copy
        requires
            self.wf(),
            row_start + nrows <= self.spec_nrows(),
        ensures
            r.wf(),
            r.spec_nrows() == nrows,
            r.spec_ncols() == self.spec_ncols(),
            forall|i: int, j: int|
                0 <= i < nrows && 0 <= j < self.spec_ncols() ==> #[trigger] r.at(i, j) == self.at(
                    row_start + i,
                    j,
                ),
    {
        self.submatrix(row_start, 0, nrows, self.ncols())
    }

    /// Returns a copy of the columns `col_start..col_start + ncols`.
    pub fn subcols(&self, col_start: usize, ncols: usize) -> (r: Mat<E>) where E: Copy
        requires
            self.wf(),
            col_start + ncols <= self.spec_ncols(),
        ensures
            r.wf(),
            r.spec_nrows() == self.spec_nrows(),
            r.spec_ncols() == ncols,
            forall|i: int, j: int|
                0 <= i < self.spec_nrows() && 0 <= j < ncols ==> #[trigger] r.at(i, j) == self.at(
                    i,
                    col_start + j,
                ),
    {
        self.submatrix(0, col_start, self.nrows(), ncols)
    }

    /// Splits the matrix at the given indices into copies of its four corners:
    /// top left, top right, bottom left, bottom right.
    pub fn split_at(&self, row: usize, col: usize) -> (r: (Mat<E>, Mat<E>, Mat<E>, Mat<E>)) where
        E: Copy
        requires
            self.wf(),
            row <= self.spec_nrows(),
            col <= self.spec_ncols(),
        ensures
            r.0.wf() && r.1.wf() && r.2.wf() && r.3.wf(),
            r.0.spec_nrows() == row && r.0.spec_ncols() == col,
            r.1.spec_nrows() == row && r.1.spec_ncols() == self.spec_ncols() - col,
            r.2.spec_nrows() == self.spec_nrows() - row && r.2.spec_ncols() == col,
            r.3.spec_nrows() == self.spec_nrows() - row && r.3.spec_ncols() == self.spec_ncols()
                - col,
            forall|i: int, j: int|
                0 <= i < row && 0 <= j < col ==> #[trigger] r.0.at(i, j) == self.at(i, j),
            forall|i: int, j: int|
                0 <= i < row && 0 <= j < self.spec_ncols() - col ==> #[trigger] r.1.at(i, j)
                    == self.at(i, col + j),
            forall|i: int, j: int|
                0 <= i < self.spec_nrows() - row && 0 <= j < col ==> #[trigger] r.2.at(i, j)
                    == self.at(row + i, j),
            forall|i: int, j: int|
                0 <= i < self.spec_nrows() - row && 0 <= j < self.spec_ncols() - col
                    ==> #[trigger] r.3.at(i, j) == self.at(row + i, col + j),
    {
        let m = self.nrows();
        let n = self.ncols();
        (
            self.submatrix(0, 0, row, col),
            self.submatrix(0, col, row, n - col),
            self.submatrix(row, 0, m - row, col),
            self.submatrix(row, col, m - row, n - col),
        )
    }

    /// Splits the matrix at the given row into copies of its top and bottom
    /// parts.
    pub fn split_at_row(&self, row: usize) -> (r: (Mat<E>, Mat<E>)) where E: Copy
        requires
            self.wf(),
            row <= self.spec_nrows(),
        ensures
            r.0.wf() && r.1.wf(),
            r.0.spec_nrows() == row && r.0.spec_ncols() == self.spec_ncols(),
            r.1.spec_nrows() == self.spec_nrows() - row && r.1.spec_ncols() == self.spec_ncols(),
            forall|i: int, j: int|
                0 <= i < row && 0 <= j < self.spec_ncols() ==> #[trigger] r.0.at(i, j) == self.at(
                    i,
                    j,
                ),
            forall|i: int, j: int|
                0 <= i < self.spec_nrows() - row && 0 <= j < self.spec_ncols()
                    ==> #[trigger] r.1.at(i, j) == self.at(row + i, j),
    {
        let m = self.nrows();
        (self.subrows(0, row), self.subrows(row, m - row))
    }

    /// Splits the matrix at the given column into copies of its left and right
    /// parts.
    pub fn split_at_col(&self, col: usize) -> (r: (Mat<E>, Mat<E>)) where E: Copy
        requires
            self.wf(),
            col <= self.spec_ncols(),
        ensures
            r.0.wf() && r.1.wf(),
            r.0.spec_nrows() == self.spec_nrows() && r.0.spec_ncols() == col,
            r.1.spec_nrows() == self.spec_nrows() && r.1.spec_ncols() == self.spec_ncols() - col,
            forall|i: int, j: int|
                0 <= i < self.spec_nrows() && 0 <= j < col ==> #[trigger] r.0.at(i, j) == self.at(
                    i,
                    j,
                ),
            forall|i: int, j: int|
                0 <= i < self.spec_nrows() && 0 <= j < self.spec_ncols() - col
                    ==> #[trigger] r.1.at(i, j) == self.at(i, col + j),
    {
        let n = self.ncols();
        (self.subcols(0, col), self.subcols(col, n - col))
    }

    /// Returns a copy of the transposed matrix.
    pub fn transpose(&self) -> (r: Mat<E>) where E: Copy
        requires
            self.wf(),
        ensures
            r.wf(),
            r.spec_nrows() == self.spec_ncols(),
            r.spec_ncols() == self.spec_nrows(),
            forall|i: int, j: int|
                0 <= i < self.spec_ncols() && 0 <= j < self.spec_nrows() ==> #[trigger] r.at(i, j)
                    == self.at(j, i),
    {
        let m = self.nrows();
        let n = self.ncols();
        let mut cols: Vec<Vec<E>> = Vec::new();
        for j in 0..m
            invariant
                self.wf(),
                self.spec_nrows() == m,
                self.spec_ncols() == n,
                cols@.len() == j,
                forall|jj: int| 0 <= jj < j ==> (#[trigger] cols@[jj])@.len() == n,
                forall|jj: int, i: int|
                    0 <= jj < j && 0 <= i < n ==> (#[trigger] cols@[jj]@[i]) == self.at(jj, i),
        {
            let mut col: Vec<E> = Vec::new();
            for i in 0..n
                invariant
                    self.wf(),
                    self.spec_nrows() == m,
                    self.spec_ncols() == n,
                    j < m,
                    col@.len() == i,
                    forall|ii: int| 0 <= ii < i ==> col@[ii] == self.at(j as int, ii),
            {
                col.push(self.read(j, i));
            }
            cols.push(col);
        }
        Mat { nrows: n, cols, row_capacity: n, col_capacity: m }
    }

    /// Returns a copy of the matrix with the order of the rows reversed.
    pub fn reverse_rows(&self) -> (r: Mat<E>) where E: Copy
        requires
            self.wf(),
        ensures
            r.wf(),
            r.same_shape(self),
            forall|i: int, j: int|
                0 <= i < self.spec_nrows() && 0 <= j < self.spec_ncols() ==> #[trigger] r.at(i, j)
                    == self.at(self.spec_nrows() - 1 - i, j),
    {
        let m = self.nrows();
        let n = self.ncols();
        let mut r = self.to_owned();
        let mut j: usize = 0;
        while j < n
            invariant
                self.wf(),
                r.wf(),
                self.spec_nrows() == m,
                self.spec_ncols() == n,
                r.spec_nrows() == m,
                r.spec_ncols() == n,
                j <= n,
                forall|i2: int, j2: int|
                    0 <= i2 < m && 0 <= j2 < j ==> #[trigger] r.at(i2, j2) == self.at(
                        m - 1 - i2,
                        j2,
                    ),
            decreases n - j,
        {
            let mut i: usize = 0;
            while i < m
                invariant
                    self.wf(),
                    r.wf(),
                    self.spec_nrows() == m,
                    self.spec_ncols() == n,
                    r.spec_nrows() == m,
                    r.spec_ncols() == n,
                    j < n,
                    i <= m,
                    forall|i2: int, j2: int|
                        0 <= i2 < m && 0 <= j2 < j ==> #[trigger] r.at(i2, j2) == self.at(
                            m - 1 - i2,
                            j2,
                        ),
                    forall|i2: int|
                        0 <= i2 < i ==> #[trigger] r.at(i2, j as int) == self.at(m - 1 - i2, j as int),
                decreases m - i,
            {
                let v = self.read(m - 1 - i, j);
                r.write(i, j, v);
                i += 1;
            }
            j += 1;
        }
        r
    }

    /// Returns a copy of the matrix with the order of the columns reversed.
    pub fn reverse_cols(&self) -> (r: Mat<E>) where E: Copy
        requires
            self.wf(),
        ensures
            r.wf(),
            r.same_shape(self),
            forall|i: int, j: int|
                0 <= i < self.spec_nrows() && 0 <= j < self.spec_ncols() ==> #[trigger] r.at(i, j)
                    == self.at(i, self.spec_ncols() - 1 - j),
    {
        let m = self.nrows();
        let n = self.ncols();
        let mut r = self.to_owned();
        let mut j: usize = 0;
        while j < n
            invariant
                self.wf(),
                r.wf(),
                self.spec_nrows() == m,
                self.spec_ncols() == n,
                r.spec_nrows() == m,
                r.spec_ncols() == n,
                j <= n,
                forall|i2: int, j2: int|
                    0 <= i2 < m && 0 <= j2 < j ==> #[trigger] r.at(i2, j2) == self.at(
                        i2,
                        n - 1 - j2,
                    ),
            decreases n - j,
        {
            let mut i: usize = 0;
            while i < m
                invariant
                    self.wf(),
                    r.wf(),
                    self.spec_nrows() == m,
                    self.spec_ncols() == n,
                    r.spec_nrows() == m,
                    r.spec_ncols() == n,
                    j < n,
                    i <= m,
                    forall|i2: int, j2: int|
                        0 <= i2 < m && 0 <= j2 < j ==> #[trigger] r.at(i2, j2) == self.at(
                            i2,
                            n - 1 - j2,
                        ),
                    forall|i2: int|
                        0 <= i2 < i ==> #[trigger] r.at(i2, j as int) == self.at(i2, n - 1 - j),
                decreases m - i,
            {
                let v = self.read(i, n - 1 - j);
                r.write(i, j, v);
                i += 1;
            }
            j += 1;
        }
        r
    }

    /// Returns a copy of the matrix with the order of the rows and of the
    /// columns reversed.
    pub fn reverse_rows_and_cols(&self) -> (r: Mat<E>) where E: Copy
        requires
            self.wf(),
        ensures
            r.wf(),
            r.same_shape(self),
            forall|i: int, j: int|
                0 <= i < self.spec_nrows() && 0 <= j < self.spec_ncols() ==> #[trigger] r.at(i, j)
                    == self.at(self.spec_nrows() - 1 - i, self.spec_ncols() - 1 - j),
    {
        let rr = self.reverse_rows();
        rr.reverse_cols()
    }

    /// Returns a copy of the matrix.
    pub fn to_owned(&self) -> (r: Mat<E>) where E: Copy
        requires
            self.wf(),
        ensures
            r.wf(),
            r.same_shape(self),
            forall|i: int, j: int|
                0 <= i < self.spec_nrows() && 0 <= j < self.spec_ncols() ==> #[trigger] r.at(i, j)
                    == self.at(i, j),
    {
        self.submatrix(0, 0, self.nrows(), self.ncols())
    }

    /// Returns a copy of the given row, as a vector of its entries.
    pub fn row(&self, row_idx: usize) -> (r: Vec<E>) where E: Copy
        requires
            self.wf(),
            row_idx < self.spec_nrows(),
        ensures
            r@.len() == self.spec_ncols(),
            forall|j: int| 0 <= j < self.spec_ncols() ==> r@[j] == self.at(row_idx as int, j),
    {
        let n = self.ncols();
        let mut r: Vec<E> = Vec::new();
        for j in 0..n
            invariant
                self.wf(),
                row_idx < self.spec_nrows(),
                self.spec_ncols() == n,
                r@.len() == j,
                forall|jj: int| 0 <= jj < j ==> r@[jj] == self.at(row_idx as int, jj),
        {
            r.push(self.read(row_idx, j));
        }
        r
    }

    /// Returns a copy of the given column, as a vector of its entries.
    pub fn col(&self, col_idx: usize) -> (r: Vec<E>) where E: Copy
        requires
            self.wf(),
            col_idx < self.spec_ncols(),
        ensures
            r@.len() == self.spec_nrows(),
            forall|i: int| 0 <= i < self.spec_nrows() ==> r@[i] == self.at(i, col_idx as int),
    {
        let m = self.nrows();
        let mut r: Vec<E> = Vec::new();
        for i in 0..m
            invariant
                self.wf(),
                col_idx < self.spec_ncols(),
                self.spec_nrows() == m,
                r@.len() == i,
                forall|ii: int| 0 <= ii < i ==> r@[ii] == self.at(ii, col_idx as int),
        {
            r.push(self.read(i, col_idx));
        }
        r
    }

    /// Returns a copy of the main diagonal, as a vector of its entries.
    pub fn diagonal(&self) -> (r: Vec<E>) where E: Copy
        requires
            self.wf(),
        ensures
            r@.len() == vstd::math::min(self.spec_nrows() as int, self.spec_ncols() as int),
            forall|i: int| 0 <= i < r@.len() ==> r@[i] == self.at(i, i),
    {
        let m = self.nrows();
        let n = self.ncols();
        let k = if m < n {
            m
        } else {
            n
        };
        let mut r: Vec<E> = Vec::new();
        for i in 0..k
            invariant
                self.wf(),
                self.spec_nrows() == m,
                self.spec_ncols() == n,
                k <= m,
                k <= n,
                r@.len() == i,
                forall|ii: int| 0 <= ii < i ==> r@[ii] == self.at(ii, ii),
        {
            r.push(self.read(i, i));
        }
        r
    }
}

impl<E: ComplexField> Mat<E> {
    /// Returns a new matrix with dimensions `(nrows, ncols)`, filled with a
    /// constant value.
    pub fn full(nrows: usize, ncols: usize, constant: E) -> (r: Self)
        ensures
            r.wf(),
            r.spec_nrows() == nrows,
            r.spec_ncols() == ncols,
            forall|i: int, j: int|
                0 <= i < nrows && 0 <= j < ncols ==> r.at(i, j) == constant,
    {
        let mut cols: Vec<Vec<E>> = Vec::new();
        for j in 0..ncols
            invariant
                cols@.len() == j,
                forall|jj: int| 0 <= jj < j ==> (#[trigger] cols@[jj])@.len() == nrows,
                forall|jj: int, i: int|
                    0 <= jj < j && 0 <= i < nrows ==> (#[trigger] cols@[jj]@[i]) == constant,
        {
            let mut col: Vec<E> = Vec::new();
            for i in 0..nrows
                invariant
                    col@.len() == i,
                    forall|ii: int| 0 <= ii < i ==> col@[ii] == constant,
            {
                col.push(constant);
            }
            cols.push(col);
        }
        Mat { nrows, cols, row_capacity: nrows, col_capacity: ncols }
    }

    /// Returns a new matrix with dimensions `(nrows, ncols)`, filled with
    /// zeros.
    pub fn zeros(nrows: usize, ncols: usize) -> (r: Self)
        ensures
            r.wf(),
            r.spec_nrows() == nrows,
            r.spec_ncols() == ncols,
            forall|i: int, j: int|
                0 <= i < nrows && 0 <= j < ncols ==> #[trigger] r.at(i, j) == r.at(0, 0),
    {
        Self::full(nrows, ncols, E::faer_zero())
    }

    /// Returns a new matrix with dimensions `(nrows, ncols)`, filled with
    /// ones.
    pub fn ones(nrows: usize, ncols: usize) -> (r: Self)
        ensures
            r.wf(),
            r.spec_nrows() == nrows,
            r.spec_ncols() == ncols,
    {
        Self::full(nrows, ncols, E::faer_one())
    }

    /// Returns a new matrix with dimensions `(nrows, ncols)`, filled with
    /// zeros, except the main diagonal which is filled with ones.
    pub fn identity(nrows: usize, ncols: usize) -> (r: Self)
        ensures
            r.wf(),
            r.spec_nrows() == nrows,
            r.spec_ncols() == ncols,
    {
        let mut r = Self::zeros(nrows, ncols);
        let k = if nrows < ncols {
            nrows
        } else {
            ncols
        };
        for d in 0..k
            invariant
                r.wf(),
                r.spec_nrows() == nrows,
                r.spec_ncols() == ncols,
                k <= nrows,
                k <= ncols,
        {
            r.write(d, d, E::faer_one());
        }
        r
    }

    /// Copies the lower triangular half of `other` (diagonal included) into
    /// the lower triangular half of `self`; the strictly upper part is left as
    /// it was.
    pub fn copy_from_triangular_lower(&mut self, other: &Mat<E>)
        requires
            old(self).wf(),
            other.wf(),
            old(self).same_shape(other),
        ensures
            final(self).wf(),
            final(self).same_shape(other),
            forall|i: int, j: int|
                0 <= j <= i < other.spec_nrows() && j < other.spec_ncols()
                    ==> final(self).at(i, j) == other.at(i, j),
            forall|i: int, j: int|
                0 <= i < other.spec_nrows() && 0 <= j < other.spec_ncols() && i < j
                    ==> final(self).at(i, j) == old(self).at(i, j),
    {
        let m = self.nrows();
        let n = self.ncols();
        let mut j: usize = 0;
        while j < n
            invariant
                self.wf(),
                other.wf(),
                self.spec_nrows() == m,
                self.spec_ncols() == n,
                other.spec_nrows() == m,
                other.spec_ncols() == n,
                j <= n,
                forall|i2: int, j2: int|
                    0 <= j2 <= i2 < m && j2 < j ==> self.at(i2, j2) == other.at(i2, j2),
                forall|i2: int, j2: int|
                    0 <= i2 < m && 0 <= j2 < n && i2 < j2 ==> self.at(i2, j2) == old(self).at(
                        i2,
                        j2,
                    ),
            decreases n - j,
        {
            let mut i: usize = j;
            while i < m
                invariant
                    self.wf(),
                    other.wf(),
                    self.spec_nrows() == m,
                    self.spec_ncols() == n,
                    other.spec_nrows() == m,
                    other.spec_ncols() == n,
                    j < n,
                    j <= i,
                    i <= m || i == j,
                    forall|i2: int, j2: int|
                        0 <= j2 <= i2 < m && j2 < j ==> self.at(i2, j2) == other.at(i2, j2),
                    forall|i2: int| j <= i2 < i ==> self.at(i2, j as int) == other.at(i2, j as int),
                    forall|i2: int, j2: int|
                        0 <= i2 < m && 0 <= j2 < n && i2 < j2 ==> self.at(i2, j2) == old(self).at(
                            i2,
                            j2,
                        ),
                decreases m - i,
            {
                let v = other.read(i, j);
                self.write(i, j, v);
                i += 1;
            }
            j += 1;
        }
    }

    /// Copies the strictly lower triangular half of `other` into the strictly
    /// lower triangular half of `self`; the diagonal and the upper part are
    /// left as they were.
    pub fn copy_from_strict_triangular_lower(&mut self, other: &Mat<E>)
        requires
            old(self).wf(),
            other.wf(),
            old(self).same_shape(other),
        ensures
            final(self).wf(),
            final(self).same_shape(other),
            forall|i: int, j: int|
                0 <= j < i < other.spec_nrows() && j < other.spec_ncols()
                    ==> final(self).at(i, j) == other.at(i, j),
            forall|i: int, j: int|
                0 <= i < other.spec_nrows() && 0 <= j < other.spec_ncols() && i <= j
                    ==> final(self).at(i, j) == old(self).at(i, j),
    {
        let m = self.nrows();
        let n = self.ncols();
        let mut j: usize = 0;
        while j < n
            invariant
                self.wf(),
                other.wf(),
                self.spec_nrows() == m,
                self.spec_ncols() == n,
                other.spec_nrows() == m,
                other.spec_ncols() == n,
                j <= n,
                forall|i2: int, j2: int|
                    0 <= j2 < i2 < m && j2 < j ==> self.at(i2, j2) == other.at(i2, j2),
                forall|i2: int, j2: int|
                    0 <= i2 < m && 0 <= j2 < n && i2 <= j2 ==> self.at(i2, j2) == old(self).at(
                        i2,
                        j2,
                    ),
            decreases n - j,
        {
            let mut i: usize = j + 1;
            while i < m
                invariant
                    self.wf(),
                    other.wf(),
                    self.spec_nrows() == m,
                    self.spec_ncols() == n,
                    other.spec_nrows() == m,
                    other.spec_ncols() == n,
                    j < n,
                    j + 1 <= i <= m || (j + 1 > m && i == j + 1),
                    forall|i2: int, j2: int|
                        0 <= j2 < i2 < m && j2 < j ==> self.at(i2, j2) == other.at(i2, j2),
                    forall|i2: int| j < i2 < i ==> self.at(i2, j as int) == other.at(i2, j as int),
                    forall|i2: int, j2: int|
                        0 <= i2 < m && 0 <= j2 < n && i2 <= j2 ==> self.at(i2, j2) == old(self).at(
                            i2,
                            j2,
                        ),
                decreases m - i,
            {
                let v = other.read(i, j);
                self.write(i, j, v);
                i += 1;
            }
            j += 1;
        }
    }

    /// Copies the upper triangular half of `other` (diagonal included) into
    /// the upper triangular half of `self`; the strictly lower part is left as
    /// it was.
    pub fn copy_from_triangular_upper(&mut self, other: &Mat<E>)
        requires
            old(self).wf(),
            other.wf(),
            old(self).same_shape(other),
        ensures
            final(self).wf(),
            final(self).same_shape(other),
            forall|i: int, j: int|
                0 <= i <= j < other.spec_ncols() && i < other.spec_nrows()
                    ==> final(self).at(i, j) == other.at(i, j),
            forall|i: int, j: int|
                0 <= i < other.spec_nrows() && 0 <= j < other.spec_ncols() && j < i
                    ==> final(self).at(i, j) == old(self).at(i, j),
    {
        let m = self.nrows();
        let n = self.ncols();
        let mut j: usize = 0;
        while j < n
            invariant
                self.wf(),
                other.wf(),
                self.spec_nrows() == m,
                self.spec_ncols() == n,
                other.spec_nrows() == m,
                other.spec_ncols() == n,
                j <= n,
                forall|i2: int, j2: int|
                    0 <= i2 <= j2 && i2 < m && j2 < j ==> self.at(i2, j2) == other.at(i2, j2),
                forall|i2: int, j2: int|
                    0 <= i2 < m && 0 <= j2 < n && j2 < i2 ==> self.at(i2, j2) == old(self).at(
                        i2,
                        j2,
                    ),
            decreases n - j,
        {
            let top = if j + 1 < m {
                j + 1
            } else {
                m
            };
            let mut i: usize = 0;
            while i < top
                invariant
                    self.wf(),
                    other.wf(),
                    self.spec_nrows() == m,
                    self.spec_ncols() == n,
                    other.spec_nrows() == m,
                    other.spec_ncols() == n,
                    j < n,
                    i <= top,
                    top <= m,
                    top <= j + 1,
                    forall|i2: int, j2: int|
                        0 <= i2 <= j2 && i2 < m && j2 < j ==> self.at(i2, j2) == other.at(i2, j2),
                    forall|i2: int| 0 <= i2 < i ==> self.at(i2, j as int) == other.at(i2, j as int),
                    forall|i2: int, j2: int|
                        0 <= i2 < m && 0 <= j2 < n && j2 < i2 ==> self.at(i2, j2) == old(self).at(
                            i2,
                            j2,
                        ),
                decreases top - i,
            {
                let v = other.read(i, j);
                self.write(i, j, v);
                i += 1;
            }
            j += 1;
        }
    }

    /// Copies the strictly upper triangular half of `other` into the strictly
    /// upper triangular half of `self`; the diagonal and the lower part are
    /// left as they were.
    pub fn copy_from_strict_triangular_upper(&mut self, other: &Mat<E>)
        requires
            old(self).wf(),
            other.wf(),
            old(self).same_shape(other),
        ensures
            final(self).wf(),
            final(self).same_shape(other),
            forall|i: int, j: int|
                0 <= i < j < other.spec_ncols() && i < other.spec_nrows()
                    ==> final(self).at(i, j) == other.at(i, j),
            forall|i: int, j: int|
                0 <= i < other.spec_nrows() && 0 <= j < other.spec_ncols() && j <= i
                    ==> final(self).at(i, j) == old(self).at(i, j),
    {
        let m = self.nrows();
        let n = self.ncols();
        let mut j: usize = 0;
        while j < n
            invariant
                self.wf(),
                other.wf(),
                self.spec_nrows() == m,
                self.spec_ncols() == n,
                other.spec_nrows() == m,
                other.spec_ncols() == n,
                j <= n,
                forall|i2: int, j2: int|
                    0 <= i2 < j2 && i2 < m && j2 < j ==> self.at(i2, j2) == other.at(i2, j2),
                forall|i2: int, j2: int|
                    0 <= i2 < m && 0 <= j2 < n && j2 <= i2 ==> self.at(i2, j2) == old(self).at(
                        i2,
                        j2,
                    ),
            decreases n - j,
        {
            let top = if j < m {
                j
            } else {
                m
            };
            let mut i: usize = 0;
            while i < top
                invariant
                    self.wf(),
                    other.wf(),
                    self.spec_nrows() == m,
                    self.spec_ncols() == n,
                    other.spec_nrows() == m,
                    other.spec_ncols() == n,
                    j < n,
                    i <= top,
                    top <= m,
                    top <= j,
                    forall|i2: int, j2: int|
                        0 <= i2 < j2 && i2 < m && j2 < j ==> self.at(i2, j2) == other.at(i2, j2),
                    forall|i2: int| 0 <= i2 < i ==> self.at(i2, j as int) == other.at(i2, j as int),
                    forall|i2: int, j2: int|
                        0 <= i2 < m && 0 <= j2 < n && j2 <= i2 ==> self.at(i2, j2) == old(self).at(
                            i2,
                            j2,
                        ),
                decreases top - i,
            {
                let v = other.read(i, j);
                self.write(i, j, v);
                i += 1;
            }
            j += 1;
        }
    }

    /// Returns a copy of the matrix with every entry conjugated.
    pub fn conjugate(&self) -> (r: Mat<E>)
        requires
            self.wf(),
        ensures
            r.wf(),
            r.same_shape(self),
    {
        let m = self.nrows();
        let n = self.ncols();
        let mut r = self.to_owned();
        let mut j: usize = 0;
        while j < n
            invariant
                self.wf(),
                r.wf(),
                self.spec_nrows() == m,
                self.spec_ncols() == n,
                r.spec_nrows() == m,
                r.spec_ncols() == n,
                j <= n,
            decreases n - j,
        {
            let mut i: usize = 0;
            while i < m
                invariant
                    self.wf(),
                    r.wf(),
                    self.spec_nrows() == m,
                    self.spec_ncols() == n,
                    r.spec_nrows() == m,
                    r.spec_ncols() == n,
                    j < n,
                    i <= m,
                decreases m - i,
            {
                let v = self.read(i, j).faer_conj();
                r.write(i, j, v);
                i += 1;
            }
            j += 1;
        }
        r
    }

    /// Returns a copy of the conjugate transpose of the matrix.
    pub fn adjoint(&self) -> (r: Mat<E>)
        requires
            self.wf(),
        ensures
            r.wf(),
            r.spec_nrows() == self.spec_ncols(),
            r.spec_ncols() == self.spec_nrows(),
    {
        let t = self.transpose();
        t.conjugate()
    }

    /// Returns a copy of the matrix together with the conjugation state of its
    /// entries, which is [`Conj::No`] since values are stored canonically.
    pub fn canonicalize(&self) -> (r: (Mat<E>, crate::Conj))
        requires
            self.wf(),
        ensures
            r.0.wf(),
            r.0.same_shape(self),
            forall|i: int, j: int|
                0 <= i < self.spec_nrows() && 0 <= j < self.spec_ncols() ==> #[trigger] r.0.at(
                    i,
                    j,
                ) == self.at(i, j),
            r.1 == crate::Conj::No,
    {
        (self.to_owned(), crate::Conj::No)
    }

    /// Whether any entry of the matrix is a not-a-number value.
    pub fn has_nan(&self) -> bool
        requires
            self.wf(),
    {
        let m = self.nrows();
        let n = self.ncols();
        let mut found = false;
        let mut j: usize = 0;
        while j < n
            invariant
                self.wf(),
                self.spec_nrows() == m,
                self.spec_ncols() == n,
                j <= n,
            decreases n - j,
        {
            let mut i: usize = 0;
            while i < m
                invariant
                    self.wf(),
                    self.spec_nrows() == m,
                    self.spec_ncols() == n,
                    j < n,
                    i <= m,
                decreases m - i,
            {
                if self.read(i, j).faer_is_nan() {
                    found = true;
                }
                i += 1;
            }
            j += 1;
        }
        found
    }

    /// Whether every entry of the matrix is finite.
    pub fn is_all_finite(&self) -> bool
        requires
            self.wf(),
    {
        let m = self.nrows();
        let n = self.ncols();
        let mut all = true;
        let mut j: usize = 0;
        while j < n
            invariant
                self.wf(),
                self.spec_nrows() == m,
                self.spec_ncols() == n,
                j <= n,
            decreases n - j,
        {
            let mut i: usize = 0;
            while i < m
                invariant
                    self.wf(),
                    self.spec_nrows() == m,
                    self.spec_ncols() == n,
                    j < n,
                    i <= m,
                decreases m - i,
            {
                if !self.read(i, j).faer_is_finite() {
                    all = false;
                }
                i += 1;
            }
            j += 1;
        }
        all
    }

    /// The largest modulus over all entries, as a real-valued scalar; zero for
    /// an empty matrix.
    pub fn norm_max(&self) -> E
        requires
            self.wf(),
    {
        let m = self.nrows();
        let n = self.ncols();
        let mut acc = E::faer_zero();
        let mut j: usize = 0;
        while j < n
            invariant
                self.wf(),
                self.spec_nrows() == m,
                self.spec_ncols() == n,
                j <= n,
            decreases n - j,
        {
            let mut i: usize = 0;
            while i < m
                invariant
                    self.wf(),
                    self.spec_nrows() == m,
                    self.spec_ncols() == n,
                    j < n,
                    i <= m,
                decreases m - i,
            {
                let a = self.read(i, j).faer_abs();
                if a.faer_gt(acc) {
                    acc = a;
                }
                i += 1;
            }
            j += 1;
        }
        acc
    }

    /// The sum of the moduli of all entries, as a real-valued scalar.
    pub fn norm_l1(&self) -> E
        requires
            self.wf(),
    {
        let m = self.nrows();
        let n = self.ncols();
        let mut acc = E::faer_zero();
        let mut j: usize = 0;
        while j < n
            invariant
                self.wf(),
                self.spec_nrows() == m,
                self.spec_ncols() == n,
                j <= n,
            decreases n - j,
        {
            let mut i: usize = 0;
            while i < m
                invariant
                    self.wf(),
                    self.spec_nrows() == m,
                    self.spec_ncols() == n,
                    j < n,
                    i <= m,
                decreases m - i,
            {
                acc = acc.faer_add(self.read(i, j).faer_abs());
                i += 1;
            }
            j += 1;
        }
        acc
    }

    /// The sum of the squared moduli of all entries, as a real-valued scalar.
    pub fn squared_norm_l2(&self) -> E
        requires
            self.wf(),
    {
        let m = self.nrows();
        let n = self.ncols();
        let mut acc = E::faer_zero();
        let mut j: usize = 0;
        while j < n
            invariant
                self.wf(),
                self.spec_nrows() == m,
                self.spec_ncols() == n,
                j <= n,
            decreases n - j,
        {
            let mut i: usize = 0;
            while i < m
                invariant
                    self.wf(),
                    self.spec_nrows() == m,
                    self.spec_ncols() == n,
                    j < n,
                    i <= m,
                decreases m - i,
            {
                acc = acc.faer_add(self.read(i, j).faer_abs2());
                i += 1;
            }
            j += 1;
        }
        acc
    }

    /// The square root of the sum of the squared moduli of all entries, as a
    /// real-valued scalar.
    pub fn norm_l2(&self) -> E
        requires
            self.wf(),
    {
        self.squared_norm_l2().faer_sqrt()
    }

    /// The sum of all entries.
    pub fn sum(&self) -> E
        requires
            self.wf(),
    {
        let m = self.nrows();
        let n = self.ncols();
        let mut acc = E::faer_zero();
        let mut j: usize = 0;
        while j < n
            invariant
                self.wf(),
                self.spec_nrows() == m,
                self.spec_ncols() == n,
                j <= n,
            decreases n - j,
        {
            let mut i: usize = 0;
            while i < m
                invariant
                    self.wf(),
                    self.spec_nrows() == m,
                    self.spec_ncols() == n,
                    j < n,
                    i <= m,
                decreases m - i,
            {
                acc = acc.faer_add(self.read(i, j));
                i += 1;
            }
            j += 1;
        }
        acc
    }

    /// Returns a matrix with dimensions `(0, 0)`, with storage reserved for
    /// the given capacities.
    pub fn with_capacity(row_capacity: usize, col_capacity: usize) -> (r: Self)
        ensures
            r.wf(),
            r.spec_nrows() == 0,
            r.spec_ncols() == 0,
            r.spec_row_capacity() == row_capacity,
            r.spec_col_capacity() == col_capacity,
    {
        Mat { nrows: 0, cols: Vec::new(), row_capacity, col_capacity }
    }

    /// Returns a new matrix with dimensions `(nrows, ncols)`, filled with the
    /// provided function.
    pub fn from_fn<F: Fn(usize, usize) -> E>(nrows: usize, ncols: usize, f: F) -> (r: Self)
        requires
            forall|i: usize, j: usize| i < nrows && j < ncols ==> f.requires((i, j)),
        ensures
            r.wf(),
            r.spec_nrows() == nrows,
            r.spec_ncols() == ncols,
    {
        let mut r = Mat::zeros(nrows, ncols);
        let mut j: usize = 0;
        while j < ncols
            invariant
                r.wf(),
                r.spec_nrows() == nrows,
                r.spec_ncols() == ncols,
                forall|i2: usize, j2: usize| i2 < nrows && j2 < ncols ==> f.requires((i2, j2)),
                j <= ncols,
            decreases ncols - j,
        {
            let mut i: usize = 0;
            while i < nrows
                invariant
                    r.wf(),
                    r.spec_nrows() == nrows,
                    r.spec_ncols() == ncols,
                    forall|i2: usize, j2: usize|
                        i2 < nrows && j2 < ncols ==> f.requires((i2, j2)),
                    j < ncols,
                    i <= nrows,
                decreases nrows - i,
            {
                let v = f(i, j);
                r.write(i, j, v);
                i += 1;
            }
            j += 1;
        }
        r
    }

    /// The reserved row capacity, at the specification level.
    pub closed spec fn spec_row_capacity(&self) -> nat {
        self.row_capacity as nat
    }

    /// The reserved column capacity, at the specification level.
    pub closed spec fn spec_col_capacity(&self) -> nat {
        self.col_capacity as nat
    }

    /// The number of rows the matrix can hold without reallocating.
    pub fn row_capacity(&self) -> (r: usize)
        ensures
            r == self.spec_row_capacity() || r == self.spec_nrows(),
    {
        if self.row_capacity >= self.nrows {
            self.row_capacity
        } else {
            self.nrows
        }
    }

    /// The number of columns the matrix can hold without reallocating.
    pub fn col_capacity(&self) -> (r: usize)
        ensures
            r == self.spec_col_capacity() || r == self.spec_ncols(),
    {
        if self.col_capacity >= self.cols.len() {
            self.col_capacity
        } else {
            self.cols.len()
        }
    }

    /// Reserves storage for at least the given capacities.
    pub fn reserve_exact(&mut self, row_capacity: usize, col_capacity: usize)
        requires
            old(self).wf(),
        ensures
            final(self).wf(),
            final(self).same_shape(old(self)),
            final(self).spec_row_capacity() >= row_capacity,
            final(self).spec_col_capacity() >= col_capacity,
            forall|i: int, j: int|
                0 <= i < old(self).spec_nrows() && 0 <= j < old(self).spec_ncols()
                    ==> final(self).at(i, j) == old(self).at(i, j),
    {
        if row_capacity > self.row_capacity {
            self.row_capacity = row_capacity;
        }
        if col_capacity > self.col_capacity {
            self.col_capacity = col_capacity;
            self.cols.reserve(col_capacity);
        }
    }

    /// Shrinks the matrix to the given dimensions, which must not exceed the
    /// current ones.
    pub fn truncate(&mut self, new_nrows: usize, new_ncols: usize)
        requires
            old(self).wf(),
            new_nrows <= old(self).spec_nrows(),
            new_ncols <= old(self).spec_ncols(),
        ensures
            final(self).wf(),
            final(self).spec_nrows() == new_nrows,
            final(self).spec_ncols() == new_ncols,
            forall|i: int, j: int|
                0 <= i < new_nrows && 0 <= j < new_ncols ==> final(self).at(i, j) == old(
                    self,
                ).at(i, j),
    {
        self.cols.truncate(new_ncols);
        let n = self.cols.len();
        let mut j: usize = 0;
        while j < n
            invariant
                old(self).wf(),
                self.cols@.len() == n,
                n <= old(self).spec_ncols(),
                new_nrows <= old(self).spec_nrows(),
                j <= n,
                forall|jj: int|
                    0 <= jj < j ==> (#[trigger] self.cols@[jj])@.len() == new_nrows,
                forall|jj: int, i: int|
                    0 <= jj < j && 0 <= i < new_nrows ==> (#[trigger] self.cols@[jj]@[i])
                        == old(self).at(i, jj),
                forall|jj: int|
                    j <= jj < n ==> (#[trigger] self.cols@[jj])@ == old(self).cols@[jj]@,
            decreases n - j,
        {
            let col: &mut Vec<E> = &mut self.cols[j];
            col.truncate(new_nrows);
            j += 1;
        }
        self.nrows = new_nrows;
    }

    /// Reverses the order of the rows in place.
    pub fn reverse_rows_mut(&mut self)
        requires
            old(self).wf(),
        ensures
            final(self).wf(),
            final(self).same_shape(old(self)),
            forall|i: int, j: int|
                0 <= i < old(self).spec_nrows() && 0 <= j < old(self).spec_ncols()
                    ==> final(self).at(i, j) == old(self).at(
                    old(self).spec_nrows() - 1 - i,
                    j,
                ),
    {
        let r = self.reverse_rows();
        self.copy_from(&r);
    }

    /// Reverses the order of the columns in place.
    pub fn reverse_cols_mut(&mut self)
        requires
            old(self).wf(),
        ensures
            final(self).wf(),
            final(self).same_shape(old(self)),
            forall|i: int, j: int|
                0 <= i < old(self).spec_nrows() && 0 <= j < old(self).spec_ncols()
                    ==> final(self).at(i, j) == old(self).at(
                    i,
                    old(self).spec_ncols() - 1 - j,
                ),
    {
        let r = self.reverse_cols();
        self.copy_from(&r);
    }

    /// Reverses the order of the rows and of the columns in place.
    pub fn reverse_rows_and_cols_mut(&mut self)
        requires
            old(self).wf(),
        ensures
            final(self).wf(),
            final(self).same_shape(old(self)),
            forall|i: int, j: int|
                0 <= i < old(self).spec_nrows() && 0 <= j < old(self).spec_ncols()
                    ==> final(self).at(i, j) == old(self).at(
                    old(self).spec_nrows() - 1 - i,
                    old(self).spec_ncols() - 1 - j,
                ),
    {
        let r = self.reverse_rows_and_cols();
        self.copy_from(&r);
    }

    /// The conjugation state of the stored entries: always [`Conj::No`], since
    /// values are stored canonically.
    pub fn canonicalize_mut(&mut self) -> (r: crate::Conj)
        requires
            old(self).wf(),
        ensures
            *final(self) == *old(self),
            r == crate::Conj::No,
    {
        crate::Conj::No
    }

    /// Interprets a column vector as the diagonal of a square matrix: returns
    /// that matrix, with zeros off the diagonal.
    pub fn column_vector_as_diagonal(&self) -> (r: Mat<E>)
        requires
            self.wf(),
            self.spec_ncols() == 1,
        ensures
            r.wf(),
            r.spec_nrows() == self.spec_nrows(),
            r.spec_ncols() == self.spec_nrows(),
    {
        let n = self.nrows();
        let mut r = Mat::zeros(n, n);
        let mut i: usize = 0;
        while i < n
            invariant
                self.wf(),
                self.spec_nrows() == n,
                self.spec_ncols() == 1,
                r.wf(),
                r.spec_nrows() == n,
                r.spec_ncols() == n,
                i <= n,
            decreases n - i,
        {
            let v = self.read(i, 0);
            r.write(i, i, v);
            i += 1;
        }
        r
    }

    /// Returns copies of consecutive blocks of at most `chunk_size` columns.
    pub fn col_chunks(&self, chunk_size: usize) -> (r: Vec<Mat<E>>)
        requires
            self.wf(),
            chunk_size >= 1,
        ensures
            forall|k: int|
                0 <= k < r@.len() ==> (#[trigger] r@[k]).wf() && r@[k].spec_nrows()
                    == self.spec_nrows(),
    {
        let n = self.ncols();
        let mut r: Vec<Mat<E>> = Vec::new();
        let mut j: usize = 0;
        while j < n
            invariant
                self.wf(),
                self.spec_ncols() == n,
                chunk_size >= 1,
                j <= n,
                forall|k: int|
                    0 <= k < r@.len() ==> (#[trigger] r@[k]).wf() && r@[k].spec_nrows()
                        == self.spec_nrows(),
            decreases n - j,
        {
            let len = if chunk_size < n - j {
                chunk_size
            } else {
                n - j
            };
            let chunk = self.subcols(j, len);
            r.push(chunk);
            j += len;
        }
        r
    }

    /// Returns copies of consecutive blocks of at most `chunk_size` rows.
    pub fn row_chunks(&self, chunk_size: usize) -> (r: Vec<Mat<E>>)
        requires
            self.wf(),
            chunk_size >= 1,
        ensures
            forall|k: int|
                0 <= k < r@.len() ==> (#[trigger] r@[k]).wf() && r@[k].spec_ncols()
                    == self.spec_ncols(),
    {
        let m = self.nrows();
        let mut r: Vec<Mat<E>> = Vec::new();
        let mut i: usize = 0;
        while i < m
            invariant
                self.wf(),
                self.spec_nrows() == m,
                chunk_size >= 1,
                i <= m,
                forall|k: int|
                    0 <= k < r@.len() ==> (#[trigger] r@[k]).wf() && r@[k].spec_ncols()
                        == self.spec_ncols(),
            decreases m - i,
        {
            let len = if chunk_size < m - i {
                chunk_size
            } else {
                m - i
            };
            let chunk = self.subrows(i, len);
            r.push(chunk);
            i += len;
        }
        r
    }

    /// Fills all the entries with a constant value.
    pub fn fill(&mut self, constant: E)
        requires
            old(self).wf(),
        ensures
            final(self).wf(),
            final(self).same_shape(old(self)),
            forall|i: int, j: int|
                0 <= i < old(self).spec_nrows() && 0 <= j < old(self).spec_ncols()
                    ==> final(self).at(i, j) == constant,
    {
        let m = self.nrows();
        let n = self.ncols();
        let mut j: usize = 0;
        while j < n
            invariant
                self.wf(),
                self.spec_nrows() == m,
                self.spec_ncols() == n,
                j <= n,
                forall|i2: int, j2: int|
                    0 <= i2 < m && 0 <= j2 < j ==> self.at(i2, j2) == constant,
            decreases n - j,
        {
            let mut i: usize = 0;
            while i < m
                invariant
                    self.wf(),
                    self.spec_nrows() == m,
                    self.spec_ncols() == n,
                    j < n,
                    i <= m,
                    forall|i2: int, j2: int|
                        0 <= i2 < m && 0 <= j2 < j ==> self.at(i2, j2) == constant,
                    forall|i2: int| 0 <= i2 < i ==> self.at(i2, j as int) == constant,
                decreases m - i,
            {
                self.write(i, j, constant);
                i += 1;
            }
            j += 1;
        }
    }

    /// Fills all the entries with zeros.
    pub fn fill_zero(&mut self)
        requires
            old(self).wf(),
        ensures
            final(self).wf(),
            final(self).same_shape(old(self)),
    {
        self.fill(E::faer_zero());
    }

    /// Copies the values of `other` into `self`.
    pub fn copy_from(&mut self, other: &Mat<E>)
        requires
            old(self).wf(),
            other.wf(),
            old(self).same_shape(other),
        ensures
            final(self).wf(),
            final(self).same_shape(other),
            forall|i: int, j: int|
                0 <= i < other.spec_nrows() && 0 <= j < other.spec_ncols()
                    ==> #[trigger] final(self).at(i, j) == other.at(i, j),
    {
        let m = self.nrows();
        let n = self.ncols();
        let mut j: usize = 0;
        while j < n
            invariant
                self.wf(),
                other.wf(),
                self.spec_nrows() == m,
                self.spec_ncols() == n,
                other.spec_nrows() == m,
                other.spec_ncols() == n,
                j <= n,
                forall|i2: int, j2: int|
                    0 <= i2 < m && 0 <= j2 < j ==> self.at(i2, j2) == other.at(i2, j2),
            decreases n - j,
        {
            let mut i: usize = 0;
            while i < m
                invariant
                    self.wf(),
                    other.wf(),
                    self.spec_nrows() == m,
                    self.spec_ncols() == n,
                    other.spec_nrows() == m,
                    other.spec_ncols() == n,
                    j < n,
                    i <= m,
                    forall|i2: int, j2: int|
                        0 <= i2 < m && 0 <= j2 < j ==> self.at(i2, j2) == other.at(i2, j2),
                    forall|i2: int| 0 <= i2 < i ==> self.at(i2, j as int) == other.at(i2, j as int),
                decreases m - i,
            {
                let v = other.read(i, j);
                self.write(i, j, v);
                i += 1;
            }
            j += 1;
        }
    }
}

} // verus!
