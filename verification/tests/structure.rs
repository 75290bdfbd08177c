use faer::mat::Mat;
use faer::stack::{temp_mat_req, MemStack, StackReq};
use faer::Conj;
use faer::perm::{permute_rows, Perm};
use faer::scalar::{ComplexField, RealField};
use faer::sparse::csc::SymbolicSparseColMat;
use faer::sparse::csr::SparseRowMat;

#[derive(Clone, Copy, PartialEq, Debug)]
struct F64(f64);

impl ComplexField for F64 {
    fn faer_zero() -> Self {
        F64(0.0)
    }
    fn faer_one() -> Self {
        F64(1.0)
    }
    fn faer_add(self, rhs: Self) -> Self {
        F64(self.0 + rhs.0)
    }
    fn faer_sub(self, rhs: Self) -> Self {
        F64(self.0 - rhs.0)
    }
    fn faer_mul(self, rhs: Self) -> Self {
        F64(self.0 * rhs.0)
    }
    fn faer_neg(self) -> Self {
        F64(-self.0)
    }
    fn faer_inv(self) -> Self {
        F64(1.0 / self.0)
    }
    fn faer_conj(self) -> Self {
        self
    }
    fn faer_sqrt(self) -> Self {
        F64(self.0.sqrt())
    }
    fn faer_abs(self) -> Self {
        F64(self.0.abs())
    }
    fn faer_abs2(self) -> Self {
        F64(self.0 * self.0)
    }
    fn faer_real(self) -> Self {
        self
    }
    fn faer_imag(self) -> Self {
        F64(0.0)
    }
    fn faer_from_real(re: Self) -> Self {
        re
    }
    fn faer_scale_real(self, rhs: Self) -> Self {
        F64(self.0 * rhs.0)
    }
    fn faer_gt(self, rhs: Self) -> bool {
        self.0 > rhs.0
    }
    fn faer_ge(self, rhs: Self) -> bool {
        self.0 >= rhs.0
    }
    fn faer_from_u64(x: u64) -> Self {
        F64(x as f64)
    }
    fn faer_is_zero(self) -> bool {
        self.0 == 0.0
    }
    fn faer_is_nan(self) -> bool {
        self.0.is_nan()
    }
    fn faer_is_finite(self) -> bool {
        self.0.is_finite()
    }
    fn faer_epsilon() -> Self {
        F64(f64::EPSILON)
    }
    fn faer_zero_threshold() -> Self {
        F64(f64::MIN_POSITIVE)
    }
}

impl RealField for F64 {}

#[test]
fn test_mat_views() {
    let mut a: Mat<F64> = Mat::zeros(3, 4);
    for j in 0..4 {
        for i in 0..3 {
            a.write(i, j, F64((j * 3 + i) as f64));
        }
    }
    assert_eq!(a.nrows(), 3);
    assert_eq!(a.ncols(), 4);
    assert_eq!(a.read(2, 1).0, 5.0);
    assert_eq!(a.row_stride(), 1);
    assert_eq!(a.col_stride(), 3);

    let sub = a.submatrix(1, 2, 2, 2);
    assert_eq!(sub.read(0, 0).0, 7.0);
    assert_eq!(sub.read(1, 1).0, 11.0);

    let t = a.transpose();
    assert_eq!(t.nrows(), 4);
    assert_eq!(t.read(1, 2).0, a.read(2, 1).0);

    let tt = t.transpose();
    for j in 0..4 {
        for i in 0..3 {
            assert_eq!(tt.read(i, j).0, a.read(i, j).0);
        }
    }

    let rev = a.reverse_rows();
    assert_eq!(rev.read(0, 0).0, a.read(2, 0).0);
    let rev2 = rev.reverse_rows();
    assert_eq!(rev2.read(0, 0).0, a.read(0, 0).0);

    let (top, bot) = a.split_at_row(1);
    assert_eq!(top.nrows(), 1);
    assert_eq!(bot.nrows(), 2);
    assert_eq!(bot.read(0, 0).0, a.read(1, 0).0);

    let d = a.diagonal();
    assert_eq!(d.len(), 3);
    assert_eq!(d[2].0, 8.0);

    assert_eq!(a.row(1)[3].0, 10.0);
    assert_eq!(a.col(3)[1].0, 10.0);

    assert_eq!(a.norm_max().0, 11.0);
    assert_eq!(a.sum().0, 66.0);
    assert!(a.is_all_finite());
    assert!(!a.has_nan());

    let mut b = a.to_owned();
    b.truncate(2, 3);
    assert_eq!(b.nrows(), 2);
    assert_eq!(b.ncols(), 3);
    assert_eq!(b.read(1, 2).0, a.read(1, 2).0);

    let chunks = a.col_chunks(3);
    assert_eq!(chunks.len(), 2);
    assert_eq!(chunks[0].ncols(), 3);
    assert_eq!(chunks[1].ncols(), 1);
}

#[test]
fn test_perm_round_trip() {
    let mut p = Perm::identity(5);
    p.swap(0, 3);
    p.swap(1, 4);
    p.swap(2, 3);

    let mut a: Mat<F64> = Mat::zeros(5, 2);
    for i in 0..5 {
        a.write(i, 0, F64(i as f64));
        a.write(i, 1, F64((10 + i) as f64));
    }
    let mut gathered = a.to_owned();
    permute_rows(&mut gathered, &a, &p);
    let mut back = a.to_owned();
    let inv = p.inverse();
    permute_rows(&mut back, &gathered, &inv);
    for i in 0..5 {
        for j in 0..2 {
            assert_eq!(back.read(i, j).0, a.read(i, j).0);
        }
    }
}

#[test]
fn test_sparse_symbolic() {
    // A 3 x 4 structure with entries (0,0), (2,0), (1,2), (2,3).
    let col_ptrs = vec![0usize, 2, 2, 3, 4];
    let row_indices = vec![0usize, 2, 1, 2];
    let s = SymbolicSparseColMat::new_checked(3, 4, col_ptrs, None, row_indices);
    assert_eq!(s.nrows(), 3);
    assert_eq!(s.ncols(), 4);
    assert_eq!(s.compute_nnz(), 4);
    assert_eq!(s.col_ptrs().len(), 5);
    assert_eq!(s.row_indices_of_col(0), vec![0usize, 2]);
    assert_eq!(s.row_indices_of_col(1), Vec::<usize>::new());
    assert_eq!(s.row_indices_of_col(2), vec![1usize]);

    let copy = s.to_owned();
    assert_eq!(copy.compute_nnz(), 4);

    let t = copy.into_transpose();
    assert_eq!(t.nrows(), 4);
    assert_eq!(t.ncols(), 3);
    assert_eq!(t.compute_nnz(), 4);
    // Row 0 of the original holds an entry in column 0: transposed, column 0
    // holds row 0.
    assert_eq!(t.row_indices_of_col(0), vec![0usize]);
    assert_eq!(t.row_indices_of_col(2), vec![0usize, 3]);

    let (nrows, ncols, ptrs, nnz, inds) = s.into_parts();
    assert_eq!((nrows, ncols), (3, 4));
    assert_eq!(ptrs, vec![0usize, 2, 2, 3, 4]);
    assert!(nnz.is_none());
    assert_eq!(inds, vec![0usize, 2, 1, 2]);
}

#[test]
fn test_sparse_from_indices() {
    let indices = vec![(2usize, 1usize), (0, 1), (0, 1), (1, 0)];
    let s = SymbolicSparseColMat::try_new_from_indices(3, 2, &indices).unwrap();
    assert_eq!(s.compute_nnz(), 3);
    assert_eq!(s.row_indices_of_col(0), vec![1usize]);
    assert_eq!(s.row_indices_of_col(1), vec![0usize, 2]);

    let bad = vec![(5usize, 0usize)];
    assert!(SymbolicSparseColMat::try_new_from_indices(3, 2, &bad).is_err());

    let signed = vec![(-1i64, 0i64), (1, 1)];
    let s = SymbolicSparseColMat::try_new_from_nonnegative_indices(3, 2, &signed).unwrap();
    assert_eq!(s.compute_nnz(), 1);
}

#[test]
fn test_sparse_row_mat() {
    // [[0, 1.5, 0], [2.5, 0, 3.5]]
    let row_ptrs = vec![0usize, 1, 3];
    let col_inds = vec![1usize, 0, 2];
    let values = vec![F64(1.5), F64(2.5), F64(3.5)];
    let m = SparseRowMat::new(2, 3, row_ptrs, col_inds, values);
    assert_eq!(m.nrows(), 2);
    assert_eq!(m.ncols(), 3);
    assert_eq!(m.compute_nnz(), 3);
    assert_eq!(m.get(0, 1).unwrap().0, 1.5);
    assert!(m.get(0, 0).is_none());
    assert_eq!(m.col_indices_of_row(1), vec![0usize, 2]);
    assert!(m.nnz_per_row().is_none());

    let mut m2 = m.to_owned();
    assert!(m2.get_mut(1, 0, F64(9.0)));
    assert_eq!(m2.get(1, 0).unwrap().0, 9.0);
    assert!(!m2.get_mut(0, 0, F64(7.0)));

    let t = m.to_owned().into_transpose();
    assert_eq!(t.nrows(), 3);
    assert_eq!(t.ncols(), 2);
    assert_eq!(t.get(1, 0).unwrap().0, 1.5);
    assert_eq!(t.get(0, 1).unwrap().0, 2.5);
    assert_eq!(t.get(2, 1).unwrap().0, 3.5);

    let adj = m.to_owned().into_adjoint();
    assert_eq!(adj.get(1, 0).unwrap().0, 1.5);

    let (nrows, ncols, ptrs, inds, vals) = m.into_parts();
    assert_eq!((nrows, ncols), (2, 3));
    assert_eq!(ptrs, vec![0usize, 1, 3]);
    assert_eq!(inds, vec![1usize, 0, 2]);
    assert_eq!(vals.len(), 3);
}

#[test]
fn test_sparse_from_triplets() {
    let triplets = vec![
        (0usize, 0usize, F64(1.0)),
        (0, 0, F64(2.0)),
        (1, 2, F64(4.0)),
    ];
    let m = SparseRowMat::try_new_from_triplets(2, 3, &triplets).unwrap();
    // Duplicate positions are summed.
    assert_eq!(m.get(0, 0).unwrap().0, 3.0);
    assert_eq!(m.get(1, 2).unwrap().0, 4.0);
    assert_eq!(m.compute_nnz(), 2);

    let bad = vec![(2usize, 0usize, F64(1.0))];
    assert!(SparseRowMat::try_new_from_triplets(2, 3, &bad).is_err());

    let signed = vec![(-3i64, 0i64, F64(1.0)), (1, 1, F64(5.0))];
    let m = SparseRowMat::try_new_from_nonnegative_triplets(2, 3, &signed).unwrap();
    assert_eq!(m.get(1, 1).unwrap().0, 5.0);
}

#[test]
fn test_conj_compose() {
    assert_eq!(Conj::No.compose(Conj::No), Conj::No);
    assert_eq!(Conj::No.compose(Conj::Yes), Conj::Yes);
    assert_eq!(Conj::Yes.compose(Conj::No), Conj::Yes);
    assert_eq!(Conj::Yes.compose(Conj::Yes), Conj::No);
}

#[test]
fn test_mem_stack() {
    let req = temp_mat_req(4, 5).unwrap();
    assert_eq!(req.size(), 20);
    let both = req.try_and(StackReq::new(7)).unwrap();
    assert_eq!(both.size(), 27);
    let either = req.try_or(StackReq::new(7)).unwrap();
    assert_eq!(either.size(), 20);

    let mut stack: MemStack<F64> = MemStack::new(both);
    assert_eq!(stack.len(), 27);
    let tmp = stack.make_temp_mat(4, 5);
    assert_eq!(stack.len(), 7);
    assert_eq!(tmp.nrows(), 4);
    assert_eq!(tmp.ncols(), 5);
    stack.give_back_mat(tmp);
    assert_eq!(stack.len(), 27);
}
