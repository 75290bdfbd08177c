use faer::cholesky::llt::{cholesky_in_place, cholesky_in_place_req, LltParams, LltRegularization};
use faer::evd::tridiag_qr_algorithm::compute_tridiag_real_evd_qr_algorithm;
use faer::jacobi::{jacobi_svd, Skip};
use faer::mat::Mat;
use faer::matmul::matmul;
use faer::matmul::triangular::BlockStructure;
use faer::scalar::{ComplexField, RealField};
use faer::solve::{
    solve_lower_triangular_in_place, solve_unit_lower_triangular_in_place,
    solve_unit_upper_triangular_in_place, solve_upper_triangular_in_place,
};
use faer::solvers::{
    ColPivQr, DenseSolveCore, Lblt, Ldlt, Llt, MatExt, PartialPivLu, Qr, SelfAdjointEigen, Solve,
    SolveLstsq, Svd,
};
use faer::stack::{MemStack, StackReq};
use faer::{Conj, Parallelism};

#[derive(Clone, Copy, PartialEq, Debug)]
struct F64(f64);

impl ComplexField for F64 {
    fn faer_zero() -> Self {
        F64(0.0)
    }
    fn faer_one() -> Self {
        F64(1.0)
    }
    fn faer_add(self, rhs: Self) -> Self {
        F64(self.0 + rhs.0)
    }
    fn faer_sub(self, rhs: Self) -> Self {
        F64(self.0 - rhs.0)
    }
    fn faer_mul(self, rhs: Self) -> Self {
        F64(self.0 * rhs.0)
    }
    fn faer_neg(self) -> Self {
        F64(-self.0)
    }
    fn faer_inv(self) -> Self {
        F64(1.0 / self.0)
    }
    fn faer_conj(self) -> Self {
        self
    }
    fn faer_sqrt(self) -> Self {
        F64(self.0.sqrt())
    }
    fn faer_abs(self) -> Self {
        F64(self.0.abs())
    }
    fn faer_abs2(self) -> Self {
        F64(self.0 * self.0)
    }
    fn faer_real(self) -> Self {
        self
    }
    fn faer_imag(self) -> Self {
        F64(0.0)
    }
    fn faer_from_real(re: Self) -> Self {
        re
    }
    fn faer_scale_real(self, rhs: Self) -> Self {
        F64(self.0 * rhs.0)
    }
    fn faer_gt(self, rhs: Self) -> bool {
        self.0 > rhs.0
    }
    fn faer_ge(self, rhs: Self) -> bool {
        self.0 >= rhs.0
    }
    fn faer_from_u64(x: u64) -> Self {
        F64(x as f64)
    }
    fn faer_is_zero(self) -> bool {
        self.0 == 0.0
    }
    fn faer_is_nan(self) -> bool {
        self.0.is_nan()
    }
    fn faer_is_finite(self) -> bool {
        self.0.is_finite()
    }
    fn faer_epsilon() -> Self {
        F64(f64::EPSILON)
    }
    fn faer_zero_threshold() -> Self {
        F64(f64::MIN_POSITIVE)
    }
}

impl RealField for F64 {}

struct Rng(u64);

impl Rng {
    fn next_f64(&mut self) -> f64 {
        self.0 = self.0.wrapping_mul(6364136223846793005).wrapping_add(1442695040888963407);
        ((self.0 >> 11) as f64) / ((1u64 << 53) as f64)
    }
    fn next_usize(&mut self, bound: usize) -> usize {
        self.0 = self.0.wrapping_mul(6364136223846793005).wrapping_add(1442695040888963407);
        ((self.0 >> 33) as usize) % bound
    }
}

fn random_mat(rng: &mut Rng, m: usize, n: usize) -> Mat<F64> {
    let mut a = Mat::zeros(m, n);
    for j in 0..n {
        for i in 0..m {
            a.write(i, j, F64(rng.next_f64()));
        }
    }
    a
}

fn mat_mul(a: &Mat<F64>, b: &Mat<F64>) -> Mat<F64> {
    let mut r = Mat::zeros(a.nrows(), b.ncols());
    matmul(&mut r, a, b, None, F64(1.0), Parallelism::Sequential);
    r
}

fn max_abs_diff(a: &Mat<F64>, b: &Mat<F64>) -> f64 {
    assert_eq!(a.nrows(), b.nrows());
    assert_eq!(a.ncols(), b.ncols());
    let mut max = 0.0f64;
    for j in 0..a.ncols() {
        for i in 0..a.nrows() {
            let d = (a.read(i, j).0 - b.read(i, j).0).abs();
            if d > max {
                max = d;
            }
        }
    }
    max
}

fn symmetrize(a: &Mat<F64>) -> Mat<F64> {
    let t = a.transpose();
    let mut r = a.to_owned();
    for j in 0..a.ncols() {
        for i in 0..a.nrows() {
            r.write(i, j, a.read(i, j).faer_add(t.read(i, j)));
        }
    }
    r
}

fn spd_mat(rng: &mut Rng, n: usize) -> Mat<F64> {
    // A Aᵀ + n I is positive definite.
    let a = random_mat(rng, n, n);
    let at = a.transpose();
    let mut r = mat_mul(&a, &at);
    for i in 0..n {
        r.write(i, i, F64(r.read(i, i).0 + n as f64 + 1.0));
    }
    r
}

#[test]
fn test_solve_triangular_round_trip() {
    let mut rng = Rng(1);
    for n in [1usize, 2, 3, 4, 5, 8, 16, 33, 65, 129, 200] {
        for k in [1usize, 2, 70] {
            let mut t = random_mat(&mut rng, n, n);
            for i in 0..n {
                t.write(i, i, F64(t.read(i, i).0 + 2.0));
            }
            let x = random_mat(&mut rng, n, k);

            // Lower, non-unit.
            let mut sol = x.to_owned();
            solve_lower_triangular_in_place(&t, &mut sol, Parallelism::Sequential);
            let mut lower = Mat::zeros(n, n);
            lower.copy_from_triangular_lower(&t);
            let back = mat_mul(&lower, &sol);
            assert!(max_abs_diff(&back, &x) < 1e-9);

            // Upper, non-unit.
            let mut sol = x.to_owned();
            solve_upper_triangular_in_place(&t, &mut sol, Parallelism::Sequential);
            let mut upper = Mat::zeros(n, n);
            upper.copy_from_triangular_upper(&t);
            let back = mat_mul(&upper, &sol);
            assert!(max_abs_diff(&back, &x) < 1e-9);

            // Lower, unit diagonal.
            let mut sol = x.to_owned();
            solve_unit_lower_triangular_in_place(&t, &mut sol, Parallelism::Sequential);
            let mut unit_lower = Mat::identity(n, n);
            unit_lower.copy_from_strict_triangular_lower(&t);
            let back = mat_mul(&unit_lower, &sol);
            assert!(max_abs_diff(&back, &x) < 1e-9);

            // Upper, unit diagonal.
            let mut sol = x.to_owned();
            solve_unit_upper_triangular_in_place(&t, &mut sol, Parallelism::Sequential);
            let mut unit_upper = Mat::identity(n, n);
            unit_upper.copy_from_strict_triangular_upper(&t);
            let back = mat_mul(&unit_upper, &sol);
            assert!(max_abs_diff(&back, &x) < 1e-9);
        }
    }
}

fn densify(a: &Mat<F64>, structure: BlockStructure) -> Mat<F64> {
    let mut r = Mat::zeros(a.nrows(), a.ncols());
    for j in 0..a.ncols() {
        for i in 0..a.nrows() {
            let inside = match structure {
                BlockStructure::Rectangular => true,
                BlockStructure::TriangularLower => i >= j,
                BlockStructure::StrictTriangularLower => i > j,
                BlockStructure::UnitTriangularLower => i > j,
                BlockStructure::TriangularUpper => i <= j,
                BlockStructure::StrictTriangularUpper => i < j,
                BlockStructure::UnitTriangularUpper => i < j,
            };
            let unit = matches!(
                structure,
                BlockStructure::UnitTriangularLower | BlockStructure::UnitTriangularUpper
            );
            if i == j && unit {
                r.write(i, j, F64(1.0));
            } else if inside {
                r.write(i, j, a.read(i, j));
            }
        }
    }
    r
}

fn run_triangular_problem(
    rng: &mut Rng,
    m: usize,
    n: usize,
    k: usize,
    dst_s: BlockStructure,
    lhs_s: BlockStructure,
    rhs_s: BlockStructure,
) {
    let lhs = random_mat(rng, m, k);
    let rhs = random_mat(rng, k, n);
    let acc0 = random_mat(rng, m, n);

    let mut acc = acc0.to_owned();
    faer::matmul::triangular::matmul(
        &mut acc,
        dst_s,
        &lhs,
        lhs_s,
        &rhs,
        rhs_s,
        Some(F64(1.0)),
        F64(2.5),
        Parallelism::Sequential,
    );

    let dense = mat_mul(&densify(&lhs, lhs_s), &densify(&rhs, rhs_s));
    for j in 0..n {
        for i in 0..m {
            let inside = match dst_s {
                BlockStructure::Rectangular => true,
                BlockStructure::TriangularLower => i >= j,
                BlockStructure::StrictTriangularLower | BlockStructure::UnitTriangularLower => {
                    i > j
                }
                BlockStructure::TriangularUpper => i <= j,
                BlockStructure::StrictTriangularUpper | BlockStructure::UnitTriangularUpper => {
                    i < j
                }
            };
            let expected = if inside {
                acc0.read(i, j).0 + 2.5 * dense.read(i, j).0
            } else {
                acc0.read(i, j).0
            };
            assert!((acc.read(i, j).0 - expected).abs() < 1e-9);
        }
    }
}

#[test]
fn test_triangular() {
    let structures = [
        BlockStructure::Rectangular,
        BlockStructure::TriangularLower,
        BlockStructure::TriangularUpper,
        BlockStructure::StrictTriangularLower,
        BlockStructure::StrictTriangularUpper,
        BlockStructure::UnitTriangularLower,
        BlockStructure::UnitTriangularUpper,
    ];
    let mut rng = Rng(2);
    let big = 31usize;
    for dst in structures {
        for lhs in structures {
            for rhs in structures {
                let m = rng.next_usize(big);
                let mut n = rng.next_usize(big);
                let mut k = rng.next_usize(big);
                let dst_dense = matches!(dst, BlockStructure::Rectangular);
                let lhs_dense = matches!(lhs, BlockStructure::Rectangular);
                let rhs_dense = matches!(rhs, BlockStructure::Rectangular);
                if !dst_dense {
                    n = m;
                }
                if !lhs_dense {
                    k = m;
                }
                if !rhs_dense {
                    k = n;
                }
                if !dst_dense && (!lhs_dense || !rhs_dense) {
                    n = m;
                    k = m;
                }
                run_triangular_problem(&mut rng, m, n, k, dst, lhs, rhs);
            }
        }
    }
}

#[test]
fn test_householder_apply_round_trip() {
    // Applying a reflector sequence and then its transpose is the identity.
    let mut rng = Rng(3);
    for n in [1usize, 2, 3, 5, 8, 13, 21] {
        let a = random_mat(&mut rng, n, n);
        let mut qr = a.to_owned();
        let bs = faer::qr::no_pivoting::compute::recommended_blocksize(n, n);
        let mut hf = Mat::zeros(bs, n);
        let mut stack: MemStack<F64> = MemStack::new(StackReq::new(0));
        faer::qr::no_pivoting::compute::qr_in_place(
            &mut qr,
            &mut hf,
            Parallelism::Sequential,
            &mut stack,
            faer::qr::no_pivoting::compute::QrComputeParams::default(),
        );

        let x = random_mat(&mut rng, n, 3);
        let mut y = x.to_owned();
        let mut stack: MemStack<F64> = MemStack::new(StackReq::new(bs * 3));
        faer::householder::apply_block_householder_sequence_on_the_left_in_place_with_conj(
            &qr,
            &hf,
            Conj::No,
            &mut y,
            Parallelism::Sequential,
            &mut stack,
        );
        faer::householder::apply_block_householder_sequence_transpose_on_the_left_in_place_with_conj(
            &qr,
            &hf,
            Conj::No,
            &mut y,
            Parallelism::Sequential,
            &mut stack,
        );
        assert!(max_abs_diff(&y, &x) < 1e-10);
    }
}

#[test]
fn test_qr_reconstruct() {
    let mut rng = Rng(4);
    for n in [1usize, 2, 4, 7, 16, 35] {
        let a = random_mat(&mut rng, n, n);
        let qr = a.qr();
        let back = qr.reconstruct();
        assert!(max_abs_diff(&back, &a) < 1e-9);
        let inv = qr.inverse();
        let eye = mat_mul(&inv, &a);
        assert!(max_abs_diff(&eye, &Mat::identity(n, n)) < 1e-8);
    }
}

#[test]
fn test_col_piv_qr_reconstruct() {
    let mut rng = Rng(5);
    for n in [1usize, 2, 4, 7, 16, 35] {
        let a = random_mat(&mut rng, n, n);
        let qr = a.col_piv_qr();
        let back = qr.reconstruct();
        assert!(max_abs_diff(&back, &a) < 1e-9);
        let inv = qr.inverse();
        let eye = mat_mul(&inv, &a);
        assert!(max_abs_diff(&eye, &Mat::identity(n, n)) < 1e-8);
    }
}

#[test]
fn test_lu_reconstruct() {
    let mut rng = Rng(6);
    for n in [1usize, 2, 4, 7, 16, 35] {
        let a = random_mat(&mut rng, n, n);
        let lu = a.partial_piv_lu();
        let back = lu.reconstruct();
        assert!(max_abs_diff(&back, &a) < 1e-9);

        let full = a.full_piv_lu();
        let back = full.reconstruct();
        assert!(max_abs_diff(&back, &a) < 1e-9);
    }
}

#[test]
fn test_llt_round_trip() {
    let mut rng = Rng(7);
    for n in [1usize, 2, 3, 5, 16, 33, 64, 100] {
        let a = spd_mat(&mut rng, n);
        let llt = Llt::new(&a, faer::Side::Lower).unwrap();
        let back = llt.reconstruct();
        assert!(max_abs_diff(&back, &a) < 1e-8 * (n as f64 + 1.0));

        let rhs = random_mat(&mut rng, n, 2);
        let x = llt.solve(&rhs);
        let ax = mat_mul(&a, &x);
        assert!(max_abs_diff(&ax, &rhs) < 1e-7);
    }
}

#[test]
fn test_ldlt_round_trip() {
    let mut rng = Rng(8);
    for n in [1usize, 2, 3, 5, 16, 33, 64] {
        let a = spd_mat(&mut rng, n);
        let ldlt = Ldlt::new(&a, faer::Side::Lower).unwrap();
        let back = ldlt.reconstruct();
        assert!(max_abs_diff(&back, &a) < 1e-8 * (n as f64 + 1.0));

        let rhs = random_mat(&mut rng, n, 2);
        let x = ldlt.solve(&rhs);
        let ax = mat_mul(&a, &x);
        assert!(max_abs_diff(&ax, &rhs) < 1e-7);
    }
}

#[test]
fn mod_test_real() {
    // The Bunch-Kaufman factorization solves symmetric indefinite systems.
    let mut rng = Rng(9);
    for n in [3usize, 6, 19, 100, 421] {
        let a0 = random_mat(&mut rng, n, n);
        let a = symmetrize(&a0);
        let rhs = random_mat(&mut rng, n, 2);

        let lblt = Lblt::new(&a, faer::Side::Lower);
        let x = lblt.solve(&rhs);
        let ax = mat_mul(&a, &x);
        assert!(max_abs_diff(&ax, &rhs) < 1e-10);
    }
}

#[test]
fn test_lblt_reconstruct() {
    // The product of the Bunch-Kaufman factors, with the permutation undone,
    // gives back the symmetrized input.
    let mut rng = Rng(23);
    for n in [3usize, 6, 19, 100] {
        let a0 = random_mat(&mut rng, n, n);
        let a = symmetrize(&a0);
        let lblt = Lblt::new(&a, faer::Side::Lower);
        let back = lblt.reconstruct();
        assert!(max_abs_diff(&back, &a) < 1e-10);
    }
}

#[test]
fn test_evd_2_0() {
    run_tridiag_evd(&[1.0, 1.0], &[0.0]);
}

#[test]
fn test_evd_2_1() {
    run_tridiag_evd(&[1.0, 1.0], &[0.5213289]);
}

#[test]
fn test_evd_3() {
    run_tridiag_evd(&[1.79069356, 1.20930644, 1.0], &[-4.06813537e-01, 0.0]);
}

#[test]
fn test_evd_5() {
    run_tridiag_evd(
        &[1.95069537, 2.44845332, 2.56957029, 3.03128102, 1.0],
        &[-7.02200909e-01, -1.11661820e+00, -6.81418803e-01, 0.0],
    );
}

#[test]
fn test_evd_wilkinson() {
    run_tridiag_evd(&[3.0, 2.0, 1.0, 0.0, 1.0, 2.0, 3.0], &[1.0, 1.0, 1.0, 1.0, 1.0, 1.0]);
}

#[test]
fn test_glued_wilkinson() {
    let diag = [
        3.0, 2.0, 1.0, 0.0, 1.0, 2.0, 3.0, 3.0, 2.0, 1.0, 0.0, 1.0, 2.0, 3.0,
    ];
    let x = 1e-6;
    let offdiag = [1.0, 1.0, 1.0, 1.0, 1.0, 1.0, x, 1.0, 1.0, 1.0, 1.0, 1.0, 1.0];
    run_tridiag_evd(&diag, &offdiag);
}

fn run_tridiag_evd(diag: &[f64], offdiag: &[f64]) {
    let n = diag.len();
    let mut d: Vec<F64> = diag.iter().map(|&x| F64(x)).collect();
    let mut od: Vec<F64> = offdiag.iter().map(|&x| F64(x)).collect();
    let mut u = Mat::zeros(n, n);
    compute_tridiag_real_evd_qr_algorithm(
        &mut d,
        &mut od,
        &mut u,
        F64(f64::EPSILON),
        F64(f64::MIN_POSITIVE),
    )
    .unwrap();

    let mut s = Mat::zeros(n, n);
    for i in 0..n {
        s.write(i, i, d[i]);
    }
    let ut = u.transpose();
    let reconstructed = mat_mul(&mat_mul(&u, &s), &ut);
    for j in 0..n {
        for i in 0..n {
            let target = if i == j {
                diag[j]
            } else if i == j + 1 {
                offdiag[j]
            } else if j == i + 1 {
                offdiag[i]
            } else {
                0.0
            };
            assert!((reconstructed.read(i, j).0 - target).abs() < 1e-14);
        }
    }
}

fn check_svd(mat: &Mat<F64>, u: &Mat<F64>, v: &Mat<F64>, s: &Mat<F64>) {
    let m = mat.nrows();
    let n = mat.ncols();
    for i in 0..m.min(s.nrows()) {
        for j in 0..n.min(s.ncols()) {
            if i == j {
                assert!(s.read(i, j).0 >= 0.0);
            } else {
                assert!(s.read(i, j).0.abs() < 1e-9);
            }
        }
    }
    let ut = u.transpose();
    let uut = mat_mul(u, &ut);
    assert!(max_abs_diff(&uut, &Mat::identity(u.nrows(), u.nrows())) < 1e-9);
    let vt = v.transpose();
    let vvt = mat_mul(v, &vt);
    assert!(max_abs_diff(&vvt, &Mat::identity(v.nrows(), v.nrows())) < 1e-9);
    let recon = mat_mul(&mat_mul(u, s), &vt);
    assert!(max_abs_diff(&recon, mat) < 1e-9);
    let size = m.min(n);
    for i in 0..size.saturating_sub(1) {
        assert!(s.read(i, i).0 >= s.read(i + 1, i + 1).0);
    }
}

#[test]
fn test_jacobi() {
    let mut rng = Rng(10);
    for n in [0usize, 1, 2, 4, 8, 15, 16, 31, 32] {
        let mat = random_mat(&mut rng, n, n);
        let mut s = mat.to_owned();
        let mut u = Mat::zeros(n, n);
        let mut v = Mat::zeros(n, n);
        jacobi_svd(
            &mut s,
            &mut u,
            &mut v,
            Skip::Neither,
            F64(f64::EPSILON),
            F64(f64::MIN_POSITIVE),
        )
        .unwrap();
        check_svd(&mat, &u, &v, &s);
    }
}

#[test]
fn test_skip_first() {
    let mut rng = Rng(11);
    for n in [2usize, 4, 8, 15, 16, 31, 32] {
        let mut mat = random_mat(&mut rng, n, n);
        for i in 0..n {
            mat.write(i, 0, F64(0.0));
        }
        let mut s = mat.to_owned();
        let mut u = Mat::zeros(n, n);
        let mut v = Mat::zeros(n - 1, n);
        jacobi_svd(
            &mut s,
            &mut u,
            &mut v,
            Skip::First,
            F64(f64::EPSILON),
            F64(f64::MIN_POSITIVE),
        )
        .unwrap();
        // The active block decomposes the matrix without its first column.
        let mut u_shifted = Mat::zeros(n, n);
        for j in 1..n {
            for i in 0..n {
                u_shifted.write(i, j - 1, u.read(i, j));
            }
            let d = s.read(j, j);
            s.write(j - 1, j, d);
            s.write(j, j, F64(0.0));
        }
        for i in 0..n {
            u_shifted.write(i, n - 1, u.read(i, 0));
        }
        let sub_mat = mat.submatrix(0, 1, n, n - 1);
        let sub_v = v.submatrix(0, 1, n - 1, n - 1);
        let sub_s = s.submatrix(0, 1, n, n - 1);
        check_svd_rect(&sub_mat, &u_shifted, &sub_v, &sub_s);
    }
}

#[test]
fn test_skip_last() {
    let mut rng = Rng(12);
    for n in [2usize, 4, 8, 15, 16, 31, 32] {
        let mut mat = random_mat(&mut rng, n, n);
        for i in 0..n {
            mat.write(i, n - 1, F64(0.0));
        }
        let mut s = mat.to_owned();
        let mut u = Mat::zeros(n, n);
        let mut v = Mat::zeros(n, n);
        jacobi_svd(
            &mut s,
            &mut u,
            &mut v,
            Skip::Last,
            F64(f64::EPSILON),
            F64(f64::MIN_POSITIVE),
        )
        .unwrap();
        assert!(v.read(n - 1, n - 1).0 == 1.0);
        for j in 0..n - 1 {
            assert!(v.read(n - 1, j).0.abs() < 1e-9);
            assert!(v.read(j, n - 1).0.abs() < 1e-9);
        }
        let sub_mat = mat.submatrix(0, 0, n, n - 1);
        let sub_v = v.submatrix(0, 0, n - 1, n - 1);
        let sub_s = s.submatrix(0, 0, n, n - 1);
        check_svd_rect(&sub_mat, &u, &sub_v, &sub_s);
    }
}

fn check_svd_rect(mat: &Mat<F64>, u: &Mat<F64>, v: &Mat<F64>, s: &Mat<F64>) {
    let vt = v.transpose();
    let recon = mat_mul(&mat_mul(u, s), &vt);
    assert!(max_abs_diff(&recon, mat) < 1e-9);
}

#[test]
fn eigen_286() {
    let n = 2;
    let mut mat = Mat::zeros(n, n);
    mat.write(0, 0, F64(-7.90884e-313));
    mat.write(0, 1, F64(-4.94e-324));
    mat.write(1, 0, F64(0.0));
    mat.write(1, 1, F64(5.60844e-313));
    let mut s = mat.to_owned();
    let mut u = Mat::zeros(n, n);
    let mut v = Mat::zeros(n, n);
    jacobi_svd(
        &mut s,
        &mut u,
        &mut v,
        Skip::Neither,
        F64(f64::EPSILON),
        F64(f64::MIN_POSITIVE),
    )
    .unwrap();
    check_svd(&mat, &u, &v, &s);
}

fn run_svd_test(mat: &Mat<F64>) {
    let svd = Svd::new_thin(mat).unwrap();
    let size = mat.nrows().min(mat.ncols());
    let mut s = Mat::zeros(size, size);
    for i in 0..size {
        s.write(i, i, svd.S()[i]);
    }
    let vt = svd.V().transpose();
    let recon = mat_mul(&mat_mul(svd.U(), &s), &vt);
    assert!(max_abs_diff(&recon, mat) < 1e-9);
    assert!(max_abs_diff(&svd.reconstruct(), mat) < 1e-9);
    for i in 0..size {
        assert!(svd.S()[i].0 >= 0.0);
        if i + 1 < size {
            assert!(svd.S()[i].0 >= svd.S()[i + 1].0);
        }
    }
    // Thin factors have orthonormal columns.
    let ut = svd.U().transpose();
    let utu = mat_mul(&ut, svd.U());
    assert!(max_abs_diff(&utu, &Mat::identity(size, size)) < 1e-9);
    let vtv = mat_mul(&vt, svd.V());
    assert!(max_abs_diff(&vtv, &Mat::identity(size, size)) < 1e-9);

    // The full decomposition agrees with the thin one on the overlap, and its
    // square factors are orthonormal.
    let full = Svd::new(mat).unwrap();
    let m = mat.nrows();
    let n = mat.ncols();
    assert_eq!(full.U().ncols(), m);
    assert_eq!(full.V().ncols(), n);
    for i in 0..size {
        assert!((full.S()[i].0 - svd.S()[i].0).abs() < 1e-10);
    }
    for j in 0..size {
        for i in 0..m {
            assert!((full.U().read(i, j).0 - svd.U().read(i, j).0).abs() < 1e-10);
        }
        for i in 0..n {
            assert!((full.V().read(i, j).0 - svd.V().read(i, j).0).abs() < 1e-10);
        }
    }
    let fut = full.U().transpose();
    let fuut = mat_mul(full.U(), &fut);
    assert!(max_abs_diff(&fuut, &Mat::identity(m, m)) < 1e-9);
    let fvt = full.V().transpose();
    let fvvt = mat_mul(full.V(), &fvt);
    assert!(max_abs_diff(&fvvt, &Mat::identity(n, n)) < 1e-9);
    assert!(max_abs_diff(&full.reconstruct(), mat) < 1e-9);
}

#[test]
fn test_real_big() {
    let mut rng = Rng(13);
    for (m, n) in [(15usize, 10usize), (10, 15), (10, 10), (15, 15)] {
        let mat = random_mat(&mut rng, m, n);
        run_svd_test(&mat);
    }
}

#[test]
fn test_real_small() {
    let mut rng = Rng(14);
    for (m, n) in [(4usize, 4usize), (5, 5), (15, 10), (10, 15), (10, 10), (15, 15)] {
        let mat = random_mat(&mut rng, m, n);
        run_svd_test(&mat);
    }
}

#[test]
fn svd_test_real() {
    let mut rng = Rng(15);
    for m in 0..10usize {
        for n in 0..10usize {
            let mat = random_mat(&mut rng, m, n);
            run_svd_test(&mat);
        }
    }
}

#[test]
fn lib_test_real() {
    // General real eigenvalue decomposition: A × U = U × S elementwise, with
    // complex pairs checked through the complex assembled factors.
    let mut rng = Rng(16);
    for n in [2usize, 3, 4, 5, 6, 7, 10, 15, 25] {
        let a = random_mat(&mut rng, n, n);
        let eigen = faer::solvers::Eigen::new_from_real(&a).unwrap();
        let u = eigen.U();
        let s = eigen.S();
        // Check A u_k = s_k u_k over the complex factors, relative to the
        // magnitude of the eigenvector column.
        for k in 0..n {
            let mut scale = 1.0f64;
            for i in 0..n {
                let m = u.read(i, k).re.0.abs().max(u.read(i, k).im.0.abs());
                if m > scale {
                    scale = m;
                }
            }
            for i in 0..n {
                let mut lhs_re = 0.0;
                let mut lhs_im = 0.0;
                for j in 0..n {
                    lhs_re += a.read(i, j).0 * u.read(j, k).re.0;
                    lhs_im += a.read(i, j).0 * u.read(j, k).im.0;
                }
                let rhs_re = s[k].re.0 * u.read(i, k).re.0 - s[k].im.0 * u.read(i, k).im.0;
                let rhs_im = s[k].re.0 * u.read(i, k).im.0 + s[k].im.0 * u.read(i, k).re.0;
                assert!((lhs_re - rhs_re).abs() < 1e-10 * scale * (n as f64));
                assert!((lhs_im - rhs_im).abs() < 1e-10 * scale * (n as f64));
            }
        }
    }
}

#[test]
fn test_real() {
    // Self-adjoint eigenvalue decomposition of a symmetric real matrix:
    // U S Uᵀ reconstructs the symmetrized input.
    let mut rng = Rng(17);
    for n in [2usize, 3, 4, 5, 6, 7, 10, 15, 25] {
        let a0 = random_mat(&mut rng, n, n);
        let a = symmetrize(&a0);
        let evd = SelfAdjointEigen::new(&a, faer::Side::Lower).unwrap();
        let mut s = Mat::zeros(n, n);
        for i in 0..n {
            s.write(i, i, evd.S()[i]);
        }
        let ut = evd.U().transpose();
        let recon = mat_mul(&mat_mul(evd.U(), &s), &ut);
        assert!(max_abs_diff(&recon, &a) < 1e-10);
        let utu = mat_mul(&ut, evd.U());
        assert!(max_abs_diff(&utu, &Mat::identity(n, n)) < 1e-9);
        for i in 0..n - 1 {
            assert!(evd.S()[i].0 <= evd.S()[i + 1].0);
        }
    }
}

#[test]
fn test_real_identity() {
    for n in [2usize, 3, 10, 15, 25] {
        let a: Mat<F64> = Mat::identity(n, n);
        let evd = SelfAdjointEigen::new(&a, faer::Side::Lower).unwrap();
        let mut s = Mat::zeros(n, n);
        for i in 0..n {
            s.write(i, i, evd.S()[i]);
        }
        let ut = evd.U().transpose();
        let recon = mat_mul(&mat_mul(evd.U(), &s), &ut);
        assert!(max_abs_diff(&recon, &a) < 1e-12);
    }
}

#[test]
fn test_real_zero() {
    for n in [2usize, 3, 10, 15, 25] {
        let a: Mat<F64> = Mat::zeros(n, n);
        let evd = SelfAdjointEigen::new(&a, faer::Side::Lower).unwrap();
        let mut s = Mat::zeros(n, n);
        for i in 0..n {
            s.write(i, i, evd.S()[i]);
        }
        let ut = evd.U().transpose();
        let recon = mat_mul(&mat_mul(evd.U(), &s), &ut);
        assert!(max_abs_diff(&recon, &a) < 1e-12);
    }
}

#[test]
fn test_degenerate_inputs() {
    // Zero and identity inputs reconstruct without convergence failures in
    // every decomposition.
    for n in [1usize, 3, 8] {
        let zero: Mat<F64> = Mat::zeros(n, n);
        let eye: Mat<F64> = Mat::identity(n, n);

        let lu = PartialPivLu::new(&zero);
        assert!(max_abs_diff(&lu.reconstruct(), &zero) < 1e-14);
        let lu = PartialPivLu::new(&eye);
        assert!(max_abs_diff(&lu.reconstruct(), &eye) < 1e-14);

        let qr = eye.qr();
        assert!(max_abs_diff(&qr.reconstruct(), &eye) < 1e-14);
        let qr = zero.qr();
        assert!(max_abs_diff(&qr.reconstruct(), &zero) < 1e-14);

        let svd = Svd::new(&zero).unwrap();
        for i in 0..n {
            assert!(svd.S()[i].0.abs() < 1e-14);
        }
        let svd = Svd::new(&eye).unwrap();
        for i in 0..n {
            assert!((svd.S()[i].0 - 1.0).abs() < 1e-12);
        }

        let evd = SelfAdjointEigen::new(&eye, faer::Side::Lower).unwrap();
        for i in 0..n {
            assert!((evd.S()[i].0 - 1.0).abs() < 1e-12);
        }
        let evd = SelfAdjointEigen::new(&zero, faer::Side::Lower).unwrap();
        for i in 0..n {
            assert!(evd.S()[i].0.abs() < 1e-14);
        }

        let llt = Llt::new(&eye, faer::Side::Lower).unwrap();
        assert!(max_abs_diff(&llt.reconstruct(), &eye) < 1e-14);
    }
}

#[test]
fn test_regularization_counting() {
    // A pivot that is exactly zero: with a positive delta the factorization
    // succeeds and counts the clamped pivot, without it the factorization
    // reports the error.
    let n = 4usize;
    let mut a: Mat<F64> = Mat::identity(n, n);
    a.write(2, 2, F64(0.0));

    let mut work = a.to_owned();
    let req = cholesky_in_place_req(n, Parallelism::Sequential, LltParams::default()).unwrap();
    let mut stack: MemStack<F64> = MemStack::new(req);
    let count = cholesky_in_place(
        &mut work,
        LltRegularization {
            dynamic_regularization_delta: F64(1.0),
            dynamic_regularization_epsilon: F64(1e-9),
        },
        Parallelism::Sequential,
        &mut stack,
        LltParams::default(),
    )
    .unwrap();
    assert!(count > 0);

    let mut work = a.to_owned();
    let mut stack: MemStack<F64> = MemStack::new(req);
    let res = cholesky_in_place(
        &mut work,
        LltRegularization::default(),
        Parallelism::Sequential,
        &mut stack,
        LltParams::default(),
    );
    assert!(res.is_err());
}

#[test]
fn test_scratch_sizing_exactness() {
    // A stack of exactly the sized requirement suffices, and comes back at
    // its original length.
    let mut rng = Rng(18);
    for n in [1usize, 4, 16, 33, 40] {
        let a = spd_mat(&mut rng, n);

        let req = faer::cholesky::ldlt_diagonal::raw_cholesky_in_place_req(
            n,
            Parallelism::Sequential,
            faer::cholesky::ldlt_diagonal::LdltDiagParams::default(),
        )
        .unwrap();
        let mut stack: MemStack<F64> = MemStack::new(req);
        let mut work = a.to_owned();
        faer::cholesky::ldlt_diagonal::raw_cholesky_in_place(
            &mut work,
            Parallelism::Sequential,
            &mut stack,
            faer::cholesky::ldlt_diagonal::LdltDiagParams::default(),
        );
        assert_eq!(stack.len(), req.size());

        let req = faer::evd::compute_hermitian_evd_req(
            n,
            faer::evd::ComputeVectors::Yes,
            Parallelism::Sequential,
            faer::evd::SymmetricEvdParams::default(),
        )
        .unwrap();
        let mut stack: MemStack<F64> = MemStack::new(req);
        let mut s = Mat::zeros(n, 1);
        let mut u = Mat::zeros(n, n);
        faer::evd::compute_hermitian_evd(
            &a,
            &mut s,
            &mut u,
            Parallelism::Sequential,
            &mut stack,
            faer::evd::SymmetricEvdParams::default(),
        )
        .unwrap();
        assert_eq!(stack.len(), req.size());
    }
}

#[test]
fn test_size_overflow() {
    let r = faer::stack::temp_mat_req(usize::MAX, 2);
    assert!(r.is_err());
    let a = StackReq::new(usize::MAX);
    assert!(a.try_and(StackReq::new(1)).is_err());
    assert_eq!(a.try_or(StackReq::new(1)).unwrap().size(), usize::MAX);
}

#[test]
fn test_parallelism_degree() {
    assert_eq!(faer::thread::parallelism_degree(Parallelism::Sequential), 1);
    assert!(faer::thread::parallelism_degree(Parallelism::Rayon(0)) >= 1);
    assert_eq!(faer::thread::parallelism_degree(Parallelism::Rayon(7)), 7);
    let (start, len) = faer::thread::par_split_indices(10, 1, 3);
    assert_eq!((start, len), (4, 3));
}

#[test]
fn test_all_solvers() {
    let mut rng = Rng(19);
    let n = 50usize;
    let a = random_mat(&mut rng, n, n);
    let rhs = random_mat(&mut rng, n, 2);

    let sym = symmetrize(&a);
    let mut spd = mat_mul(&sym, &sym.transpose());
    for i in 0..n {
        spd.write(i, i, F64(spd.read(i, i).0 + n as f64));
    }

    let x = Llt::new(&spd, faer::Side::Lower).unwrap().solve(&rhs);
    assert!(max_abs_diff(&mat_mul(&spd, &x), &rhs) < 1e-6);

    let x = Ldlt::new(&spd, faer::Side::Lower).unwrap().solve(&rhs);
    assert!(max_abs_diff(&mat_mul(&spd, &x), &rhs) < 1e-6);

    let x = Lblt::new(&sym, faer::Side::Lower).solve(&rhs);
    assert!(max_abs_diff(&mat_mul(&sym, &x), &rhs) < 1e-7);

    let x = a.partial_piv_lu().solve(&rhs);
    assert!(max_abs_diff(&mat_mul(&a, &x), &rhs) < 1e-7);

    let x = a.full_piv_lu().solve(&rhs);
    assert!(max_abs_diff(&mat_mul(&a, &x), &rhs) < 1e-7);

    let x = a.qr().solve(&rhs);
    assert!(max_abs_diff(&mat_mul(&a, &x), &rhs) < 1e-7);

    let x = a.col_piv_qr().solve(&rhs);
    assert!(max_abs_diff(&mat_mul(&a, &x), &rhs) < 1e-7);

    let x = Svd::new(&a).unwrap().solve(&rhs);
    assert!(max_abs_diff(&mat_mul(&a, &x), &rhs) < 1e-6);

    let eig = SelfAdjointEigen::new(&spd, faer::Side::Lower).unwrap();
    let x = eig.solve(&rhs);
    assert!(max_abs_diff(&mat_mul(&spd, &x), &rhs) < 1e-6);
    assert!(max_abs_diff(&eig.reconstruct(), &spd) < 1e-7);
    let inv = eig.inverse();
    assert!(max_abs_diff(&mat_mul(&inv, &spd), &Mat::identity(n, n)) < 1e-6);

    // Transpose solves.
    let at = a.transpose();
    let x = a.partial_piv_lu().solve_transpose(&rhs);
    assert!(max_abs_diff(&mat_mul(&at, &x), &rhs) < 1e-7);
    let x = a.full_piv_lu().solve_transpose(&rhs);
    assert!(max_abs_diff(&mat_mul(&at, &x), &rhs) < 1e-7);
    let x = a.qr().solve_transpose(&rhs);
    assert!(max_abs_diff(&mat_mul(&at, &x), &rhs) < 1e-7);
    let x = a.col_piv_qr().solve_transpose(&rhs);
    assert!(max_abs_diff(&mat_mul(&at, &x), &rhs) < 1e-7);
}

#[test]
fn test_eigen_real() {
    let mut rng = Rng(20);
    let n = 50usize;
    let a = random_mat(&mut rng, n, n);
    let eigen = faer::solvers::eigen_from_real(&a).unwrap();
    let u = eigen.U();
    let s = eigen.S();
    for k in 0..n {
        for i in 0..n {
            let mut lhs_re = 0.0;
            let mut lhs_im = 0.0;
            for j in 0..n {
                lhs_re += a.read(i, j).0 * u.read(j, k).re.0;
                lhs_im += a.read(i, j).0 * u.read(j, k).im.0;
            }
            let rhs_re = s[k].re.0 * u.read(i, k).re.0 - s[k].im.0 * u.read(i, k).im.0;
            let rhs_im = s[k].re.0 * u.read(i, k).im.0 + s[k].im.0 * u.read(i, k).re.0;
            assert!((lhs_re - rhs_re).abs() < 1e-7);
            assert!((lhs_im - rhs_im).abs() < 1e-7);
        }
    }
}

#[test]
fn test_real_thin() {
    // The thin factors agree with the full computation on the overlapping
    // columns, for every combination of requested vectors.
    let mut rng = Rng(21);
    for m in 0..12usize {
        for n in 0..12usize {
            let mat = random_mat(&mut rng, m, n);
            let size = m.min(n);

            let req = faer::svd::compute_svd_req(
                m,
                n,
                faer::svd::ComputeVectors::Full,
                faer::svd::ComputeVectors::Full,
                Parallelism::Sequential,
            )
            .unwrap();

            let mut s_full = Mat::zeros(size, 1);
            let mut u_full = Mat::zeros(m, m);
            let mut v_full = Mat::zeros(n, n);
            let mut stack: MemStack<F64> = MemStack::new(req);
            faer::svd::compute_svd(
                &mat,
                &mut s_full,
                &mut u_full,
                &mut v_full,
                F64(f64::EPSILON),
                F64(f64::MIN_POSITIVE),
                Parallelism::Sequential,
                &mut stack,
            )
            .unwrap();

            let mut s_thin = Mat::zeros(size, 1);
            let mut u_thin = Mat::zeros(m, size);
            let mut v_thin = Mat::zeros(n, size);
            let mut stack: MemStack<F64> = MemStack::new(req);
            faer::svd::compute_svd(
                &mat,
                &mut s_thin,
                &mut u_thin,
                &mut v_thin,
                F64(f64::EPSILON),
                F64(f64::MIN_POSITIVE),
                Parallelism::Sequential,
                &mut stack,
            )
            .unwrap();

            let mut s_none = Mat::zeros(size, 1);
            let mut u_none: Mat<F64> = Mat::zeros(m, 0);
            let mut v_none: Mat<F64> = Mat::zeros(n, 0);
            let mut stack: MemStack<F64> = MemStack::new(req);
            faer::svd::compute_svd(
                &mat,
                &mut s_none,
                &mut u_none,
                &mut v_none,
                F64(f64::EPSILON),
                F64(f64::MIN_POSITIVE),
                Parallelism::Sequential,
                &mut stack,
            )
            .unwrap();

            for i in 0..size {
                assert!((s_full.read(i, 0).0 - s_thin.read(i, 0).0).abs() < 1e-10);
                assert!((s_full.read(i, 0).0 - s_none.read(i, 0).0).abs() < 1e-10);
            }
            for j in 0..size {
                for i in 0..m {
                    assert!((u_full.read(i, j).0 - u_thin.read(i, j).0).abs() < 1e-10);
                }
                for i in 0..n {
                    assert!((v_full.read(i, j).0 - v_thin.read(i, j).0).abs() < 1e-10);
                }
            }
        }
    }
}

#[test]
fn lib_test_real_identity() {
    for n in [2usize, 3, 10, 15, 25] {
        let a: Mat<F64> = Mat::identity(n, n);
        let eigen = faer::solvers::Eigen::new_from_real(&a).unwrap();
        for k in 0..n {
            assert!((eigen.S()[k].re.0 - 1.0).abs() < 1e-12);
            assert!(eigen.S()[k].im.0.abs() < 1e-12);
        }
    }
}

#[test]
fn lib_test_real_zero() {
    for n in [2usize, 3, 10, 15, 25] {
        let a: Mat<F64> = Mat::zeros(n, n);
        let eigen = faer::solvers::Eigen::new_from_real(&a).unwrap();
        for k in 0..n {
            assert!(eigen.S()[k].re.0.abs() < 1e-12);
            assert!(eigen.S()[k].im.0.abs() < 1e-12);
        }
    }
}

#[test]
fn test_ldlt_zero_pivot() {
    // A singular self-adjoint matrix gives a diagonal factor with a zero
    // pivot, which the decomposition reports.
    let a: Mat<F64> = Mat::zeros(3, 3);
    assert!(Ldlt::new(&a, faer::Side::Lower).is_err());
}

#[test]
fn test_parallel_budget_blocking() {
    // The worker budget changes the blocking decisions but not the result.
    let mut rng = Rng(22);
    let n = 48usize;
    let a = spd_mat(&mut rng, n);
    let req = cholesky_in_place_req(n, Parallelism::Rayon(0), LltParams::default()).unwrap();

    let mut seq = a.to_owned();
    let mut stack: MemStack<F64> = MemStack::new(req);
    cholesky_in_place(
        &mut seq,
        LltRegularization::default(),
        Parallelism::Sequential,
        &mut stack,
        LltParams::default(),
    )
    .unwrap();

    let mut par = a.to_owned();
    let mut stack: MemStack<F64> = MemStack::new(req);
    cholesky_in_place(
        &mut par,
        LltRegularization::default(),
        Parallelism::Rayon(0),
        &mut stack,
        LltParams::default(),
    )
    .unwrap();

    // The lower triangular halves agree.
    for j in 0..n {
        for i in j..n {
            assert!((seq.read(i, j).0 - par.read(i, j).0).abs() < 1e-10);
        }
    }
}

#[test]
fn test_rectangular_lu() {
    // Rectangular LU with partial and with full pivoting reconstructs the
    // input of any shape.
    let mut rng = Rng(24);
    for (m, n) in [(7usize, 4usize), (4, 7), (9, 9), (1, 5), (5, 1)] {
        let a = random_mat(&mut rng, m, n);
        let lu = PartialPivLu::new(&a);
        assert_eq!(lu.L().nrows(), m);
        assert_eq!(lu.U().ncols(), n);
        assert!(max_abs_diff(&lu.reconstruct(), &a) < 1e-12);

        let full = faer::solvers::FullPivLu::new(&a);
        assert!(max_abs_diff(&full.reconstruct(), &a) < 1e-12);
    }
}

#[test]
fn test_rectangular_qr_lstsq() {
    // A tall full-rank system solved in the least squares sense: the residual
    // of the normal equations vanishes, and an exactly consistent right-hand
    // side is reproduced.
    let mut rng = Rng(25);
    for (m, n) in [(8usize, 3usize), (12, 5), (6, 6)] {
        let a = random_mat(&mut rng, m, n);
        let x_true = random_mat(&mut rng, n, 2);
        let rhs = mat_mul(&a, &x_true);

        let qr = Qr::new(&a);
        assert!(max_abs_diff(&qr.reconstruct(), &a) < 1e-12);
        let mut sol = rhs.to_owned();
        qr.solve_lstsq_in_place(&mut sol);
        let x = sol.submatrix(0, 0, n, 2);
        assert!(max_abs_diff(&x, &x_true) < 1e-10);

        let cqr = ColPivQr::new(&a);
        assert!(max_abs_diff(&cqr.reconstruct(), &a) < 1e-12);
        let mut sol = rhs.to_owned();
        cqr.solve_lstsq_in_place(&mut sol);
        let x = sol.submatrix(0, 0, n, 2);
        assert!(max_abs_diff(&x, &x_true) < 1e-10);
    }
}

#[test]
fn test_values_only() {
    // The eigenvalues-only and singular-values-only entry points agree with
    // the full decompositions.
    let mut rng = Rng(26);
    let n = 12usize;
    let a0 = random_mat(&mut rng, n, n);
    let sym = symmetrize(&a0);

    let vals = faer::solvers::self_adjoint_eigenvalues(&sym, faer::Side::Lower).unwrap();
    let evd = SelfAdjointEigen::new(&sym, faer::Side::Lower).unwrap();
    for i in 0..n {
        assert!((vals[i].0 - evd.S()[i].0).abs() < 1e-10);
    }

    let rect = random_mat(&mut rng, 9, 13);
    let svals = faer::solvers::singular_values(&rect).unwrap();
    let svd = Svd::new_thin(&rect).unwrap();
    for i in 0..9 {
        assert!((svals[i].0 - svd.S()[i].0).abs() < 1e-10);
    }

    let evals = faer::solvers::eigenvalues_from_real(&a0).unwrap();
    let eig = faer::solvers::Eigen::new_from_real(&a0).unwrap();
    for i in 0..n {
        assert!((evals[i].re.0 - eig.S()[i].re.0).abs() < 1e-10);
        assert!((evals[i].im.0 - eig.S()[i].im.0).abs() < 1e-10);
    }
}
