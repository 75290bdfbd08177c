use faer::complex_native::Complex;
use faer::mat::Mat;
use faer::matmul::matmul;
use faer::scalar::{ComplexField, RealField};
use faer::solvers::{DenseSolveCore, Lblt, SelfAdjointEigen, Solve};
use faer::stack::{MemStack, StackReq};
use faer::Parallelism;

#[derive(Clone, Copy, PartialEq, Debug)]
struct F64(f64);

impl ComplexField for F64 {
    fn faer_zero() -> Self {
        F64(0.0)
    }
    fn faer_one() -> Self {
        F64(1.0)
    }
    fn faer_add(self, rhs: Self) -> Self {
        F64(self.0 + rhs.0)
    }
    fn faer_sub(self, rhs: Self) -> Self {
        F64(self.0 - rhs.0)
    }
    fn faer_mul(self, rhs: Self) -> Self {
        F64(self.0 * rhs.0)
    }
    fn faer_neg(self) -> Self {
        F64(-self.0)
    }
    fn faer_inv(self) -> Self {
        F64(1.0 / self.0)
    }
    fn faer_conj(self) -> Self {
        self
    }
    fn faer_sqrt(self) -> Self {
        F64(self.0.sqrt())
    }
    fn faer_abs(self) -> Self {
        F64(self.0.abs())
    }
    fn faer_abs2(self) -> Self {
        F64(self.0 * self.0)
    }
    fn faer_real(self) -> Self {
        self
    }
    fn faer_imag(self) -> Self {
        F64(0.0)
    }
    fn faer_from_real(re: Self) -> Self {
        re
    }
    fn faer_scale_real(self, rhs: Self) -> Self {
        F64(self.0 * rhs.0)
    }
    fn faer_gt(self, rhs: Self) -> bool {
        self.0 > rhs.0
    }
    fn faer_ge(self, rhs: Self) -> bool {
        self.0 >= rhs.0
    }
    fn faer_from_u64(x: u64) -> Self {
        F64(x as f64)
    }
    fn faer_is_zero(self) -> bool {
        self.0 == 0.0
    }
    fn faer_is_nan(self) -> bool {
        self.0.is_nan()
    }
    fn faer_is_finite(self) -> bool {
        self.0.is_finite()
    }
    fn faer_epsilon() -> Self {
        F64(f64::EPSILON)
    }
    fn faer_zero_threshold() -> Self {
        F64(f64::MIN_POSITIVE)
    }
}

impl RealField for F64 {}

type C64 = Complex<F64>;

struct Rng(u64);

impl Rng {
    fn next_f64(&mut self) -> f64 {
        self.0 = self.0.wrapping_mul(6364136223846793005).wrapping_add(1442695040888963407);
        ((self.0 >> 11) as f64) / ((1u64 << 53) as f64)
    }
    fn next_c64(&mut self) -> C64 {
        let re = self.next_f64();
        let im = self.next_f64();
        Complex::new(F64(re), F64(im))
    }
}

fn random_cmat(rng: &mut Rng, m: usize, n: usize) -> Mat<C64> {
    let mut a = Mat::zeros(m, n);
    for j in 0..n {
        for i in 0..m {
            a.write(i, j, rng.next_c64());
        }
    }
    a
}

fn cmat_mul(a: &Mat<C64>, b: &Mat<C64>) -> Mat<C64> {
    let mut r = Mat::zeros(a.nrows(), b.ncols());
    matmul(&mut r, a, b, None, C64::faer_one(), Parallelism::Sequential);
    r
}

fn cmax_abs_diff(a: &Mat<C64>, b: &Mat<C64>) -> f64 {
    let mut max = 0.0f64;
    for j in 0..a.ncols() {
        for i in 0..a.nrows() {
            let x = a.read(i, j);
            let y = b.read(i, j);
            let d = ((x.re.0 - y.re.0).powi(2) + (x.im.0 - y.im.0).powi(2)).sqrt();
            if d > max {
                max = d;
            }
        }
    }
    max
}

fn hermitize(a: &Mat<C64>) -> Mat<C64> {
    let ah = a.adjoint();
    let mut r = a.to_owned();
    for j in 0..a.ncols() {
        for i in 0..a.nrows() {
            r.write(i, j, a.read(i, j).faer_add(ah.read(i, j)));
        }
    }
    r
}

#[test]
fn test_cplx() {
    // Hermitian eigenvalue decomposition: U S Uᴴ reconstructs the input.
    let mut rng = Rng(31);
    for n in [2usize, 3, 4, 5, 6, 7, 10, 15, 25] {
        let a0 = random_cmat(&mut rng, n, n);
        let a = hermitize(&a0);
        let evd = SelfAdjointEigen::new(&a, faer::Side::Lower).unwrap();
        let mut s: Mat<C64> = Mat::zeros(n, n);
        for i in 0..n {
            s.write(i, i, evd.S()[i]);
        }
        let uh = evd.U().adjoint();
        let recon = cmat_mul(&cmat_mul(evd.U(), &s), &uh);
        assert!(cmax_abs_diff(&recon, &a) < 1e-10);
        let uhu = cmat_mul(&uh, evd.U());
        assert!(cmax_abs_diff(&uhu, &Mat::identity(n, n)) < 1e-9);
        for i in 0..n {
            assert!(evd.S()[i].im.0.abs() < 1e-10);
        }
    }
}

#[test]
fn test_cplx_identity() {
    for n in [2usize, 3, 10, 15, 25] {
        let a: Mat<C64> = Mat::identity(n, n);
        let evd = SelfAdjointEigen::new(&a, faer::Side::Lower).unwrap();
        let mut s: Mat<C64> = Mat::zeros(n, n);
        for i in 0..n {
            s.write(i, i, evd.S()[i]);
        }
        let uh = evd.U().adjoint();
        let recon = cmat_mul(&cmat_mul(evd.U(), &s), &uh);
        assert!(cmax_abs_diff(&recon, &a) < 1e-12);
    }
}

#[test]
fn test_cplx_zero() {
    for n in [2usize, 3, 10, 15, 25] {
        let a: Mat<C64> = Mat::zeros(n, n);
        let evd = SelfAdjointEigen::new(&a, faer::Side::Lower).unwrap();
        let mut s: Mat<C64> = Mat::zeros(n, n);
        for i in 0..n {
            s.write(i, i, evd.S()[i]);
        }
        let uh = evd.U().adjoint();
        let recon = cmat_mul(&cmat_mul(evd.U(), &s), &uh);
        assert!(cmax_abs_diff(&recon, &a) < 1e-12);
    }
}

#[test]
fn lib_test_cplx() {
    // General complex eigenvalue decomposition: A u = s u per eigenpair.
    let mut rng = Rng(32);
    for n in [2usize, 3, 4, 5, 6, 7, 10, 15, 25] {
        let a = random_cmat(&mut rng, n, n);
        let eigen = faer::solvers::eigen(&a).unwrap();
        let u = eigen.U();
        let s = eigen.S();
        for k in 0..n {
            for i in 0..n {
                let mut lhs = C64::faer_zero();
                for j in 0..n {
                    lhs = lhs.faer_add(a.read(i, j).faer_mul(u.read(j, k)));
                }
                let rhs = s[k].faer_mul(u.read(i, k));
                let d = lhs.faer_sub(rhs);
                assert!((d.re.0 * d.re.0 + d.im.0 * d.im.0).sqrt() < 1e-7);
            }
        }
    }
}

#[test]
fn mod_test_cplx() {
    // Bunch-Kaufman on a Hermitian complex matrix: the factorization solves
    // the system, and the stored block diagonal stays real on its diagonal.
    let mut rng = Rng(33);
    for n in [3usize, 6, 19, 100, 421] {
        let a0 = random_cmat(&mut rng, n, n);
        let a = hermitize(&a0);
        let rhs = random_cmat(&mut rng, n, 2);

        let lblt = Lblt::new(&a, faer::Side::Lower);
        for i in 0..n {
            assert!(lblt.B_diag()[i].im.0 == 0.0);
        }
        let x = lblt.solve(&rhs);
        let ax = cmat_mul(&a, &x);
        assert!(cmax_abs_diff(&ax, &rhs) < 1e-10);

        let back = lblt.reconstruct();
        assert!(cmax_abs_diff(&back, &a) < 1e-10);
    }
}

#[test]
fn test_invert() {
    // Inversion through the column-pivoted QR factorization.
    let mut rng = Rng(34);
    for n in [31usize, 32, 48, 65] {
        let mat = random_cmat(&mut rng, n, n);
        let blocksize = faer::qr::no_pivoting::compute::recommended_blocksize(n, n);
        let mut qr = mat.to_owned();
        let mut householder_factor = Mat::zeros(blocksize, n);

        let mut stack: MemStack<C64> = MemStack::new(StackReq::new(0));
        let perm = faer::qr::col_pivoting::compute::qr_in_place(
            &mut qr,
            &mut householder_factor,
            Parallelism::Sequential,
            &mut stack,
            faer::qr::col_pivoting::compute::ColPivQrComputeParams::default(),
        );

        let req = faer::qr::col_pivoting::inverse::invert_req(n, n, blocksize).unwrap();
        let mut stack: MemStack<C64> = MemStack::new(req);
        let mut inv = Mat::zeros(n, n);
        faer::qr::col_pivoting::inverse::invert(
            &mut inv,
            &qr,
            &householder_factor,
            &perm,
            Parallelism::Sequential,
            &mut stack,
        );

        let eye = cmat_mul(&inv, &mat);
        assert!(cmax_abs_diff(&eye, &Mat::identity(n, n)) < 1e-8);
    }
}

#[test]
fn inverse_test_invert() {
    // Inversion through the unpivoted QR factorization.
    let mut rng = Rng(35);
    for n in [31usize, 32, 48, 65] {
        let mat = random_cmat(&mut rng, n, n);
        let blocksize = faer::qr::no_pivoting::compute::recommended_blocksize(n, n);
        let mut qr = mat.to_owned();
        let mut householder_factor = Mat::zeros(blocksize, n);

        let mut stack: MemStack<C64> = MemStack::new(StackReq::new(0));
        faer::qr::no_pivoting::compute::qr_in_place(
            &mut qr,
            &mut householder_factor,
            Parallelism::Sequential,
            &mut stack,
            faer::qr::no_pivoting::compute::QrComputeParams::default(),
        );

        let req = faer::qr::no_pivoting::inverse::invert_req(n, n, blocksize).unwrap();
        let mut stack: MemStack<C64> = MemStack::new(req);
        let mut inv = Mat::zeros(n, n);
        faer::qr::no_pivoting::inverse::invert(
            &mut inv,
            &qr,
            &householder_factor,
            Parallelism::Sequential,
            &mut stack,
        );

        let eye = cmat_mul(&inv, &mat);
        assert!(cmax_abs_diff(&eye, &Mat::identity(n, n)) < 1e-8);
    }
}

#[test]
fn test_complex_llt_solve() {
    // Hermitian positive definite complex system through the Cholesky handle.
    let mut rng = Rng(36);
    for n in [1usize, 2, 5, 13, 33] {
        let a0 = random_cmat(&mut rng, n, n);
        let ah = a0.adjoint();
        let mut a = cmat_mul(&a0, &ah);
        for i in 0..n {
            let d = a.read(i, i);
            a.write(i, i, Complex::new(F64(d.re.0 + n as f64 + 1.0), F64(0.0)));
        }
        let rhs = random_cmat(&mut rng, n, 2);
        let llt = faer::solvers::Llt::new(&a, faer::Side::Lower).unwrap();
        let x = llt.solve(&rhs);
        let ax = cmat_mul(&a, &x);
        assert!(cmax_abs_diff(&ax, &rhs) < 1e-7);

        let back = llt.reconstruct();
        assert!(cmax_abs_diff(&back, &a) < 1e-8 * (n as f64 + 1.0));
    }
}

#[test]
fn test_eigen_cplx() {
    let mut rng = Rng(37);
    let n = 50usize;
    let a = random_cmat(&mut rng, n, n);
    let eigen = faer::solvers::eigen(&a).unwrap();
    let u = eigen.U();
    let s = eigen.S();
    for k in 0..n {
        for i in 0..n {
            let mut lhs = C64::faer_zero();
            for j in 0..n {
                lhs = lhs.faer_add(a.read(i, j).faer_mul(u.read(j, k)));
            }
            let rhs = s[k].faer_mul(u.read(i, k));
            let d = lhs.faer_sub(rhs);
            assert!((d.re.0 * d.re.0 + d.im.0 * d.im.0).sqrt() < 1e-7);
        }
    }
}

#[test]
fn lib_test_cplx_identity() {
    for n in [2usize, 3, 10, 15, 25] {
        let a: Mat<C64> = Mat::identity(n, n);
        let eigen = faer::solvers::eigen(&a).unwrap();
        for k in 0..n {
            assert!((eigen.S()[k].re.0 - 1.0).abs() < 1e-12);
            assert!(eigen.S()[k].im.0.abs() < 1e-12);
        }
    }
}

#[test]
fn lib_test_cplx_zero() {
    for n in [2usize, 3, 10, 15, 25] {
        let a: Mat<C64> = Mat::zeros(n, n);
        let eigen = faer::solvers::eigen(&a).unwrap();
        for k in 0..n {
            assert!(eigen.S()[k].re.0.abs() < 1e-12);
            assert!(eigen.S()[k].im.0.abs() < 1e-12);
        }
    }
}

#[test]
fn test_complex_eigenvalues_only() {
    let mut rng = Rng(38);
    let n = 10usize;
    let a = random_cmat(&mut rng, n, n);
    let vals = faer::solvers::eigenvalues(&a).unwrap();
    let eig = faer::solvers::eigen(&a).unwrap();
    for i in 0..n {
        let d = vals[i].faer_sub(eig.S()[i]);
        assert!((d.re.0 * d.re.0 + d.im.0 * d.im.0).sqrt() < 1e-10);
    }
}
