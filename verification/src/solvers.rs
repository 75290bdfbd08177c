//! Decomposition handles: each owns the factors of one decomposition of a
//! matrix and solves linear systems, reconstructs the matrix, or inverts it
//! through the core kernels.

use vstd::prelude::*;
use crate::complex_native::Complex;
use crate::mat::Mat;
use crate::matmul::matmul_with_conj;
use crate::perm::{permute_rows, Perm};
use crate::scalar::{ComplexField, RealField};
use crate::stack::{MemStack, StackReq};
use crate::{Conj, EvdError, LdltError, LltError, Parallelism, Side, SvdError};

verus! {

/// The default fork-join budget of the handles.
fn handle_parallelism() -> Parallelism {
    Parallelism::Sequential
}

/// The shape of the decomposed matrix.
pub trait ShapeCore {
    /// The number of rows of the decomposed matrix, at the specification
    /// level.
    spec fn spec_nrows(&self) -> nat;

    /// The number of columns of the decomposed matrix, at the specification
    /// level.
    spec fn spec_ncols(&self) -> nat;

    /// Well-formedness of the stored factors.
    spec fn factors_wf(&self) -> bool;

    /// The number of rows of the decomposed matrix.
    fn nrows(&self) -> (r: usize)
        requires
            self.factors_wf(),
        ensures
            r == self.spec_nrows(),
    ;

    /// The number of columns of the decomposed matrix.
    fn ncols(&self) -> (r: usize)
        requires
            self.factors_wf(),
        ensures
            r == self.spec_ncols(),
    ;
}

/// Solves square systems against the decomposed matrix.
pub trait SolveCore<E: ComplexField>: ShapeCore {
    /// Solves `op(A) × X = rhs` in place over `rhs`; the decomposed matrix
    /// must be square.
    fn solve_in_place_with_conj(&self, conj: Conj, rhs: &mut Mat<E>)
        requires
            self.factors_wf(),
            self.spec_nrows() == self.spec_ncols(),
            old(rhs).wf(),
            old(rhs).spec_nrows() == self.spec_ncols(),
            self.spec_ncols() * old(rhs).spec_ncols() <= usize::MAX,
            64 * old(rhs).spec_ncols() <= usize::MAX,
        ensures
            final(rhs).wf(),
            final(rhs).same_shape(old(rhs)),
    ;

    /// Solves `op(A)ᵀ × X = rhs` in place over `rhs`; the decomposed matrix
    /// must be square.
    fn solve_transpose_in_place_with_conj(&self, conj: Conj, rhs: &mut Mat<E>)
        requires
            self.factors_wf(),
            self.spec_nrows() == self.spec_ncols(),
            old(rhs).wf(),
            old(rhs).spec_nrows() == self.spec_nrows(),
            self.spec_nrows() * old(rhs).spec_ncols() <= usize::MAX,
            64 * old(rhs).spec_ncols() <= usize::MAX,
        ensures
            final(rhs).wf(),
            final(rhs).same_shape(old(rhs)),
    ;
}

/// Solves least squares problems against the decomposed matrix.
pub trait SolveLstsqCore<E: ComplexField>: ShapeCore {
    /// Solves the least squares problem `min ‖A × X - rhs‖` in place over the
    /// leading rows of `rhs`.
    fn solve_lstsq_in_place_with_conj(&self, conj: Conj, rhs: &mut Mat<E>)
        requires
            self.factors_wf(),
            old(rhs).wf(),
            old(rhs).spec_nrows() == self.spec_nrows(),
            self.spec_nrows() * old(rhs).spec_ncols() <= usize::MAX,
            64 * old(rhs).spec_ncols() <= usize::MAX,
        ensures
            final(rhs).wf(),
            final(rhs).same_shape(old(rhs)),
    ;
}

/// Reconstructs and inverts the decomposed matrix.
pub trait DenseSolveCore<E: ComplexField>: SolveCore<E> {
    /// The product of the stored factors: the decomposed matrix, up to the
    /// accuracy of the decomposition.
    fn reconstruct(&self) -> (r: Mat<E>)
        requires
            self.factors_wf(),
            64 * self.spec_nrows() <= usize::MAX,
            64 * self.spec_ncols() <= usize::MAX,
        ensures
            r.wf(),
            r.spec_nrows() == self.spec_nrows(),
            r.spec_ncols() == self.spec_ncols(),
    ;

    /// The inverse of the decomposed matrix.
    fn inverse(&self) -> (r: Mat<E>)
        requires
            self.factors_wf(),
            self.spec_nrows() == self.spec_ncols(),
            self.spec_nrows() * self.spec_nrows() <= usize::MAX,
            64 * self.spec_nrows() <= usize::MAX,
        ensures
            r.wf(),
            r.spec_nrows() == self.spec_nrows(),
            r.spec_ncols() == self.spec_ncols(),
    ;
}

/// Convenience solves over owned right-hand sides.
pub trait Solve<E: ComplexField>: SolveCore<E> {
    /// Solves `A × X = rhs` in place over `rhs`.
    fn solve_in_place(&self, rhs: &mut Mat<E>)
        requires
            self.factors_wf(),
            self.spec_nrows() == self.spec_ncols(),
            old(rhs).wf(),
            old(rhs).spec_nrows() == self.spec_ncols(),
            self.spec_ncols() * old(rhs).spec_ncols() <= usize::MAX,
            64 * old(rhs).spec_ncols() <= usize::MAX,
        ensures
            final(rhs).wf(),
            final(rhs).same_shape(old(rhs)),
    {
        self.solve_in_place_with_conj(Conj::No, rhs);
    }

    /// Solves `Aᵀ × X = rhs` in place over `rhs`.
    fn solve_transpose_in_place(&self, rhs: &mut Mat<E>)
        requires
            self.factors_wf(),
            self.spec_nrows() == self.spec_ncols(),
            old(rhs).wf(),
            old(rhs).spec_nrows() == self.spec_nrows(),
            self.spec_nrows() * old(rhs).spec_ncols() <= usize::MAX,
            64 * old(rhs).spec_ncols() <= usize::MAX,
        ensures
            final(rhs).wf(),
            final(rhs).same_shape(old(rhs)),
    {
        self.solve_transpose_in_place_with_conj(Conj::No, rhs);
    }

    /// Returns the solution of `A × X = rhs`.
    fn solve(&self, rhs: &Mat<E>) -> (r: Mat<E>)
        requires
            self.factors_wf(),
            self.spec_nrows() == self.spec_ncols(),
            rhs.wf(),
            rhs.spec_nrows() == self.spec_ncols(),
            self.spec_ncols() * rhs.spec_ncols() <= usize::MAX,
            64 * rhs.spec_ncols() <= usize::MAX,
        ensures
            r.wf(),
            r.same_shape(rhs),
    {
        let mut out = rhs.to_owned();
        self.solve_in_place_with_conj(Conj::No, &mut out);
        out
    }

    /// Returns the solution of `Aᵀ × X = rhs`.
    fn solve_transpose(&self, rhs: &Mat<E>) -> (r: Mat<E>)
        requires
            self.factors_wf(),
            self.spec_nrows() == self.spec_ncols(),
            rhs.wf(),
            rhs.spec_nrows() == self.spec_nrows(),
            self.spec_nrows() * rhs.spec_ncols() <= usize::MAX,
            64 * rhs.spec_ncols() <= usize::MAX,
        ensures
            r.wf(),
            r.same_shape(rhs),
    {
        let mut out = rhs.to_owned();
        self.solve_transpose_in_place_with_conj(Conj::No, &mut out);
        out
    }
}

/// Convenience least squares solves.
pub trait SolveLstsq<E: ComplexField>: SolveLstsqCore<E> {
    /// Solves the least squares problem in place over the leading rows of
    /// `rhs`.
    fn solve_lstsq_in_place(&self, rhs: &mut Mat<E>)
        requires
            self.factors_wf(),
            old(rhs).wf(),
            old(rhs).spec_nrows() == self.spec_nrows(),
            self.spec_nrows() * old(rhs).spec_ncols() <= usize::MAX,
            64 * old(rhs).spec_ncols() <= usize::MAX,
        ensures
            final(rhs).wf(),
            final(rhs).same_shape(old(rhs)),
    {
        self.solve_lstsq_in_place_with_conj(Conj::No, rhs);
    }
}

/// Convenience reconstruction.
pub trait DenseSolve<E: ComplexField>: DenseSolveCore<E> {
}

/// The Cholesky decomposition `A = L Lᴴ` of a positive definite self-adjoint
/// matrix.
pub struct Llt<E> {
    l_factor: Mat<E>,
}

/// The diagonal Cholesky decomposition `A = L D Lᴴ` of a self-adjoint matrix.
pub struct Ldlt<E> {
    l_factor: Mat<E>,
    d_factor: Vec<E>,
}

/// The Bunch–Kaufman decomposition `P A Pᵀ = L B Lᴴ` of a self-adjoint
/// matrix.
pub struct Lblt<E> {
    l_factor: Mat<E>,
    b_diag: Vec<E>,
    b_subdiag: Vec<E>,
    perm: Perm,
}

/// The LU decomposition with row pivoting.
pub struct PartialPivLu<E> {
    l_factor: Mat<E>,
    u_factor: Mat<E>,
    perm: Perm,
}

/// The LU decomposition with full pivoting.
pub struct FullPivLu<E> {
    l_factor: Mat<E>,
    u_factor: Mat<E>,
    row_perm: Perm,
    col_perm: Perm,
}

/// The QR decomposition.
pub struct Qr<E> {
    q_basis: Mat<E>,
    q_coeff: Mat<E>,
    r_factor: Mat<E>,
}

/// The QR decomposition with column pivoting.
pub struct ColPivQr<E> {
    q_basis: Mat<E>,
    q_coeff: Mat<E>,
    r_factor: Mat<E>,
    perm: Perm,
}

/// The singular value decomposition.
pub struct Svd<E> {
    u_factor: Mat<E>,
    v_factor: Mat<E>,
    s_values: Vec<E>,
}

/// The eigenvalue decomposition of a self-adjoint matrix.
pub struct SelfAdjointEigen<E> {
    u_factor: Mat<E>,
    s_values: Vec<E>,
}

/// The eigenvalue decomposition of a real matrix, with complex eigenvalues
/// and eigenvectors.
pub struct Eigen<E> {
    u_factor: Mat<Complex<E>>,
    s_values: Vec<Complex<E>>,
}

/// Copies the requested self-adjoint half of `a` into a full working matrix:
/// the lower half as stored, or the adjoint of the stored upper half.
fn gather_self_adjoint<E: ComplexField>(a: &Mat<E>, side: Side) -> (r: Mat<E>)
    requires
        a.wf(),
        a.spec_nrows() == a.spec_ncols(),
    ensures
        r.wf(),
        r.spec_nrows() == a.spec_nrows(),
        r.spec_ncols() == a.spec_nrows(),
{
    let n = a.nrows();
    let mut l = Mat::zeros(n, n);
    match side {
        Side::Lower => {
            l.copy_from_triangular_lower(a);
        },
        Side::Upper => {
            let adj = a.adjoint();
            l.copy_from_triangular_lower(&adj);
        },
    }
    l
}

impl<E: ComplexField> Llt<E> {
    /// Computes the Cholesky decomposition of `A`, reading the given
    /// triangular half.
    pub fn new(a: &Mat<E>, side: Side) -> (r: Result<Llt<E>, LltError>)
        requires
            a.wf(),
            a.spec_nrows() == a.spec_ncols(),
        ensures
            r matches Ok(llt) ==> llt.factors_wf() && llt.spec_nrows() == a.spec_nrows()
                && llt.spec_ncols() == a.spec_nrows(),
            a.spec_nrows() == 0 ==> r is Ok,
    {
        let mut l = gather_self_adjoint(a, side);
        let req = match crate::cholesky::llt::cholesky_in_place_req(
            a.nrows(),
            handle_parallelism(),
            crate::cholesky::llt::LltParams {},
        ) {
            Ok(req) => req,
            Err(_) => {
                return Err(LltError);
            },
        };
        let mut stack: MemStack<E> = MemStack::new(req);
        match crate::cholesky::llt::cholesky_in_place(
            &mut l,
            crate::cholesky::llt::LltRegularization {
                dynamic_regularization_delta: E::faer_zero(),
                dynamic_regularization_epsilon: E::faer_zero(),
            },
            handle_parallelism(),
            &mut stack,
            crate::cholesky::llt::LltParams {},
        ) {
            Ok(_) => {},
            Err(e) => {
                return Err(e);
            },
        }
        // Zero the untouched strictly upper half of the factor.
        let n = l.nrows();
        let mut j: usize = 1;
        while j < n
            invariant
                l.wf(),
                l.spec_nrows() == n,
                l.spec_ncols() == n,
                1 <= j,
                j <= n || j == 1,
            decreases n - j,
        {
            let mut i: usize = 0;
            while i < j
                invariant
                    l.wf(),
                    l.spec_nrows() == n,
                    l.spec_ncols() == n,
                    j < n,
                    i <= j,
                decreases j - i,
            {
                l.write(i, j, E::faer_zero());
                i += 1;
            }
            j += 1;
        }
        Ok(Llt { l_factor: l })
    }

    /// The lower triangular factor.
    pub fn L(&self) -> (r: &Mat<E>)
        requires
            self.factors_wf(),
        ensures
            r.wf(),
            r.spec_nrows() == self.spec_nrows(),
            r.spec_ncols() == self.spec_nrows(),
    {
        &self.l_factor
    }
}

impl<E: ComplexField> ShapeCore for Llt<E> {
    closed spec fn spec_nrows(&self) -> nat {
        self.l_factor.spec_nrows()
    }

    closed spec fn spec_ncols(&self) -> nat {
        self.l_factor.spec_nrows()
    }

    closed spec fn factors_wf(&self) -> bool {
        self.l_factor.wf() && self.l_factor.spec_nrows() == self.l_factor.spec_ncols()
    }

    fn nrows(&self) -> usize {
        self.l_factor.nrows()
    }

    fn ncols(&self) -> usize {
        self.l_factor.nrows()
    }
}

impl<E: ComplexField> SolveCore<E> for Llt<E> {
    fn solve_in_place_with_conj(&self, conj: Conj, rhs: &mut Mat<E>) {
        crate::solve::solve_lower_triangular_in_place_with_conj(
            &self.l_factor,
            conj,
            rhs,
            handle_parallelism(),
        );
        let lh = self.l_factor.adjoint();
        crate::solve::solve_upper_triangular_in_place_with_conj(
            &lh,
            conj,
            rhs,
            handle_parallelism(),
        );
    }

    fn solve_transpose_in_place_with_conj(&self, conj: Conj, rhs: &mut Mat<E>) {
        self.solve_in_place_with_conj(conj.compose(Conj::Yes), rhs);
    }
}

impl<E: ComplexField> DenseSolveCore<E> for Llt<E> {
    fn reconstruct(&self) -> Mat<E> {
        let n = self.l_factor.nrows();
        let mut r = Mat::zeros(n, n);
        let lh = self.l_factor.adjoint();
        matmul_with_conj(
            &mut r,
            &self.l_factor,
            Conj::No,
            &lh,
            Conj::No,
            None,
            E::faer_one(),
            handle_parallelism(),
        );
        r
    }

    fn inverse(&self) -> Mat<E> {
        let n = self.l_factor.nrows();
        let mut r = Mat::identity(n, n);
        self.solve_in_place_with_conj(Conj::No, &mut r);
        r
    }
}

impl<E: ComplexField> Ldlt<E> {
    /// Computes the diagonal Cholesky decomposition of `A`, reading the given
    /// triangular half. Reports an error when a pivot of the diagonal factor
    /// is exactly zero, or when the scratch size overflows.
    pub fn new(a: &Mat<E>, side: Side) -> (r: Result<Ldlt<E>, LdltError>)
        requires
            a.wf(),
            a.spec_nrows() == a.spec_ncols(),
        ensures
            r matches Ok(f) ==> f.factors_wf() && f.spec_nrows() == a.spec_nrows()
                && f.spec_ncols() == a.spec_nrows(),
            a.spec_nrows() == 0 ==> r is Ok,
    {
        let mut l = gather_self_adjoint(a, side);
        let n = l.nrows();
        let req = match crate::cholesky::ldlt_diagonal::raw_cholesky_in_place_req(
            n,
            handle_parallelism(),
            crate::cholesky::ldlt_diagonal::LdltDiagParams {},
        ) {
            Ok(req) => req,
            Err(_) => {
                proof {
                    assert(n != 0) by (nonlinear_arith)
                        requires
                            !(n * n <= usize::MAX),
                    ;
                }
                return Err(LdltError);
            },
        };
        let mut stack: MemStack<E> = MemStack::new(req);
        crate::cholesky::ldlt_diagonal::raw_cholesky_in_place(
            &mut l,
            handle_parallelism(),
            &mut stack,
            crate::cholesky::ldlt_diagonal::LdltDiagParams {},
        );
        // Extract the diagonal and normalize the unit triangular factor; a
        // diagonal entry that cannot be inverted fails the decomposition.
        let d = l.diagonal();
        let mut q: usize = 0;
        while q < d.len()
            invariant
                q <= d@.len(),
                d@.len() == a.spec_nrows(),
            decreases d@.len() - q,
        {
            if d[q].faer_is_zero() {
                return Err(LdltError);
            }
            q += 1;
        }
        let mut j: usize = 0;
        while j < n
            invariant
                l.wf(),
                l.spec_nrows() == n,
                l.spec_ncols() == n,
                j <= n,
            decreases n - j,
        {
            l.write(j, j, E::faer_one());
            let mut i: usize = 0;
            while i < j
                invariant
                    l.wf(),
                    l.spec_nrows() == n,
                    l.spec_ncols() == n,
                    j < n,
                    i <= j,
                decreases j - i,
            {
                l.write(i, j, E::faer_zero());
                i += 1;
            }
            j += 1;
        }
        Ok(Ldlt { l_factor: l, d_factor: d })
    }

    /// The unit lower triangular factor.
    pub fn L(&self) -> (r: &Mat<E>)
        requires
            self.factors_wf(),
        ensures
            r.wf(),
            r.spec_nrows() == self.spec_nrows(),
            r.spec_ncols() == self.spec_nrows(),
    {
        &self.l_factor
    }

    /// The entries of the real diagonal factor.
    pub fn D(&self) -> (r: &Vec<E>)
        requires
            self.factors_wf(),
        ensures
            r@.len() == self.spec_nrows(),
    {
        &self.d_factor
    }
}

impl<E: ComplexField> ShapeCore for Ldlt<E> {
    closed spec fn spec_nrows(&self) -> nat {
        self.l_factor.spec_nrows()
    }

    closed spec fn spec_ncols(&self) -> nat {
        self.l_factor.spec_nrows()
    }

    closed spec fn factors_wf(&self) -> bool {
        &&& self.l_factor.wf()
        &&& self.l_factor.spec_nrows() == self.l_factor.spec_ncols()
        &&& self.d_factor@.len() == self.l_factor.spec_nrows()
    }

    fn nrows(&self) -> usize {
        self.l_factor.nrows()
    }

    fn ncols(&self) -> usize {
        self.l_factor.nrows()
    }
}

impl<E: ComplexField> SolveCore<E> for Ldlt<E> {
    fn solve_in_place_with_conj(&self, conj: Conj, rhs: &mut Mat<E>) {
        let n = self.l_factor.nrows();
        let k = rhs.ncols();
        crate::solve::solve_unit_lower_triangular_in_place_with_conj(
            &self.l_factor,
            conj,
            rhs,
            handle_parallelism(),
        );
        let mut i: usize = 0;
        while i < n
            invariant
                rhs.wf(),
                rhs.same_shape(old(rhs)),
                rhs.spec_nrows() == n,
                rhs.spec_ncols() == k,
                self.d_factor@.len() == n,
                i <= n,
            decreases n - i,
        {
            let d_inv = self.d_factor[i].faer_real().faer_inv();
            let mut j: usize = 0;
            while j < k
                invariant
                    rhs.wf(),
                    rhs.same_shape(old(rhs)),
                    rhs.spec_nrows() == n,
                    rhs.spec_ncols() == k,
                    i < n,
                    j <= k,
                decreases k - j,
            {
                let v = rhs.read(i, j).faer_scale_real(d_inv);
                rhs.write(i, j, v);
                j += 1;
            }
            i += 1;
        }
        let lh = self.l_factor.adjoint();
        crate::solve::solve_unit_upper_triangular_in_place_with_conj(
            &lh,
            conj,
            rhs,
            handle_parallelism(),
        );
    }

    fn solve_transpose_in_place_with_conj(&self, conj: Conj, rhs: &mut Mat<E>) {
        self.solve_in_place_with_conj(conj.compose(Conj::Yes), rhs);
    }
}

impl<E: ComplexField> DenseSolveCore<E> for Ldlt<E> {
    fn reconstruct(&self) -> Mat<E> {
        let n = self.l_factor.nrows();
        // L × D
        let mut ld = self.l_factor.to_owned();
        let mut j: usize = 0;
        while j < n
            invariant
                ld.wf(),
                ld.spec_nrows() == n,
                ld.spec_ncols() == n,
                self.factors_wf(),
                self.l_factor.spec_nrows() == n,
                j <= n,
            decreases n - j,
        {
            let d = self.d_factor[j];
            let mut i: usize = 0;
            while i < n
                invariant
                    ld.wf(),
                    ld.spec_nrows() == n,
                    ld.spec_ncols() == n,
                    j < n,
                    i <= n,
                decreases n - i,
            {
                let v = ld.read(i, j).faer_mul(d);
                ld.write(i, j, v);
                i += 1;
            }
            j += 1;
        }
        let mut r = Mat::zeros(n, n);
        let lh = self.l_factor.adjoint();
        matmul_with_conj(
            &mut r,
            &ld,
            Conj::No,
            &lh,
            Conj::No,
            None,
            E::faer_one(),
            handle_parallelism(),
        );
        r
    }

    fn inverse(&self) -> Mat<E> {
        let n = self.l_factor.nrows();
        let mut r = Mat::identity(n, n);
        self.solve_in_place_with_conj(Conj::No, &mut r);
        r
    }
}

impl<E: ComplexField> Lblt<E> {
    /// Computes the Bunch–Kaufman decomposition of `A`, reading the given
    /// triangular half.
    pub fn new(a: &Mat<E>, side: Side) -> (r: Lblt<E>)
        requires
            a.wf(),
            a.spec_nrows() == a.spec_ncols(),
        ensures
            r.factors_wf(),
            r.spec_nrows() == a.spec_nrows(),
            r.spec_ncols() == a.spec_nrows(),
    {
        let mut l = gather_self_adjoint(a, side);
        let n = l.nrows();
        let mut subdiag = Mat::zeros(n, 1);

        // The blocked path is taken only when its work panel fits; otherwise
        // the unblocked path, which needs no scratch, is used.
        let default_bs: usize = 64;
        let params = match crate::stack::checked_mul(n, default_bs) {
            Some(_) => crate::cholesky::bunch_kaufman::BunchKaufmanParams {
                pivoting: crate::cholesky::bunch_kaufman::PivotingStrategy::Diagonal,
                blocksize: default_bs,
            },
            _ => crate::cholesky::bunch_kaufman::BunchKaufmanParams {
                pivoting: crate::cholesky::bunch_kaufman::PivotingStrategy::Diagonal,
                blocksize: 0,
            },
        };
        let use_blocked = params.blocksize >= 2 && n > params.blocksize;
        let mut stack: MemStack<E> = if use_blocked {
            MemStack::new(StackReq::new(n * params.blocksize))
        } else {
            MemStack::new(StackReq::new(0))
        };
        let perm = crate::cholesky::bunch_kaufman::cholesky_in_place(
            &mut l,
            &mut subdiag,
            handle_parallelism(),
            &mut stack,
            params,
        );

        let b_diag = l.diagonal();
        let b_subdiag = subdiag.col(0);
        // Normalize the unit triangular factor.
        let mut j: usize = 0;
        while j < n
            invariant
                l.wf(),
                l.spec_nrows() == n,
                l.spec_ncols() == n,
                j <= n,
            decreases n - j,
        {
            l.write(j, j, E::faer_one());
            let mut i: usize = 0;
            while i < j
                invariant
                    l.wf(),
                    l.spec_nrows() == n,
                    l.spec_ncols() == n,
                    j < n,
                    i <= j,
                decreases j - i,
            {
                l.write(i, j, E::faer_zero());
                i += 1;
            }
            j += 1;
        }
        Lblt { l_factor: l, b_diag, b_subdiag, perm }
    }

    /// The unit lower triangular factor.
    pub fn L(&self) -> (r: &Mat<E>)
        requires
            self.factors_wf(),
        ensures
            r.wf(),
            r.spec_nrows() == self.spec_nrows(),
            r.spec_ncols() == self.spec_nrows(),
    {
        &self.l_factor
    }

    /// The diagonal of the block diagonal factor.
    pub fn B_diag(&self) -> (r: &Vec<E>)
        requires
            self.factors_wf(),
        ensures
            r@.len() == self.spec_nrows(),
    {
        &self.b_diag
    }

    /// The subdiagonal of the block diagonal factor: nonzero entries mark
    /// two-by-two blocks.
    pub fn B_subdiag(&self) -> (r: &Vec<E>)
        requires
            self.factors_wf(),
        ensures
            r@.len() == self.spec_nrows(),
    {
        &self.b_subdiag
    }

    /// The permutation of the decomposition.
    pub fn P(&self) -> (r: &Perm)
        requires
            self.factors_wf(),
        ensures
            r.wf(),
            r.spec_len() == self.spec_nrows(),
    {
        &self.perm
    }
}

impl<E: ComplexField> ShapeCore for Lblt<E> {
    closed spec fn spec_nrows(&self) -> nat {
        self.l_factor.spec_nrows()
    }

    closed spec fn spec_ncols(&self) -> nat {
        self.l_factor.spec_nrows()
    }

    closed spec fn factors_wf(&self) -> bool {
        &&& self.l_factor.wf()
        &&& self.l_factor.spec_nrows() == self.l_factor.spec_ncols()
        &&& self.b_diag@.len() == self.l_factor.spec_nrows()
        &&& self.b_subdiag@.len() == self.l_factor.spec_nrows()
        &&& self.perm.wf()
        &&& self.perm.spec_len() == self.l_factor.spec_nrows()
    }

    fn nrows(&self) -> usize {
        self.l_factor.nrows()
    }

    fn ncols(&self) -> usize {
        self.l_factor.nrows()
    }
}

impl<E: ComplexField> SolveCore<E> for Lblt<E> {
    fn solve_in_place_with_conj(&self, conj: Conj, rhs: &mut Mat<E>) {
        let n = self.l_factor.nrows();
        let k = rhs.ncols();
        // Rebuild the factor storage that the solve kernel expects: the block
        // diagonal on the diagonal and the subdiagonal column aside.
        let mut factors = self.l_factor.to_owned();
        let mut subdiag = Mat::zeros(n, 1);
        let mut i: usize = 0;
        while i < n
            invariant
                factors.wf(),
                factors.spec_nrows() == n,
                factors.spec_ncols() == n,
                subdiag.wf(),
                subdiag.spec_nrows() == n,
                subdiag.spec_ncols() == 1,
                self.factors_wf(),
                self.l_factor.spec_nrows() == n,
                i <= n,
            decreases n - i,
        {
            factors.write(i, i, self.b_diag[i]);
            subdiag.write(i, 0, self.b_subdiag[i]);
            i += 1;
        }
        let mut stack: MemStack<E> = MemStack::new(StackReq::new(n * k));
        crate::cholesky::bunch_kaufman::solve_in_place_with_conj(
            &factors,
            &subdiag,
            conj,
            &self.perm,
            rhs,
            handle_parallelism(),
            &mut stack,
        );
    }

    fn solve_transpose_in_place_with_conj(&self, conj: Conj, rhs: &mut Mat<E>) {
        self.solve_in_place_with_conj(conj.compose(Conj::Yes), rhs);
    }
}

impl<E: ComplexField> DenseSolveCore<E> for Lblt<E> {
    fn reconstruct(&self) -> Mat<E> {
        let n = self.l_factor.nrows();
        // The block diagonal factor.
        let mut b = Mat::zeros(n, n);
        let mut i: usize = 0;
        while i < n
            invariant
                b.wf(),
                b.spec_nrows() == n,
                b.spec_ncols() == n,
                self.factors_wf(),
                self.l_factor.spec_nrows() == n,
                i <= n,
            decreases n - i,
        {
            b.write(i, i, self.b_diag[i]);
            if i + 1 < n {
                let sub = self.b_subdiag[i];
                if !sub.faer_is_zero() {
                    b.write(i + 1, i, sub);
                    b.write(i, i + 1, sub.faer_conj());
                }
            }
            i += 1;
        }
        // L × B × Lᴴ, then the permutation undone on both sides.
        let mut lb = Mat::zeros(n, n);
        matmul_with_conj(
            &mut lb,
            &self.l_factor,
            Conj::No,
            &b,
            Conj::No,
            None,
            E::faer_one(),
            handle_parallelism(),
        );
        let lh = self.l_factor.adjoint();
        let mut lblh = Mat::zeros(n, n);
        matmul_with_conj(
            &mut lblh,
            &lb,
            Conj::No,
            &lh,
            Conj::No,
            None,
            E::faer_one(),
            handle_parallelism(),
        );
        // A = Pᵀ (L B Lᴴ) P: gather rows and columns through the inverse.
        let mut rows_done = Mat::zeros(n, n);
        let inv = self.perm.inverse();
        permute_rows(&mut rows_done, &lblh, &inv);
        let rows_done_t = rows_done.transpose();
        let mut both = Mat::zeros(n, n);
        permute_rows(&mut both, &rows_done_t, &inv);
        both.transpose()
    }

    fn inverse(&self) -> Mat<E> {
        let n = self.l_factor.nrows();
        let mut r = Mat::identity(n, n);
        self.solve_in_place_with_conj(Conj::No, &mut r);
        r
    }
}

impl<E: ComplexField> PartialPivLu<E> {
    /// Computes the row-pivoted LU decomposition of `A`, of any shape.
    pub fn new(a: &Mat<E>) -> (r: PartialPivLu<E>)
        requires
            a.wf(),
        ensures
            r.factors_wf(),
            r.spec_nrows() == a.spec_nrows(),
            r.spec_ncols() == a.spec_ncols(),
    {
        let m = a.nrows();
        let n = a.ncols();
        let size = if m < n {
            m
        } else {
            n
        };
        let mut lu = a.to_owned();
        let perm = crate::lu::partial_pivoting::lu_in_place(&mut lu, handle_parallelism());
        let mut l = Mat::identity(m, size);
        let panel = lu.subcols(0, size);
        l.copy_from_strict_triangular_lower(&panel);
        let mut u = Mat::zeros(size, n);
        let top = lu.subrows(0, size);
        u.copy_from_triangular_upper(&top);
        PartialPivLu { l_factor: l, u_factor: u, perm }
    }

    /// The unit lower trapezoidal factor.
    pub fn L(&self) -> (r: &Mat<E>)
        requires
            self.factors_wf(),
        ensures
            r.wf(),
            r.spec_nrows() == self.spec_nrows(),
            r.spec_ncols() == vstd::math::min(
                self.spec_nrows() as int,
                self.spec_ncols() as int,
            ),
    {
        &self.l_factor
    }

    /// The upper trapezoidal factor.
    pub fn U(&self) -> (r: &Mat<E>)
        requires
            self.factors_wf(),
        ensures
            r.wf(),
            r.spec_nrows() == vstd::math::min(
                self.spec_nrows() as int,
                self.spec_ncols() as int,
            ),
            r.spec_ncols() == self.spec_ncols(),
    {
        &self.u_factor
    }

    /// The row permutation: gathering the rows of the decomposed matrix
    /// through it gives the product of the factors.
    pub fn P(&self) -> (r: &Perm)
        requires
            self.factors_wf(),
        ensures
            r.wf(),
            r.spec_len() == self.spec_nrows(),
    {
        &self.perm
    }
}

impl<E: ComplexField> ShapeCore for PartialPivLu<E> {
    closed spec fn spec_nrows(&self) -> nat {
        self.l_factor.spec_nrows()
    }

    closed spec fn spec_ncols(&self) -> nat {
        self.u_factor.spec_ncols()
    }

    closed spec fn factors_wf(&self) -> bool {
        &&& self.l_factor.wf()
        &&& self.u_factor.wf()
        &&& self.l_factor.spec_ncols() == vstd::math::min(
            self.l_factor.spec_nrows() as int,
            self.u_factor.spec_ncols() as int,
        )
        &&& self.u_factor.spec_nrows() == self.l_factor.spec_ncols()
        &&& self.perm.wf()
        &&& self.perm.spec_len() == self.l_factor.spec_nrows()
    }

    fn nrows(&self) -> usize {
        self.l_factor.nrows()
    }

    fn ncols(&self) -> usize {
        self.u_factor.ncols()
    }
}

impl<E: ComplexField> SolveCore<E> for PartialPivLu<E> {
    fn solve_in_place_with_conj(&self, conj: Conj, rhs: &mut Mat<E>) {
        let mut gathered = rhs.to_owned();
        permute_rows(&mut gathered, rhs, &self.perm);
        crate::solve::solve_unit_lower_triangular_in_place_with_conj(
            &self.l_factor,
            conj,
            &mut gathered,
            handle_parallelism(),
        );
        crate::solve::solve_upper_triangular_in_place_with_conj(
            &self.u_factor,
            conj,
            &mut gathered,
            handle_parallelism(),
        );
        rhs.copy_from(&gathered);
    }

    fn solve_transpose_in_place_with_conj(&self, conj: Conj, rhs: &mut Mat<E>) {
        let ut = self.u_factor.transpose();
        crate::solve::solve_lower_triangular_in_place_with_conj(
            &ut,
            conj,
            rhs,
            handle_parallelism(),
        );
        let lt = self.l_factor.transpose();
        crate::solve::solve_unit_upper_triangular_in_place_with_conj(
            &lt,
            conj,
            rhs,
            handle_parallelism(),
        );
        let inv = self.perm.inverse();
        let mut scattered = rhs.to_owned();
        permute_rows(&mut scattered, rhs, &inv);
        rhs.copy_from(&scattered);
    }
}

impl<E: ComplexField> DenseSolveCore<E> for PartialPivLu<E> {
    fn reconstruct(&self) -> Mat<E> {
        let m = self.l_factor.nrows();
        let n = self.u_factor.ncols();
        let mut lu = Mat::zeros(m, n);
        matmul_with_conj(
            &mut lu,
            &self.l_factor,
            Conj::No,
            &self.u_factor,
            Conj::No,
            None,
            E::faer_one(),
            handle_parallelism(),
        );
        let inv = self.perm.inverse();
        let mut r = Mat::zeros(m, n);
        permute_rows(&mut r, &lu, &inv);
        r
    }

    fn inverse(&self) -> Mat<E> {
        let n = self.l_factor.nrows();
        let mut r = Mat::identity(n, n);
        self.solve_in_place_with_conj(Conj::No, &mut r);
        r
    }
}

impl<E: ComplexField> FullPivLu<E> {
    /// Computes the fully pivoted LU decomposition of `A`, of any shape.
    pub fn new(a: &Mat<E>) -> (r: FullPivLu<E>)
        requires
            a.wf(),
        ensures
            r.factors_wf(),
            r.spec_nrows() == a.spec_nrows(),
            r.spec_ncols() == a.spec_ncols(),
    {
        let m = a.nrows();
        let n = a.ncols();
        let size = if m < n {
            m
        } else {
            n
        };
        let mut lu = a.to_owned();
        let (row_perm, col_perm) = crate::lu::full_pivoting::lu_in_place(
            &mut lu,
            handle_parallelism(),
        );
        let mut l = Mat::identity(m, size);
        let panel = lu.subcols(0, size);
        l.copy_from_strict_triangular_lower(&panel);
        let mut u = Mat::zeros(size, n);
        let top = lu.subrows(0, size);
        u.copy_from_triangular_upper(&top);
        FullPivLu { l_factor: l, u_factor: u, row_perm, col_perm }
    }

    /// The unit lower trapezoidal factor.
    pub fn L(&self) -> (r: &Mat<E>)
        requires
            self.factors_wf(),
        ensures
            r.wf(),
            r.spec_nrows() == self.spec_nrows(),
            r.spec_ncols() == vstd::math::min(
                self.spec_nrows() as int,
                self.spec_ncols() as int,
            ),
    {
        &self.l_factor
    }

    /// The upper trapezoidal factor.
    pub fn U(&self) -> (r: &Mat<E>)
        requires
            self.factors_wf(),
        ensures
            r.wf(),
            r.spec_nrows() == vstd::math::min(
                self.spec_nrows() as int,
                self.spec_ncols() as int,
            ),
            r.spec_ncols() == self.spec_ncols(),
    {
        &self.u_factor
    }

    /// The row permutation.
    pub fn P(&self) -> (r: &Perm)
        requires
            self.factors_wf(),
        ensures
            r.wf(),
            r.spec_len() == self.spec_nrows(),
    {
        &self.row_perm
    }

    /// The column permutation.
    pub fn Q(&self) -> (r: &Perm)
        requires
            self.factors_wf(),
        ensures
            r.wf(),
            r.spec_len() == self.spec_ncols(),
    {
        &self.col_perm
    }
}

impl<E: ComplexField> ShapeCore for FullPivLu<E> {
    closed spec fn spec_nrows(&self) -> nat {
        self.l_factor.spec_nrows()
    }

    closed spec fn spec_ncols(&self) -> nat {
        self.u_factor.spec_ncols()
    }

    closed spec fn factors_wf(&self) -> bool {
        &&& self.l_factor.wf()
        &&& self.u_factor.wf()
        &&& self.l_factor.spec_ncols() == vstd::math::min(
            self.l_factor.spec_nrows() as int,
            self.u_factor.spec_ncols() as int,
        )
        &&& self.u_factor.spec_nrows() == self.l_factor.spec_ncols()
        &&& self.row_perm.wf()
        &&& self.row_perm.spec_len() == self.l_factor.spec_nrows()
        &&& self.col_perm.wf()
        &&& self.col_perm.spec_len() == self.u_factor.spec_ncols()
    }

    fn nrows(&self) -> usize {
        self.l_factor.nrows()
    }

    fn ncols(&self) -> usize {
        self.u_factor.ncols()
    }
}

impl<E: ComplexField> SolveCore<E> for FullPivLu<E> {
    fn solve_in_place_with_conj(&self, conj: Conj, rhs: &mut Mat<E>) {
        let mut gathered = rhs.to_owned();
        permute_rows(&mut gathered, rhs, &self.row_perm);
        crate::solve::solve_unit_lower_triangular_in_place_with_conj(
            &self.l_factor,
            conj,
            &mut gathered,
            handle_parallelism(),
        );
        crate::solve::solve_upper_triangular_in_place_with_conj(
            &self.u_factor,
            conj,
            &mut gathered,
            handle_parallelism(),
        );
        let inv = self.col_perm.inverse();
        permute_rows(rhs, &gathered, &inv);
    }

    fn solve_transpose_in_place_with_conj(&self, conj: Conj, rhs: &mut Mat<E>) {
        let mut gathered = rhs.to_owned();
        permute_rows(&mut gathered, rhs, &self.col_perm);
        let ut = self.u_factor.transpose();
        crate::solve::solve_lower_triangular_in_place_with_conj(
            &ut,
            conj,
            &mut gathered,
            handle_parallelism(),
        );
        let lt = self.l_factor.transpose();
        crate::solve::solve_unit_upper_triangular_in_place_with_conj(
            &lt,
            conj,
            &mut gathered,
            handle_parallelism(),
        );
        let inv = self.row_perm.inverse();
        permute_rows(rhs, &gathered, &inv);
    }
}

impl<E: ComplexField> DenseSolveCore<E> for FullPivLu<E> {
    fn reconstruct(&self) -> Mat<E> {
        let m = self.l_factor.nrows();
        let n = self.u_factor.ncols();
        let mut lu = Mat::zeros(m, n);
        matmul_with_conj(
            &mut lu,
            &self.l_factor,
            Conj::No,
            &self.u_factor,
            Conj::No,
            None,
            E::faer_one(),
            handle_parallelism(),
        );
        let rinv = self.row_perm.inverse();
        let mut rows_done = Mat::zeros(m, n);
        permute_rows(&mut rows_done, &lu, &rinv);
        let cinv = self.col_perm.inverse();
        let t = rows_done.transpose();
        let mut cols_done = Mat::zeros(n, m);
        permute_rows(&mut cols_done, &t, &cinv);
        cols_done.transpose()
    }

    fn inverse(&self) -> Mat<E> {
        let n = self.l_factor.nrows();
        let mut r = Mat::identity(n, n);
        self.solve_in_place_with_conj(Conj::No, &mut r);
        r
    }
}

impl<E: ComplexField> Qr<E> {
    /// Computes the QR decomposition of `A`, of any shape.
    pub fn new(a: &Mat<E>) -> (r: Qr<E>)
        requires
            a.wf(),
        ensures
            r.factors_wf(),
            r.spec_nrows() == a.spec_nrows(),
            r.spec_ncols() == a.spec_ncols(),
    {
        let m = a.nrows();
        let n = a.ncols();
        let size = if m < n {
            m
        } else {
            n
        };
        let mut qr = a.to_owned();
        let bs = crate::qr::no_pivoting::compute::recommended_blocksize(m, n);
        let mut hf = Mat::zeros(bs, size);
        let mut stack: MemStack<E> = MemStack::new(StackReq::new(0));
        crate::qr::no_pivoting::compute::qr_in_place(
            &mut qr,
            &mut hf,
            handle_parallelism(),
            &mut stack,
            crate::qr::no_pivoting::compute::QrComputeParams {},
        );
        let mut r_mat = Mat::zeros(m, n);
        r_mat.copy_from_triangular_upper(&qr);
        let basis = qr.subcols(0, size);
        Qr { q_basis: basis, q_coeff: hf, r_factor: r_mat }
    }

    /// The reflector basis of the orthogonal factor, stored below the unit
    /// diagonal.
    pub fn Q_basis(&self) -> (r: &Mat<E>)
        requires
            self.factors_wf(),
        ensures
            r.wf(),
            r.spec_nrows() == self.spec_nrows(),
            r.spec_ncols() == vstd::math::min(
                self.spec_nrows() as int,
                self.spec_ncols() as int,
            ),
    {
        &self.q_basis
    }

    /// The upgraded block factors of the orthogonal factor.
    pub fn Q_coeff(&self) -> (r: &Mat<E>)
        requires
            self.factors_wf(),
        ensures
            r.wf(),
            r.spec_ncols() == vstd::math::min(
                self.spec_nrows() as int,
                self.spec_ncols() as int,
            ),
    {
        &self.q_coeff
    }

    /// The upper trapezoidal factor, embedded in the shape of the decomposed
    /// matrix with zeros below the diagonal.
    pub fn R(&self) -> (r: &Mat<E>)
        requires
            self.factors_wf(),
        ensures
            r.wf(),
            r.spec_nrows() == self.spec_nrows(),
            r.spec_ncols() == self.spec_ncols(),
    {
        &self.r_factor
    }
}

impl<E: ComplexField> ShapeCore for Qr<E> {
    closed spec fn spec_nrows(&self) -> nat {
        self.q_basis.spec_nrows()
    }

    closed spec fn spec_ncols(&self) -> nat {
        self.r_factor.spec_ncols()
    }

    closed spec fn factors_wf(&self) -> bool {
        &&& self.q_basis.wf()
        &&& self.q_coeff.wf()
        &&& self.r_factor.wf()
        &&& self.q_basis.spec_ncols() == vstd::math::min(
            self.q_basis.spec_nrows() as int,
            self.r_factor.spec_ncols() as int,
        )
        &&& 1 <= self.q_coeff.spec_nrows() <= 64
        &&& self.q_coeff.spec_ncols() == self.q_basis.spec_ncols()
        &&& self.r_factor.spec_nrows() == self.q_basis.spec_nrows()
    }

    fn nrows(&self) -> usize {
        self.q_basis.nrows()
    }

    fn ncols(&self) -> usize {
        self.r_factor.ncols()
    }
}

impl<E: ComplexField> SolveCore<E> for Qr<E> {
    fn solve_in_place_with_conj(&self, conj: Conj, rhs: &mut Mat<E>) {
        let k = rhs.ncols();
        let bs = self.q_coeff.nrows();
        proof {
            crate::svd::lemma_mul_le_svd(bs as int, 64, k as int);
        }
        let mut stack: MemStack<E> = MemStack::new(StackReq::new(bs * k));
        crate::householder::apply_block_householder_sequence_transpose_on_the_left_in_place_with_conj(
            &self.q_basis,
            &self.q_coeff,
            Conj::Yes.compose(conj),
            rhs,
            handle_parallelism(),
            &mut stack,
        );
        crate::solve::solve_upper_triangular_in_place_with_conj(
            &self.r_factor,
            conj,
            rhs,
            handle_parallelism(),
        );
    }

    fn solve_transpose_in_place_with_conj(&self, conj: Conj, rhs: &mut Mat<E>) {
        let k = rhs.ncols();
        let bs = self.q_coeff.nrows();
        let rt = self.r_factor.transpose();
        crate::solve::solve_lower_triangular_in_place_with_conj(
            &rt,
            conj,
            rhs,
            handle_parallelism(),
        );
        proof {
            crate::svd::lemma_mul_le_svd(bs as int, 64, k as int);
        }
        let mut stack: MemStack<E> = MemStack::new(StackReq::new(bs * k));
        crate::householder::apply_block_householder_sequence_on_the_left_in_place_with_conj(
            &self.q_basis,
            &self.q_coeff,
            Conj::Yes.compose(conj),
            rhs,
            handle_parallelism(),
            &mut stack,
        );
    }
}

impl<E: ComplexField> SolveLstsqCore<E> for Qr<E> {
    fn solve_lstsq_in_place_with_conj(&self, conj: Conj, rhs: &mut Mat<E>) {
        // The least squares solution of a full-rank tall system lands in the
        // leading rows of `rhs`: project with op(Q)ᴴ and solve against the top
        // square of the triangular factor.
        let k = rhs.ncols();
        let bs = self.q_coeff.nrows();
        let size = self.q_basis.ncols();
        proof {
            crate::svd::lemma_mul_le_svd(bs as int, 64, k as int);
        }
        let mut stack: MemStack<E> = MemStack::new(StackReq::new(bs * k));
        crate::householder::apply_block_householder_sequence_transpose_on_the_left_in_place_with_conj(
            &self.q_basis,
            &self.q_coeff,
            Conj::Yes.compose(conj),
            rhs,
            handle_parallelism(),
            &mut stack,
        );
        let r_top = self.r_factor.submatrix(0, 0, size, size);
        let mut rhs_top = rhs.submatrix(0, 0, size, k);
        crate::solve::solve_upper_triangular_in_place_with_conj(
            &r_top,
            conj,
            &mut rhs_top,
            handle_parallelism(),
        );
        rhs.write_block(0, 0, &rhs_top);
    }
}

impl<E: ComplexField> DenseSolveCore<E> for Qr<E> {
    fn reconstruct(&self) -> Mat<E> {
        let n = self.r_factor.ncols();
        let bs = self.q_coeff.nrows();
        let mut r = self.r_factor.to_owned();
        proof {
            crate::svd::lemma_mul_le_svd(bs as int, 64, n as int);
        }
        let mut stack: MemStack<E> = MemStack::new(StackReq::new(bs * n));
        crate::householder::apply_block_householder_sequence_on_the_left_in_place_with_conj(
            &self.q_basis,
            &self.q_coeff,
            Conj::No,
            &mut r,
            handle_parallelism(),
            &mut stack,
        );
        r
    }

    fn inverse(&self) -> Mat<E> {
        let n = self.q_basis.nrows();
        let mut r = Mat::identity(n, n);
        self.solve_in_place_with_conj(Conj::No, &mut r);
        r
    }
}

impl<E: ComplexField> ColPivQr<E> {
    /// Computes the column-pivoted QR decomposition of `A`, of any shape.
    pub fn new(a: &Mat<E>) -> (r: ColPivQr<E>)
        requires
            a.wf(),
        ensures
            r.factors_wf(),
            r.spec_nrows() == a.spec_nrows(),
            r.spec_ncols() == a.spec_ncols(),
    {
        let m = a.nrows();
        let n = a.ncols();
        let size = if m < n {
            m
        } else {
            n
        };
        let mut qr = a.to_owned();
        let bs = crate::qr::no_pivoting::compute::recommended_blocksize(m, n);
        let mut hf = Mat::zeros(bs, size);
        let mut stack: MemStack<E> = MemStack::new(StackReq::new(0));
        let perm = crate::qr::col_pivoting::compute::qr_in_place(
            &mut qr,
            &mut hf,
            handle_parallelism(),
            &mut stack,
            crate::qr::col_pivoting::compute::ColPivQrComputeParams {},
        );
        let mut r_mat = Mat::zeros(m, n);
        r_mat.copy_from_triangular_upper(&qr);
        let basis = qr.subcols(0, size);
        ColPivQr { q_basis: basis, q_coeff: hf, r_factor: r_mat, perm }
    }

    /// The reflector basis of the orthogonal factor, stored below the unit
    /// diagonal.
    pub fn Q_basis(&self) -> (r: &Mat<E>)
        requires
            self.factors_wf(),
        ensures
            r.wf(),
            r.spec_nrows() == self.spec_nrows(),
            r.spec_ncols() == vstd::math::min(
                self.spec_nrows() as int,
                self.spec_ncols() as int,
            ),
    {
        &self.q_basis
    }

    /// The upgraded block factors of the orthogonal factor.
    pub fn Q_coeff(&self) -> (r: &Mat<E>)
        requires
            self.factors_wf(),
        ensures
            r.wf(),
            r.spec_ncols() == vstd::math::min(
                self.spec_nrows() as int,
                self.spec_ncols() as int,
            ),
    {
        &self.q_coeff
    }

    /// The upper trapezoidal factor of the pivoted matrix, embedded in the
    /// shape of the decomposed matrix with zeros below the diagonal.
    pub fn R(&self) -> (r: &Mat<E>)
        requires
            self.factors_wf(),
        ensures
            r.wf(),
            r.spec_nrows() == self.spec_nrows(),
            r.spec_ncols() == self.spec_ncols(),
    {
        &self.r_factor
    }

    /// The column permutation.
    pub fn P(&self) -> (r: &Perm)
        requires
            self.factors_wf(),
        ensures
            r.wf(),
            r.spec_len() == self.spec_ncols(),
    {
        &self.perm
    }
}

impl<E: ComplexField> ShapeCore for ColPivQr<E> {
    closed spec fn spec_nrows(&self) -> nat {
        self.q_basis.spec_nrows()
    }

    closed spec fn spec_ncols(&self) -> nat {
        self.r_factor.spec_ncols()
    }

    closed spec fn factors_wf(&self) -> bool {
        &&& self.q_basis.wf()
        &&& self.q_coeff.wf()
        &&& self.r_factor.wf()
        &&& self.q_basis.spec_ncols() == vstd::math::min(
            self.q_basis.spec_nrows() as int,
            self.r_factor.spec_ncols() as int,
        )
        &&& 1 <= self.q_coeff.spec_nrows() <= 64
        &&& self.q_coeff.spec_ncols() == self.q_basis.spec_ncols()
        &&& self.r_factor.spec_nrows() == self.q_basis.spec_nrows()
        &&& self.perm.wf()
        &&& self.perm.spec_len() == self.r_factor.spec_ncols()
    }

    fn nrows(&self) -> usize {
        self.q_basis.nrows()
    }

    fn ncols(&self) -> usize {
        self.r_factor.ncols()
    }
}

impl<E: ComplexField> SolveCore<E> for ColPivQr<E> {
    fn solve_in_place_with_conj(&self, conj: Conj, rhs: &mut Mat<E>) {
        let k = rhs.ncols();
        let bs = self.q_coeff.nrows();
        proof {
            crate::svd::lemma_mul_le_svd(bs as int, 64, k as int);
        }
        let mut stack: MemStack<E> = MemStack::new(StackReq::new(bs * k));
        crate::householder::apply_block_householder_sequence_transpose_on_the_left_in_place_with_conj(
            &self.q_basis,
            &self.q_coeff,
            Conj::Yes.compose(conj),
            rhs,
            handle_parallelism(),
            &mut stack,
        );
        crate::solve::solve_upper_triangular_in_place_with_conj(
            &self.r_factor,
            conj,
            rhs,
            handle_parallelism(),
        );
        // Undo the column pivoting: the computed solution solves the pivoted
        // system.
        let inv = self.perm.inverse();
        let mut scattered = rhs.to_owned();
        permute_rows(&mut scattered, rhs, &inv);
        rhs.copy_from(&scattered);
    }

    fn solve_transpose_in_place_with_conj(&self, conj: Conj, rhs: &mut Mat<E>) {
        let k = rhs.ncols();
        let bs = self.q_coeff.nrows();
        let mut gathered = rhs.to_owned();
        permute_rows(&mut gathered, rhs, &self.perm);
        let rt = self.r_factor.transpose();
        crate::solve::solve_lower_triangular_in_place_with_conj(
            &rt,
            conj,
            &mut gathered,
            handle_parallelism(),
        );
        proof {
            crate::svd::lemma_mul_le_svd(bs as int, 64, k as int);
        }
        let mut stack: MemStack<E> = MemStack::new(StackReq::new(bs * k));
        crate::householder::apply_block_householder_sequence_on_the_left_in_place_with_conj(
            &self.q_basis,
            &self.q_coeff,
            Conj::Yes.compose(conj),
            &mut gathered,
            handle_parallelism(),
            &mut stack,
        );
        rhs.copy_from(&gathered);
    }
}

impl<E: ComplexField> SolveLstsqCore<E> for ColPivQr<E> {
    fn solve_lstsq_in_place_with_conj(&self, conj: Conj, rhs: &mut Mat<E>) {
        // Project with op(Q)ᴴ, solve the top square of the triangular factor,
        // and undo the column pivoting over the leading rows of the solution.
        // For a matrix with more columns than rows the solution keeps the
        // pivoted column order, since only the leading square is solved.
        let k = rhs.ncols();
        let bs = self.q_coeff.nrows();
        let size = self.q_basis.ncols();
        proof {
            crate::svd::lemma_mul_le_svd(bs as int, 64, k as int);
        }
        let mut stack: MemStack<E> = MemStack::new(StackReq::new(bs * k));
        crate::householder::apply_block_householder_sequence_transpose_on_the_left_in_place_with_conj(
            &self.q_basis,
            &self.q_coeff,
            Conj::Yes.compose(conj),
            rhs,
            handle_parallelism(),
            &mut stack,
        );
        let r_top = self.r_factor.submatrix(0, 0, size, size);
        let mut rhs_top = rhs.submatrix(0, 0, size, k);
        crate::solve::solve_upper_triangular_in_place_with_conj(
            &r_top,
            conj,
            &mut rhs_top,
            handle_parallelism(),
        );
        if size == self.perm.len() {
            let inv = self.perm.inverse();
            let mut scattered = rhs_top.to_owned();
            permute_rows(&mut scattered, &rhs_top, &inv);
            rhs.write_block(0, 0, &scattered);
        } else {
            rhs.write_block(0, 0, &rhs_top);
        }
    }
}

impl<E: ComplexField> DenseSolveCore<E> for ColPivQr<E> {
    fn reconstruct(&self) -> Mat<E> {
        let n = self.r_factor.ncols();
        let bs = self.q_coeff.nrows();
        let mut r = self.r_factor.to_owned();
        proof {
            crate::svd::lemma_mul_le_svd(bs as int, 64, n as int);
        }
        let mut stack: MemStack<E> = MemStack::new(StackReq::new(bs * n));
        crate::householder::apply_block_householder_sequence_on_the_left_in_place_with_conj(
            &self.q_basis,
            &self.q_coeff,
            Conj::No,
            &mut r,
            handle_parallelism(),
            &mut stack,
        );
        // The product reconstructs the pivoted matrix: undo the pivoting on
        // the columns.
        let inv = self.perm.inverse();
        let t = r.transpose();
        let m = self.q_basis.nrows();
        let mut undone = Mat::zeros(n, m);
        permute_rows(&mut undone, &t, &inv);
        undone.transpose()
    }

    fn inverse(&self) -> Mat<E> {
        let n = self.q_basis.nrows();
        let mut r = Mat::identity(n, n);
        self.solve_in_place_with_conj(Conj::No, &mut r);
        r
    }
}

impl<E: RealField> Svd<E> {
    /// The number of computed singular values, at the specification level.
    pub closed spec fn spec_size(&self) -> nat {
        self.s_values@.len()
    }

    /// The number of columns of the left vector factor, at the specification
    /// level.
    pub closed spec fn spec_u_ncols(&self) -> nat {
        self.u_factor.spec_ncols()
    }

    /// The number of columns of the right vector factor, at the specification
    /// level.
    pub closed spec fn spec_v_ncols(&self) -> nat {
        self.v_factor.spec_ncols()
    }

    /// The shared implementation of the full and the thin decomposition.
    fn new_imp(a: &Mat<E>, thin: bool) -> (r: Result<Svd<E>, SvdError>)
        requires
            a.wf(),
        ensures
            r matches Ok(f) ==> f.factors_wf() && f.spec_nrows() == a.spec_nrows()
                && f.spec_ncols() == a.spec_ncols(),
            r matches Ok(f) ==> f.spec_u_ncols() == (if thin {
                vstd::math::min(a.spec_nrows() as int, a.spec_ncols() as int) as nat
            } else {
                a.spec_nrows()
            }),
            r matches Ok(f) ==> f.spec_v_ncols() == (if thin {
                vstd::math::min(a.spec_nrows() as int, a.spec_ncols() as int) as nat
            } else {
                a.spec_ncols()
            }),
            a.spec_nrows() == 0 || a.spec_ncols() == 0 ==> r is Ok,
    {
        let m = a.nrows();
        let n = a.ncols();
        let size = if m < n {
            m
        } else {
            n
        };
        let ucols = if thin {
            size
        } else {
            m
        };
        let vcols = if thin {
            size
        } else {
            n
        };
        let mut u = Mat::zeros(m, ucols);
        let mut v = Mat::zeros(n, vcols);
        let mut s = Mat::zeros(size, 1);
        let req = match crate::svd::compute_svd_req(
            m,
            n,
            crate::svd::ComputeVectors::Full,
            crate::svd::ComputeVectors::Full,
            handle_parallelism(),
        ) {
            Ok(req) => req,
            Err(_) => {
                return Err(SvdError);
            },
        };
        let mut stack: MemStack<E> = MemStack::new(req);
        let res = crate::svd::compute_svd(
            a,
            &mut s,
            &mut u,
            &mut v,
            E::faer_epsilon(),
            E::faer_zero_threshold(),
            handle_parallelism(),
            &mut stack,
        );
        if let Err(e) = res {
            return Err(e);
        }
        if size == 0 {
            // No singular triplets: the vector factors are any orthonormal
            // bases, the identity by convention.
            u = Mat::identity(m, ucols);
            v = Mat::identity(n, vcols);
        }
        let s_values = s.col(0);
        Ok(Svd { u_factor: u, v_factor: v, s_values })
    }

    /// Computes the singular value decomposition of `A`, with full square
    /// vector factors. Reports a convergence failure of the underlying
    /// iteration, or an overflow of the scratch size, as an error.
    pub fn new(a: &Mat<E>) -> (r: Result<Svd<E>, SvdError>)
        requires
            a.wf(),
        ensures
            r matches Ok(f) ==> f.factors_wf() && f.spec_nrows() == a.spec_nrows()
                && f.spec_ncols() == a.spec_ncols(),
            r matches Ok(f) ==> f.spec_u_ncols() == a.spec_nrows() && f.spec_v_ncols()
                == a.spec_ncols(),
            a.spec_nrows() == 0 || a.spec_ncols() == 0 ==> r is Ok,
    {
        Svd::new_imp(a, false)
    }

    /// Computes the thin singular value decomposition of `A`: each vector
    /// factor keeps only as many columns as there are singular values.
    pub fn new_thin(a: &Mat<E>) -> (r: Result<Svd<E>, SvdError>)
        requires
            a.wf(),
        ensures
            r matches Ok(f) ==> f.factors_wf() && f.spec_nrows() == a.spec_nrows()
                && f.spec_ncols() == a.spec_ncols(),
            r matches Ok(f) ==> f.spec_u_ncols() == vstd::math::min(
                a.spec_nrows() as int,
                a.spec_ncols() as int,
            ) && f.spec_v_ncols() == vstd::math::min(
                a.spec_nrows() as int,
                a.spec_ncols() as int,
            ),
            a.spec_nrows() == 0 || a.spec_ncols() == 0 ==> r is Ok,
    {
        Svd::new_imp(a, true)
    }

    /// The factor of left singular vectors: square for the full decomposition,
    /// with one column per singular value for the thin one.
    pub fn U(&self) -> (r: &Mat<E>)
        requires
            self.factors_wf(),
        ensures
            r.wf(),
            r.spec_nrows() == self.spec_nrows(),
            r.spec_ncols() == self.spec_u_ncols(),
            r.spec_ncols() >= self.spec_size(),
    {
        &self.u_factor
    }

    /// The factor of right singular vectors: square for the full
    /// decomposition, with one column per singular value for the thin one.
    pub fn V(&self) -> (r: &Mat<E>)
        requires
            self.factors_wf(),
        ensures
            r.wf(),
            r.spec_nrows() == self.spec_ncols(),
            r.spec_ncols() == self.spec_v_ncols(),
            r.spec_ncols() >= self.spec_size(),
    {
        &self.v_factor
    }

    /// The singular values, in descending order.
    pub fn S(&self) -> (r: &Vec<E>)
        requires
            self.factors_wf(),
        ensures
            r@.len() == self.spec_size(),
    {
        &self.s_values
    }
}

impl<E: RealField> ShapeCore for Svd<E> {
    closed spec fn spec_nrows(&self) -> nat {
        self.u_factor.spec_nrows()
    }

    closed spec fn spec_ncols(&self) -> nat {
        self.v_factor.spec_nrows()
    }

    closed spec fn factors_wf(&self) -> bool {
        &&& self.u_factor.wf()
        &&& self.v_factor.wf()
        &&& self.s_values@.len() == vstd::math::min(
            self.u_factor.spec_nrows() as int,
            self.v_factor.spec_nrows() as int,
        )
        &&& self.s_values@.len() <= self.u_factor.spec_ncols() <= self.u_factor.spec_nrows()
        &&& self.s_values@.len() <= self.v_factor.spec_ncols() <= self.v_factor.spec_nrows()
    }

    fn nrows(&self) -> usize {
        self.u_factor.nrows()
    }

    fn ncols(&self) -> usize {
        self.v_factor.nrows()
    }
}

impl<E: RealField> SolveCore<E> for Svd<E> {
    fn solve_in_place_with_conj(&self, conj: Conj, rhs: &mut Mat<E>) {
        // x = V · diag(S)⁻¹ · Uᴴ · rhs, over the computed singular triplets.
        let size = self.s_values.len();
        let k = rhs.ncols();
        let u_sub = self.u_factor.subcols(0, size);
        let v_sub = self.v_factor.subcols(0, size);

        let uh = u_sub.adjoint();
        let mut tmp = Mat::zeros(size, k);
        matmul_with_conj(
            &mut tmp,
            &uh,
            conj,
            rhs,
            Conj::No,
            None,
            E::faer_one(),
            handle_parallelism(),
        );
        let mut i: usize = 0;
        while i < size
            invariant
                tmp.wf(),
                tmp.spec_nrows() == size,
                tmp.spec_ncols() == k,
                self.factors_wf(),
                size == self.s_values@.len(),
                i <= size,
            decreases size - i,
        {
            let d_inv = self.s_values[i].faer_inv();
            let mut j: usize = 0;
            while j < k
                invariant
                    tmp.wf(),
                    tmp.spec_nrows() == size,
                    tmp.spec_ncols() == k,
                    i < size,
                    j <= k,
                decreases k - j,
            {
                let v = tmp.read(i, j).faer_mul(d_inv);
                tmp.write(i, j, v);
                j += 1;
            }
            i += 1;
        }
        matmul_with_conj(
            rhs,
            &v_sub,
            conj,
            &tmp,
            Conj::No,
            None,
            E::faer_one(),
            handle_parallelism(),
        );
    }

    fn solve_transpose_in_place_with_conj(&self, conj: Conj, rhs: &mut Mat<E>) {
        // Aᵀ = V · diag(S) · Uᵀ: the roles of the factors swap.
        let size = self.s_values.len();
        let k = rhs.ncols();
        let u_sub = self.u_factor.subcols(0, size);
        let v_sub = self.v_factor.subcols(0, size);

        let vh = v_sub.adjoint();
        let mut tmp = Mat::zeros(size, k);
        matmul_with_conj(
            &mut tmp,
            &vh,
            conj,
            rhs,
            Conj::No,
            None,
            E::faer_one(),
            handle_parallelism(),
        );
        let mut i: usize = 0;
        while i < size
            invariant
                tmp.wf(),
                tmp.spec_nrows() == size,
                tmp.spec_ncols() == k,
                self.factors_wf(),
                size == self.s_values@.len(),
                i <= size,
            decreases size - i,
        {
            let d_inv = self.s_values[i].faer_inv();
            let mut j: usize = 0;
            while j < k
                invariant
                    tmp.wf(),
                    tmp.spec_nrows() == size,
                    tmp.spec_ncols() == k,
                    i < size,
                    j <= k,
                decreases k - j,
            {
                let v = tmp.read(i, j).faer_mul(d_inv);
                tmp.write(i, j, v);
                j += 1;
            }
            i += 1;
        }
        matmul_with_conj(
            rhs,
            &u_sub,
            conj,
            &tmp,
            Conj::No,
            None,
            E::faer_one(),
            handle_parallelism(),
        );
    }
}

impl<E: RealField> DenseSolveCore<E> for Svd<E> {
    fn reconstruct(&self) -> Mat<E> {
        let m = self.u_factor.nrows();
        let n = self.v_factor.nrows();
        let size = self.s_values.len();
        let u_sub = self.u_factor.subcols(0, size);
        let v_sub = self.v_factor.subcols(0, size);

        // U · diag(S)
        let mut us = u_sub.to_owned();
        let mut j: usize = 0;
        while j < size
            invariant
                us.wf(),
                us.spec_nrows() == m,
                us.spec_ncols() == size,
                self.factors_wf(),
                size == self.s_values@.len(),
                j <= size,
            decreases size - j,
        {
            let d = self.s_values[j];
            let mut i: usize = 0;
            while i < m
                invariant
                    us.wf(),
                    us.spec_nrows() == m,
                    us.spec_ncols() == size,
                    j < size,
                    i <= m,
                decreases m - i,
            {
                let v = us.read(i, j).faer_mul(d);
                us.write(i, j, v);
                i += 1;
            }
            j += 1;
        }
        let vh = v_sub.adjoint();
        let mut r = Mat::zeros(m, n);
        matmul_with_conj(
            &mut r,
            &us,
            Conj::No,
            &vh,
            Conj::No,
            None,
            E::faer_one(),
            handle_parallelism(),
        );
        r
    }

    fn inverse(&self) -> Mat<E> {
        let n = self.u_factor.nrows();
        let mut r = Mat::identity(n, n);
        self.solve_in_place_with_conj(Conj::No, &mut r);
        r
    }
}

impl<E: ComplexField> SelfAdjointEigen<E> {
    /// Computes the eigenvalue decomposition of a self-adjoint `A`, reading
    /// the given triangular half. Reports a convergence failure of the
    /// underlying iteration, or an overflow of the scratch size, as an error.
    pub fn new(a: &Mat<E>, side: Side) -> (r: Result<SelfAdjointEigen<E>, EvdError>)
        requires
            a.wf(),
            a.spec_nrows() == a.spec_ncols(),
        ensures
            r matches Ok(f) ==> f.factors_wf() && f.spec_nrows() == a.spec_nrows()
                && f.spec_ncols() == a.spec_nrows(),
            a.spec_nrows() == 0 ==> r is Ok,
    {
        let work = gather_self_adjoint(a, side);
        let n = work.nrows();
        let mut u = Mat::zeros(n, n);
        let mut s = Mat::zeros(n, 1);
        let req = match crate::evd::compute_hermitian_evd_req(
            n,
            crate::evd::ComputeVectors::Yes,
            handle_parallelism(),
            crate::evd::SymmetricEvdParams {},
        ) {
            Ok(req) => req,
            Err(_) => {
                return Err(EvdError);
            },
        };
        let mut stack: MemStack<E> = MemStack::new(req);
        let res = crate::evd::compute_hermitian_evd(
            &work,
            &mut s,
            &mut u,
            handle_parallelism(),
            &mut stack,
            crate::evd::SymmetricEvdParams {},
        );
        if let Err(e) = res {
            return Err(e);
        }
        let s_values = s.col(0);
        Ok(SelfAdjointEigen { u_factor: u, s_values })
    }

    /// The eigenvector factor.
    pub fn U(&self) -> (r: &Mat<E>)
        requires
            self.factors_wf(),
        ensures
            r.wf(),
            r.spec_nrows() == self.spec_nrows(),
            r.spec_ncols() == self.spec_nrows(),
    {
        &self.u_factor
    }

    /// The eigenvalues, real-valued and in ascending order.
    pub fn S(&self) -> (r: &Vec<E>)
        requires
            self.factors_wf(),
        ensures
            r@.len() == self.spec_nrows(),
    {
        &self.s_values
    }
}

impl<E: ComplexField> ShapeCore for SelfAdjointEigen<E> {
    closed spec fn spec_nrows(&self) -> nat {
        self.u_factor.spec_nrows()
    }

    closed spec fn spec_ncols(&self) -> nat {
        self.u_factor.spec_nrows()
    }

    closed spec fn factors_wf(&self) -> bool {
        &&& self.u_factor.wf()
        &&& self.u_factor.spec_nrows() == self.u_factor.spec_ncols()
        &&& self.s_values@.len() == self.u_factor.spec_nrows()
    }

    fn nrows(&self) -> usize {
        self.u_factor.nrows()
    }

    fn ncols(&self) -> usize {
        self.u_factor.nrows()
    }
}

impl<E: ComplexField> SolveCore<E> for SelfAdjointEigen<E> {
    fn solve_in_place_with_conj(&self, conj: Conj, rhs: &mut Mat<E>) {
        // x = op(U) · diag(S)⁻¹ · op(U)ᴴ · rhs.
        let n = self.u_factor.nrows();
        let k = rhs.ncols();
        let uh = self.u_factor.adjoint();
        let mut tmp = Mat::zeros(n, k);
        matmul_with_conj(
            &mut tmp,
            &uh,
            conj,
            rhs,
            Conj::No,
            None,
            E::faer_one(),
            handle_parallelism(),
        );
        let mut i: usize = 0;
        while i < n
            invariant
                tmp.wf(),
                tmp.spec_nrows() == n,
                tmp.spec_ncols() == k,
                self.factors_wf(),
                n == self.s_values@.len(),
                i <= n,
            decreases n - i,
        {
            let d_inv = self.s_values[i].faer_real().faer_inv();
            let mut j: usize = 0;
            while j < k
                invariant
                    tmp.wf(),
                    tmp.spec_nrows() == n,
                    tmp.spec_ncols() == k,
                    i < n,
                    j <= k,
                decreases k - j,
            {
                let v = tmp.read(i, j).faer_scale_real(d_inv);
                tmp.write(i, j, v);
                j += 1;
            }
            i += 1;
        }
        matmul_with_conj(
            rhs,
            &self.u_factor,
            conj,
            &tmp,
            Conj::No,
            None,
            E::faer_one(),
            handle_parallelism(),
        );
    }

    fn solve_transpose_in_place_with_conj(&self, conj: Conj, rhs: &mut Mat<E>) {
        // The transpose of a self-adjoint matrix is its conjugate.
        self.solve_in_place_with_conj(conj.compose(Conj::Yes), rhs);
    }
}

impl<E: ComplexField> DenseSolveCore<E> for SelfAdjointEigen<E> {
    fn reconstruct(&self) -> Mat<E> {
        let n = self.u_factor.nrows();
        // U · diag(S)
        let mut us = self.u_factor.to_owned();
        let mut j: usize = 0;
        while j < n
            invariant
                us.wf(),
                us.spec_nrows() == n,
                us.spec_ncols() == n,
                self.factors_wf(),
                n == self.s_values@.len(),
                j <= n,
            decreases n - j,
        {
            let d = self.s_values[j];
            let mut i: usize = 0;
            while i < n
                invariant
                    us.wf(),
                    us.spec_nrows() == n,
                    us.spec_ncols() == n,
                    j < n,
                    i <= n,
                decreases n - i,
            {
                let v = us.read(i, j).faer_mul(d);
                us.write(i, j, v);
                i += 1;
            }
            j += 1;
        }
        let uh = self.u_factor.adjoint();
        let mut r = Mat::zeros(n, n);
        matmul_with_conj(
            &mut r,
            &us,
            Conj::No,
            &uh,
            Conj::No,
            None,
            E::faer_one(),
            handle_parallelism(),
        );
        r
    }

    fn inverse(&self) -> Mat<E> {
        let n = self.u_factor.nrows();
        let mut r = Mat::identity(n, n);
        self.solve_in_place_with_conj(Conj::No, &mut r);
        r
    }
}

impl<E: RealField> Eigen<E> {
    /// Computes the eigenvalue decomposition of a square real `A`; the
    /// eigenvalues and eigenvectors are complex. Reports a convergence failure
    /// of the underlying iteration, or an overflow of the scratch size, as an
    /// error.
    pub fn new_from_real(a: &Mat<E>) -> (r: Result<Eigen<E>, EvdError>)
        requires
            a.wf(),
            a.spec_nrows() == a.spec_ncols(),
        ensures
            r matches Ok(f) ==> f.factors_wf() && f.spec_nrows() == a.spec_nrows()
                && f.spec_ncols() == a.spec_nrows(),
            a.spec_nrows() == 0 ==> r is Ok,
    {
        let n = a.nrows();
        let mut u = Mat::zeros(n, n);
        let mut s_re = Mat::zeros(n, 1);
        let mut s_im = Mat::zeros(n, 1);
        let req = match crate::evd::compute_evd_req(
            n,
            crate::evd::ComputeVectors::Yes,
            handle_parallelism(),
            crate::evd::EvdParams {},
        ) {
            Ok(req) => req,
            Err(_) => {
                return Err(EvdError);
            },
        };
        let mut stack: MemStack<E> = MemStack::new(req);
        let res = crate::evd::compute_evd_real(
            a,
            &mut s_re,
            &mut s_im,
            &mut u,
            handle_parallelism(),
            &mut stack,
            crate::evd::EvdParams {},
        );
        if let Err(e) = res {
            return Err(e);
        }

        // Assemble the complex eigenvectors: a real eigenvalue keeps its real
        // column; a complex-conjugate pair at consecutive positions stores the
        // real and imaginary parts of the eigenvector of the eigenvalue with
        // positive imaginary part.
        let mut cu: Mat<Complex<E>> = Mat::zeros(n, n);
        let mut cs: Vec<Complex<E>> = Vec::new();
        let mut k: usize = 0;
        while k < n
            invariant
                u.wf(),
                u.spec_nrows() == n,
                u.spec_ncols() == n,
                s_re.wf(),
                s_re.spec_nrows() == n,
                s_re.spec_ncols() == 1,
                s_im.wf(),
                s_im.spec_nrows() == n,
                s_im.spec_ncols() == 1,
                cu.wf(),
                cu.spec_nrows() == n,
                cu.spec_ncols() == n,
                cs@.len() == k,
                k <= n,
            decreases n - k,
        {
            let im = s_im.read(k, 0);
            if im.faer_is_zero() || k + 1 >= n {
                cs.push(Complex::new(s_re.read(k, 0), E::faer_zero()));
                let mut i: usize = 0;
                while i < n
                    invariant
                        u.wf(),
                        u.spec_nrows() == n,
                        u.spec_ncols() == n,
                        cu.wf(),
                        cu.spec_nrows() == n,
                        cu.spec_ncols() == n,
                        k < n,
                        i <= n,
                    decreases n - i,
                {
                    cu.write(i, k, Complex::new(u.read(i, k), E::faer_zero()));
                    i += 1;
                }
                k += 1;
            } else {
                cs.push(Complex::new(s_re.read(k, 0), im));
                cs.push(Complex::new(s_re.read(k + 1, 0), s_im.read(k + 1, 0)));
                let mut i: usize = 0;
                while i < n
                    invariant
                        u.wf(),
                        u.spec_nrows() == n,
                        u.spec_ncols() == n,
                        cu.wf(),
                        cu.spec_nrows() == n,
                        cu.spec_ncols() == n,
                        k + 1 < n,
                        i <= n,
                    decreases n - i,
                {
                    let re = u.read(i, k);
                    let imv = u.read(i, k + 1);
                    cu.write(i, k, Complex::new(re, imv));
                    cu.write(i, k + 1, Complex::new(re, imv.faer_neg()));
                    i += 1;
                }
                k += 2;
            }
        }
        // The pair loop pushes two values per pair: trim any excess from the
        // final pair landing on the boundary.
        let mut s_values = cs;
        while s_values.len() > n
            invariant
                s_values@.len() >= n,
            decreases s_values@.len(),
        {
            let _ = s_values.pop();
        }
        while s_values.len() < n
            invariant
                s_values@.len() <= n,
            decreases n - s_values@.len(),
        {
            s_values.push(Complex::new(E::faer_zero(), E::faer_zero()));
        }
        Ok(Eigen { u_factor: cu, s_values })
    }

    /// Computes the eigenvalue decomposition of a square complex `A`. Reports
    /// a convergence failure of the underlying iteration, or an overflow of
    /// the scratch size, as an error.
    pub fn new(a: &Mat<Complex<E>>) -> (r: Result<Eigen<E>, EvdError>)
        requires
            a.wf(),
            a.spec_nrows() == a.spec_ncols(),
        ensures
            r matches Ok(f) ==> f.factors_wf() && f.spec_nrows() == a.spec_nrows()
                && f.spec_ncols() == a.spec_nrows(),
            a.spec_nrows() == 0 ==> r is Ok,
    {
        let n = a.nrows();
        let mut u: Mat<Complex<E>> = Mat::zeros(n, n);
        let mut s: Mat<Complex<E>> = Mat::zeros(n, 1);
        let req = match crate::evd::compute_evd_req(
            n,
            crate::evd::ComputeVectors::Yes,
            handle_parallelism(),
            crate::evd::EvdParams {},
        ) {
            Ok(req) => req,
            Err(_) => {
                return Err(EvdError);
            },
        };
        let mut stack: MemStack<Complex<E>> = MemStack::new(req);
        let res = crate::evd::compute_evd_complex(
            a,
            &mut s,
            &mut u,
            handle_parallelism(),
            &mut stack,
            crate::evd::EvdParams {},
        );
        if let Err(e) = res {
            return Err(e);
        }
        let s_values = s.col(0);
        Ok(Eigen { u_factor: u, s_values })
    }

    /// The complex eigenvector factor.
    pub fn U(&self) -> (r: &Mat<Complex<E>>)
        requires
            self.factors_wf(),
        ensures
            r.wf(),
            r.spec_nrows() == self.spec_nrows(),
            r.spec_ncols() == self.spec_nrows(),
    {
        &self.u_factor
    }

    /// The complex eigenvalues.
    pub fn S(&self) -> (r: &Vec<Complex<E>>)
        requires
            self.factors_wf(),
        ensures
            r@.len() == self.spec_nrows(),
    {
        &self.s_values
    }
}

impl<E: RealField> ShapeCore for Eigen<E> {
    closed spec fn spec_nrows(&self) -> nat {
        self.u_factor.spec_nrows()
    }

    closed spec fn spec_ncols(&self) -> nat {
        self.u_factor.spec_nrows()
    }

    closed spec fn factors_wf(&self) -> bool {
        &&& self.u_factor.wf()
        &&& self.u_factor.spec_nrows() == self.u_factor.spec_ncols()
        &&& self.s_values@.len() == self.u_factor.spec_nrows()
    }

    fn nrows(&self) -> usize {
        self.u_factor.nrows()
    }

    fn ncols(&self) -> usize {
        self.u_factor.nrows()
    }
}

impl<E: ComplexField, S: SolveCore<E>> Solve<E> for S {
}

impl<E: ComplexField, S: SolveLstsqCore<E>> SolveLstsq<E> for S {
}

impl<E: ComplexField, S: DenseSolveCore<E>> DenseSolve<E> for S {
}

/// Decomposition entry points on the matrix type itself. The singular value
/// and eigenvalue decompositions are not here: they are meaningful only over
/// real scalars (or, for the general eigenproblem, complex scalars over a real
/// base), so they live as [`Svd::new`], [`SelfAdjointEigen::new`] and the free
/// functions [`svd`], [`eigen`] and [`eigen_from_real`], with the bounds they
/// need.
pub trait MatExt<E: ComplexField>: Sized {
    /// Well-formedness of the matrix, at the specification level.
    spec fn mat_wf(&self) -> bool;

    /// The number of rows, at the specification level.
    spec fn mat_nrows(&self) -> nat;

    /// The number of columns, at the specification level.
    spec fn mat_ncols(&self) -> nat;

    /// The row-pivoted LU decomposition of the matrix.
    fn partial_piv_lu(&self) -> (r: PartialPivLu<E>)
        requires
            self.mat_wf(),
        ensures
            r.factors_wf(),
            r.spec_nrows() == self.mat_nrows(),
            r.spec_ncols() == self.mat_ncols(),
    ;

    /// The fully pivoted LU decomposition of the matrix.
    fn full_piv_lu(&self) -> (r: FullPivLu<E>)
        requires
            self.mat_wf(),
        ensures
            r.factors_wf(),
            r.spec_nrows() == self.mat_nrows(),
            r.spec_ncols() == self.mat_ncols(),
    ;

    /// The QR decomposition of the matrix.
    fn qr(&self) -> (r: Qr<E>)
        requires
            self.mat_wf(),
        ensures
            r.factors_wf(),
            r.spec_nrows() == self.mat_nrows(),
            r.spec_ncols() == self.mat_ncols(),
    ;

    /// The column-pivoted QR decomposition of the matrix.
    fn col_piv_qr(&self) -> (r: ColPivQr<E>)
        requires
            self.mat_wf(),
        ensures
            r.factors_wf(),
            r.spec_nrows() == self.mat_nrows(),
            r.spec_ncols() == self.mat_ncols(),
    ;

    /// The Cholesky decomposition of the matrix, reading the given triangular
    /// half.
    fn llt(&self, side: Side) -> (r: Result<Llt<E>, LltError>)
        requires
            self.mat_wf(),
            self.mat_nrows() == self.mat_ncols(),
        ensures
            r matches Ok(f) ==> f.factors_wf() && f.spec_nrows() == self.mat_nrows(),
    ;

    /// The diagonal Cholesky decomposition of the matrix, reading the given
    /// triangular half.
    fn ldlt(&self, side: Side) -> (r: Result<Ldlt<E>, LdltError>)
        requires
            self.mat_wf(),
            self.mat_nrows() == self.mat_ncols(),
        ensures
            r matches Ok(f) ==> f.factors_wf() && f.spec_nrows() == self.mat_nrows(),
    ;

    /// The Bunch–Kaufman decomposition of the matrix, reading the given
    /// triangular half.
    fn lblt(&self, side: Side) -> (r: Lblt<E>)
        requires
            self.mat_wf(),
            self.mat_nrows() == self.mat_ncols(),
        ensures
            r.factors_wf(),
            r.spec_nrows() == self.mat_nrows(),
    ;

    /// The eigenvalue decomposition of the self-adjoint matrix, reading the
    /// given triangular half.
    fn self_adjoint_eigen(&self, side: Side) -> (r: Result<SelfAdjointEigen<E>, EvdError>)
        requires
            self.mat_wf(),
            self.mat_nrows() == self.mat_ncols(),
        ensures
            r matches Ok(f) ==> f.factors_wf() && f.spec_nrows() == self.mat_nrows(),
    ;
}

impl<E: ComplexField> MatExt<E> for Mat<E> {
    closed spec fn mat_wf(&self) -> bool {
        self.wf()
    }

    closed spec fn mat_nrows(&self) -> nat {
        self.spec_nrows()
    }

    closed spec fn mat_ncols(&self) -> nat {
        self.spec_ncols()
    }

    fn partial_piv_lu(&self) -> PartialPivLu<E> {
        PartialPivLu::new(self)
    }

    fn full_piv_lu(&self) -> FullPivLu<E> {
        FullPivLu::new(self)
    }

    fn qr(&self) -> Qr<E> {
        Qr::new(self)
    }

    fn col_piv_qr(&self) -> ColPivQr<E> {
        ColPivQr::new(self)
    }

    fn llt(&self, side: Side) -> Result<Llt<E>, LltError> {
        Llt::new(self, side)
    }

    fn ldlt(&self, side: Side) -> Result<Ldlt<E>, LdltError> {
        Ldlt::new(self, side)
    }

    fn lblt(&self, side: Side) -> Lblt<E> {
        Lblt::new(self, side)
    }

    fn self_adjoint_eigen(&self, side: Side) -> Result<SelfAdjointEigen<E>, EvdError> {
        SelfAdjointEigen::new(self, side)
    }
}

/// The thin singular value decomposition of the matrix.
pub fn svd<E: RealField>(a: &Mat<E>) -> (r: Result<Svd<E>, SvdError>)
    requires
        a.wf(),
    ensures
        r matches Ok(f) ==> f.factors_wf() && f.spec_nrows() == a.spec_nrows()
            && f.spec_ncols() == a.spec_ncols(),
        a.spec_nrows() == 0 || a.spec_ncols() == 0 ==> r is Ok,
{
    Svd::new(a)
}

/// The eigenvalues of a self-adjoint matrix, real-valued and in ascending
/// order, without the eigenvectors; the given triangular half is read.
pub fn self_adjoint_eigenvalues<E: ComplexField>(a: &Mat<E>, side: Side) -> (r: Result<
    Vec<E>,
    EvdError,
>)
    requires
        a.wf(),
        a.spec_nrows() == a.spec_ncols(),
    ensures
        r matches Ok(v) ==> v@.len() == a.spec_nrows(),
        a.spec_nrows() == 0 ==> r is Ok,
{
    let work = gather_self_adjoint(a, side);
    let n = work.nrows();
    let mut s = Mat::zeros(n, 1);
    let mut u: Mat<E> = Mat::zeros(n, 0);
    let req = match crate::evd::compute_hermitian_evd_req(
        n,
        crate::evd::ComputeVectors::No,
        handle_parallelism(),
        crate::evd::SymmetricEvdParams {},
    ) {
        Ok(req) => req,
        Err(_) => {
            return Err(EvdError);
        },
    };
    let mut stack: MemStack<E> = MemStack::new(req);
    let res = crate::evd::compute_hermitian_evd(
        &work,
        &mut s,
        &mut u,
        handle_parallelism(),
        &mut stack,
        crate::evd::SymmetricEvdParams {},
    );
    if let Err(e) = res {
        return Err(e);
    }
    Ok(s.col(0))
}

/// The complex eigenvalues of a square real matrix, without the eigenvectors.
pub fn eigenvalues_from_real<E: RealField>(a: &Mat<E>) -> (r: Result<Vec<Complex<E>>, EvdError>)
    requires
        a.wf(),
        a.spec_nrows() == a.spec_ncols(),
    ensures
        r matches Ok(v) ==> v@.len() == a.spec_nrows(),
        a.spec_nrows() == 0 ==> r is Ok,
{
    let n = a.nrows();
    let mut s_re = Mat::zeros(n, 1);
    let mut s_im = Mat::zeros(n, 1);
    let mut u: Mat<E> = Mat::zeros(n, 0);
    let req = match crate::evd::compute_evd_req(
        n,
        crate::evd::ComputeVectors::No,
        handle_parallelism(),
        crate::evd::EvdParams {},
    ) {
        Ok(req) => req,
        Err(_) => {
            return Err(EvdError);
        },
    };
    let mut stack: MemStack<E> = MemStack::new(req);
    let res = crate::evd::compute_evd_real(
        a,
        &mut s_re,
        &mut s_im,
        &mut u,
        handle_parallelism(),
        &mut stack,
        crate::evd::EvdParams {},
    );
    if let Err(e) = res {
        return Err(e);
    }
    let mut out: Vec<Complex<E>> = Vec::new();
    let mut i: usize = 0;
    while i < n
        invariant
            s_re.wf(),
            s_re.spec_nrows() == n,
            s_re.spec_ncols() == 1,
            s_im.wf(),
            s_im.spec_nrows() == n,
            s_im.spec_ncols() == 1,
            out@.len() == i,
            i <= n,
        decreases n - i,
    {
        out.push(Complex::new(s_re.read(i, 0), s_im.read(i, 0)));
        i += 1;
    }
    Ok(out)
}

/// The eigenvalues of a square complex matrix, without the eigenvectors.
pub fn eigenvalues<E: RealField>(a: &Mat<Complex<E>>) -> (r: Result<Vec<Complex<E>>, EvdError>)
    requires
        a.wf(),
        a.spec_nrows() == a.spec_ncols(),
    ensures
        r matches Ok(v) ==> v@.len() == a.spec_nrows(),
        a.spec_nrows() == 0 ==> r is Ok,
{
    let n = a.nrows();
    let mut s: Mat<Complex<E>> = Mat::zeros(n, 1);
    let mut u: Mat<Complex<E>> = Mat::zeros(n, 0);
    let req = match crate::evd::compute_evd_req(
        n,
        crate::evd::ComputeVectors::No,
        handle_parallelism(),
        crate::evd::EvdParams {},
    ) {
        Ok(req) => req,
        Err(_) => {
            return Err(EvdError);
        },
    };
    let mut stack: MemStack<Complex<E>> = MemStack::new(req);
    let res = crate::evd::compute_evd_complex(
        a,
        &mut s,
        &mut u,
        handle_parallelism(),
        &mut stack,
        crate::evd::EvdParams {},
    );
    if let Err(e) = res {
        return Err(e);
    }
    Ok(s.col(0))
}

/// The singular values of a matrix of any shape, nonnegative and in
/// descending order, without the singular vectors.
pub fn singular_values<E: RealField>(a: &Mat<E>) -> (r: Result<Vec<E>, SvdError>)
    requires
        a.wf(),
    ensures
        r matches Ok(v) ==> v@.len() == vstd::math::min(
            a.spec_nrows() as int,
            a.spec_ncols() as int,
        ),
        a.spec_nrows() == 0 || a.spec_ncols() == 0 ==> r is Ok,
{
    let m = a.nrows();
    let n = a.ncols();
    let size = if m < n {
        m
    } else {
        n
    };
    let mut s = Mat::zeros(size, 1);
    let mut u: Mat<E> = Mat::zeros(m, 0);
    let mut v: Mat<E> = Mat::zeros(n, 0);
    let req = match crate::svd::compute_svd_req(
        m,
        n,
        crate::svd::ComputeVectors::No,
        crate::svd::ComputeVectors::No,
        handle_parallelism(),
    ) {
        Ok(req) => req,
        Err(_) => {
            return Err(SvdError);
        },
    };
    let mut stack: MemStack<E> = MemStack::new(req);
    let res = crate::svd::compute_svd(
        a,
        &mut s,
        &mut u,
        &mut v,
        E::faer_epsilon(),
        E::faer_zero_threshold(),
        handle_parallelism(),
        &mut stack,
    );
    if let Err(e) = res {
        return Err(e);
    }
    Ok(s.col(0))
}

/// The eigenvalue decomposition of a square real matrix, with complex
/// eigenvalues and eigenvectors.
pub fn eigen_from_real<E: RealField>(a: &Mat<E>) -> (r: Result<Eigen<E>, EvdError>)
    requires
        a.wf(),
        a.spec_nrows() == a.spec_ncols(),
    ensures
        r matches Ok(f) ==> f.factors_wf() && f.spec_nrows() == a.spec_nrows(),
        a.spec_nrows() == 0 ==> r is Ok,
{
    Eigen::new_from_real(a)
}

/// The eigenvalue decomposition of a square complex matrix.
pub fn eigen<E: RealField>(a: &Mat<Complex<E>>) -> (r: Result<Eigen<E>, EvdError>)
    requires
        a.wf(),
        a.spec_nrows() == a.spec_ncols(),
    ensures
        r matches Ok(f) ==> f.factors_wf() && f.spec_nrows() == a.spec_nrows(),
        a.spec_nrows() == 0 ==> r is Ok,
{
    Eigen::new(a)
}

} // verus!
