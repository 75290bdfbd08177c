//! Dense linear-algebra kernels: matrix multiplication, triangular solves,
//! Cholesky-family factorizations, block Householder transformations, QR and LU
//! factorizations, eigenvalue decompositions and singular value decompositions.
//!
//! Every computational kernel comes in a pair: a sizing function that reports
//! the exact amount of scratch storage the kernel needs for given dimensions,
//! and the kernel itself, which consumes a caller-provided scratch stack and
//! returns it in its original state.

use vstd::prelude::*;

pub mod cholesky;
pub mod complex_native;
pub mod evd;
pub mod householder;
pub mod inverse;
pub mod jacobi;
pub mod lu;
pub mod mat;
pub mod matmul;
pub mod perm;
pub mod qr;
pub mod scalar;
pub mod solve;
pub mod solvers;
pub mod sparse;
pub mod stack;
pub mod svd;
pub mod thread;

verus! {

/// Determines whether a pair of recursive sub-tasks may be distributed over
/// several workers, and over how many.
#[derive(Copy, Clone, PartialEq, Eq, Structural, Debug)]
pub enum Parallelism {
    /// Both sub-tasks run on the calling thread.
    Sequential,
    /// Up to the given number of workers may be used; `0` stands for the
    /// ambient default worker count.
    Rayon(usize),
}

/// Whether an operand is implicitly conjugated when it is read.
#[derive(Copy, Clone, PartialEq, Eq, Structural, Debug)]
pub enum Conj {
    /// Elements are read as they are stored.
    No,
    /// Elements are conjugated as they are read.
    Yes,
}

impl Conj {
    /// Composes two conjugation operations: the result conjugates exactly when
    /// one of the two operands does.
    pub fn compose(self, other: Conj) -> (r: Conj)
        ensures
            r == Conj::Yes <==> (self == Conj::Yes) != (other == Conj::Yes),
    {
        match (self, other) {
            (Conj::No, Conj::No) => Conj::No,
            (Conj::No, Conj::Yes) => Conj::Yes,
            (Conj::Yes, Conj::No) => Conj::Yes,
            (Conj::Yes, Conj::Yes) => Conj::No,
        }
    }
}

/// A Cholesky factorization failed on a pivot that is not positive, with
/// dynamic regularization disabled.
#[derive(Copy, Clone, PartialEq, Eq, Structural, Debug)]
pub struct LltError;

/// A diagonal factorization met a pivot that cannot be inverted.
#[derive(Copy, Clone, PartialEq, Eq, Structural, Debug)]
pub struct LdltError;

/// An iterative eigenvalue algorithm did not converge within its internal
/// iteration cap.
#[derive(Copy, Clone, PartialEq, Eq, Structural, Debug)]
pub struct EvdError;

/// An iterative singular value algorithm did not converge within its internal
/// iteration cap.
#[derive(Copy, Clone, PartialEq, Eq, Structural, Debug)]
pub struct SvdError;

/// Which triangular half of a self-adjoint matrix is stored.
#[derive(Copy, Clone, PartialEq, Eq, Structural, Debug)]
pub enum Side {
    /// The lower triangular half is stored.
    Lower,
    /// The upper triangular half is stored.
    Upper,
}

} // verus!
