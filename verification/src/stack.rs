//! The workspace protocol.
//!
//! Every kernel is paired with a sizing function that returns a [`StackReq`]:
//! the exact number of scalar slots of scratch storage the kernel consumes for
//! the given dimensions. Requirements compose additively for storage that is
//! live at the same time ([`StackReq::try_and`]) and by maximum for
//! alternative code paths ([`StackReq::try_or`]), mirroring the recursive
//! structure of the kernels.
//!
//! The scratch itself is a [`MemStack`]: a stack of scalar slots that a kernel
//! carves temporary matrices out of and restores before returning. A kernel
//! requires at least the sized number of slots and guarantees that it returns
//! the stack at its original length, so a caller that allocates exactly the
//! sized requirement can never run out of scratch mid-call.

use vstd::prelude::*;
use crate::mat::Mat;
use crate::scalar::ComplexField;

verus! {

/// The computed size of a scratch requirement would exceed the address space.
#[derive(Copy, Clone, PartialEq, Eq, Structural, Debug)]
pub struct SizeOverflow;

/// A scratch-storage requirement: a number of scalar slots.
#[derive(Copy, Clone, PartialEq, Eq, Structural, Debug)]
pub struct StackReq {
    size: usize,
}

/// The sum of two usize values if it fits, and `None` otherwise.
pub fn checked_add(a: usize, b: usize) -> (r: Option<usize>)
    ensures
        r is Some <==> a + b <= usize::MAX,
        r is Some ==> r->0 == a + b,
{
    if a <= usize::MAX - b {
        Some(a + b)
    } else {
        None
    }
}

/// The product of two usize values if it fits, and `None` otherwise.
pub fn checked_mul(a: usize, b: usize) -> (r: Option<usize>)
    ensures
        r is Some <==> a * b <= usize::MAX,
        r is Some ==> r->0 == a * b,
{
    if a == 0 {
        assert(a * b == 0) by (nonlinear_arith)
            requires
                a == 0,
        ;
        Some(0)
    } else if b <= usize::MAX / a {
        proof {
            let q = usize::MAX as int / a as int;
            let r = usize::MAX as int % a as int;
            vstd::arithmetic::div_mod::lemma_fundamental_div_mod(usize::MAX as int, a as int);
            assert(a * b <= usize::MAX) by (nonlinear_arith)
                requires
                    a > 0,
                    b <= q,
                    a * q + r == usize::MAX,
                    r >= 0,
            ;
        }
        Some(a * b)
    } else {
        proof {
            let q = usize::MAX as int / a as int;
            let r = usize::MAX as int % a as int;
            vstd::arithmetic::div_mod::lemma_fundamental_div_mod(usize::MAX as int, a as int);
            assert(a * b > usize::MAX) by (nonlinear_arith)
                requires
                    a > 0,
                    b > q,
                    a * q + r == usize::MAX,
                    r < a,
            ;
        }
        None
    }
}

impl StackReq {
    /// The number of scalar slots, at the specification level.
    pub closed spec fn spec_size(&self) -> nat {
        self.size as nat
    }

    /// The empty requirement.
    pub fn empty() -> (r: StackReq)
        ensures
            r.spec_size() == 0,
    {
        StackReq { size: 0 }
    }

    /// A requirement of `n` scalar slots.
    pub fn new(n: usize) -> (r: StackReq)
        ensures
            r.spec_size() == n,
    {
        StackReq { size: n }
    }

    /// The number of scalar slots.
    pub fn size(&self) -> (r: usize)
        ensures
            r == self.spec_size(),
    {
        self.size
    }

    /// The requirement of storage for `self` and `other` live at the same
    /// time: the sum of the two sizes, or an overflow report.
    pub fn try_and(self, other: StackReq) -> (r: Result<StackReq, SizeOverflow>)
        ensures
            r is Ok <==> self.spec_size() + other.spec_size() <= usize::MAX,
            r is Ok ==> r->Ok_0.spec_size() == self.spec_size() + other.spec_size(),
    {
        match checked_add(self.size, other.size) {
            Some(s) => Ok(StackReq { size: s }),
            None => Err(SizeOverflow),
        }
    }

    /// The requirement of storage for either `self` or `other`, not both live
    /// at the same time: the larger of the two sizes.
    pub fn try_or(self, other: StackReq) -> (r: Result<StackReq, SizeOverflow>)
        ensures
            r is Ok,
            r->Ok_0.spec_size() == vstd::math::max(
                self.spec_size() as int,
                other.spec_size() as int,
            ),
    {
        if self.size >= other.size {
            Ok(self)
        } else {
            Ok(other)
        }
    }
}

/// The scratch requirement of a temporary matrix with the given dimensions.
pub fn temp_mat_req(nrows: usize, ncols: usize) -> (r: Result<StackReq, SizeOverflow>)
    ensures
        r is Ok <==> nrows * ncols <= usize::MAX,
        r is Ok ==> r->Ok_0.spec_size() == nrows * ncols,
{
    match checked_mul(nrows, ncols) {
        Some(s) => Ok(StackReq { size: s }),
        None => Err(SizeOverflow),
    }
}

/// A stack of scalar slots that kernels carve temporary matrices out of.
pub struct MemStack<E> {
    buf: Vec<E>,
}

impl<E: ComplexField> MemStack<E> {
    /// The number of available scalar slots, at the specification level.
    pub closed spec fn spec_len(&self) -> nat {
        self.buf@.len()
    }

    /// Allocates a stack with exactly the requested number of scalar slots.
    pub fn new(req: StackReq) -> (r: MemStack<E>)
        ensures
            r.spec_len() == req.spec_size(),
    {
        let n = req.size();
        let mut buf: Vec<E> = Vec::new();
        for i in 0..n
            invariant
                buf@.len() == i,
        {
            buf.push(E::faer_zero());
        }
        MemStack { buf }
    }

    /// The number of available scalar slots.
    pub fn len(&self) -> (r: usize)
        ensures
            r == self.spec_len(),
    {
        self.buf.len()
    }

    /// Carves a temporary matrix with the given dimensions out of the stack;
    /// the contents of the matrix are unspecified. The matrix must be handed
    /// back with [`MemStack::give_back_mat`] once it is no longer needed.
    pub fn make_temp_mat(&mut self, nrows: usize, ncols: usize) -> (r: Mat<E>)
        requires
            nrows * ncols <= old(self).spec_len(),
        ensures
            final(self).spec_len() == old(self).spec_len() - nrows * ncols,
            r.wf(),
            r.spec_nrows() == nrows,
            r.spec_ncols() == ncols,
    {
        let avail = self.buf.len();
        proof {
            assert(nrows * ncols >= 0) by (nonlinear_arith);
        }
        let count = nrows * ncols;
        let new_len = avail - count;
        self.buf.truncate(new_len);
        Mat::zeros(nrows, ncols)
    }

    /// Returns the storage of a temporary matrix to the stack.
    pub fn give_back_mat(&mut self, mat: Mat<E>)
        requires
            mat.wf(),
        ensures
            final(self).spec_len() == old(self).spec_len() + mat.spec_nrows()
                * mat.spec_ncols(),
    {
        let m = mat.nrows();
        let n = mat.ncols();
        let ghost len0 = self.spec_len();
        for j in 0..n
            invariant
                mat.wf(),
                mat.spec_nrows() == m,
                mat.spec_ncols() == n,
                self.spec_len() == len0 + j * m,
            decreases n - j,
        {
            for i in 0..m
                invariant
                    mat.wf(),
                    mat.spec_nrows() == m,
                    mat.spec_ncols() == n,
                    j < n,
                    self.spec_len() == len0 + j * m + i,
                decreases m - i,
            {
                self.buf.push(E::faer_zero());
            }
            proof {
                assert((j + 1) * m == j * m + m) by (nonlinear_arith);
            }
        }
        proof {
            assert(n * m == m * n) by (nonlinear_arith);
        }
    }
}

} // verus!
