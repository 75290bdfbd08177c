//! Sparse matrix storage: the symbolic structure of a compressed column
//! matrix, and a compressed row matrix with values.

pub mod csc;
pub mod csr;

use vstd::prelude::*;

verus! {

/// The given index data does not describe a valid sparse structure.
#[derive(Copy, Clone, PartialEq, Eq, Structural, Debug)]
pub struct CreationError;

} // verus!
