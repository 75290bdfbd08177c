//! QR factorizations through block Householder sequences, without pivoting and
//! with column pivoting.

pub mod col_pivoting;
pub mod no_pivoting;
