//! LU factorizations with partial (row) pivoting and with full pivoting.

pub mod full_pivoting;
pub mod partial_pivoting;
