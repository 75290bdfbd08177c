//! QR factorization with column pivoting.

pub mod compute;
pub mod inverse;
