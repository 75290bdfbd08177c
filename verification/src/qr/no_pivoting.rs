//! QR factorization without pivoting.

pub mod compute;
pub mod inverse;
