//! Cholesky-family factorizations of self-adjoint matrices: the plain
//! Cholesky factorization `A = L Lᴴ`, the diagonal factorization
//! `A = L D Lᴴ`, and the symmetric-indefinite Bunch–Kaufman factorization
//! `P A Pᵀ = L B Lᴴ` with one-by-one and two-by-two pivot blocks.

pub mod bunch_kaufman;
pub mod ldlt_diagonal;
pub mod llt;
