//! The scalar capability that every kernel is generic over.
//!
//! A scalar is a member of a real or complex field, given by its arithmetic
//! operations. The kernels never inspect the representation of a scalar: they
//! only combine scalars through these methods, so the contracts of the kernels
//! speak about shapes, index bounds, scratch usage and which entries are
//! written, never about the value of an arithmetic expression.
//!
//! Real quantities (moduli, thresholds, the diagonal of a self-adjoint factor)
//! are carried as real-valued elements of the same scalar type: a value whose
//! imaginary part is zero. The order methods [`ComplexField::faer_gt`] and
//! [`ComplexField::faer_ge`] compare such real-valued elements.

use vstd::prelude::*;

verus! {

/// A real or complex scalar.
pub trait ComplexField: Copy + Sized {
    /// The additive identity.
    fn faer_zero() -> Self;
    /// The multiplicative identity.
    fn faer_one() -> Self;
    /// Sum of `self` and `rhs`.
    fn faer_add(self, rhs: Self) -> Self;
    /// Difference of `self` and `rhs`.
    fn faer_sub(self, rhs: Self) -> Self;
    /// Product of `self` and `rhs`.
    fn faer_mul(self, rhs: Self) -> Self;
    /// Additive inverse.
    fn faer_neg(self) -> Self;
    /// Multiplicative inverse.
    fn faer_inv(self) -> Self;
    /// Complex conjugate; the identity on real scalars.
    fn faer_conj(self) -> Self;
    /// A square root of `self`.
    fn faer_sqrt(self) -> Self;
    /// The modulus `|self|`, as a real-valued element.
    fn faer_abs(self) -> Self;
    /// The squared modulus `|self|²`, as a real-valued element.
    fn faer_abs2(self) -> Self;
    /// The real part, as a real-valued element.
    fn faer_real(self) -> Self;
    /// The imaginary part, as a real-valued element; zero on real scalars.
    fn faer_imag(self) -> Self;
    /// Embeds the real part of `re` into this field: the result has real part
    /// `re.faer_real()` and zero imaginary part.
    fn faer_from_real(re: Self) -> Self;
    /// Product of `self` with the real part of `rhs`.
    fn faer_scale_real(self, rhs: Self) -> Self;
    /// Whether the real part of `self` exceeds the real part of `rhs`. The
    /// order is meaningful on real-valued elements.
    fn faer_gt(self, rhs: Self) -> bool;
    /// Whether the real part of `self` is at least the real part of `rhs`.
    fn faer_ge(self, rhs: Self) -> bool;
    /// The real value of the small natural number `x`.
    fn faer_from_u64(x: u64) -> Self;
    /// Whether `self` is the additive identity.
    fn faer_is_zero(self) -> bool;
    /// Whether `self` is an exceptional not-a-number value.
    fn faer_is_nan(self) -> bool;
    /// Whether `self` is a finite value.
    fn faer_is_finite(self) -> bool;
    /// The working precision of this scalar type.
    fn faer_epsilon() -> Self;
    /// The magnitude under which precision degrades, used as an absolute floor
    /// for convergence thresholds.
    fn faer_zero_threshold() -> Self;
}

/// Marker for scalar types whose values are all real: the conjugation is the
/// identity and the imaginary part is identically zero.
pub trait RealField: ComplexField {
}

/// The larger of two real-valued scalars under the capability's order.
pub fn real_max<E: ComplexField>(a: E, b: E) -> E {
    if a.faer_gt(b) {
        a
    } else {
        b
    }
}

/// Reads a scalar through an optional conjugation: the value itself under
/// [`Conj::No`], its conjugate under [`Conj::Yes`].
pub fn maybe_conj<E: ComplexField>(conj: crate::Conj, x: E) -> E {
    match conj {
        crate::Conj::No => x,
        crate::Conj::Yes => x.faer_conj(),
    }
}

} // verus!
