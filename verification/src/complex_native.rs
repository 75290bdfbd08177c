//! Complex scalars built from a pair of real scalars.

use vstd::prelude::*;
use crate::scalar::{ComplexField, RealField};

verus! {

/// A complex number over a real scalar type, stored as a real and an imaginary
/// part.
#[derive(Copy, Clone, Debug)]
pub struct Complex<R> {
    /// Real part.
    pub re: R,
    /// Imaginary part.
    pub im: R,
}

impl<R: RealField> Complex<R> {
    /// Builds a complex value from its real and imaginary parts.
    pub fn new(re: R, im: R) -> (r: Complex<R>)
        ensures
            r.re == re,
            r.im == im,
    {
        Complex { re, im }
    }
}

impl<R: RealField> ComplexField for Complex<R> {
    fn faer_zero() -> Self {
        Complex { re: R::faer_zero(), im: R::faer_zero() }
    }

    fn faer_one() -> Self {
        Complex { re: R::faer_one(), im: R::faer_zero() }
    }

    fn faer_add(self, rhs: Self) -> Self {
        Complex { re: self.re.faer_add(rhs.re), im: self.im.faer_add(rhs.im) }
    }

    fn faer_sub(self, rhs: Self) -> Self {
        Complex { re: self.re.faer_sub(rhs.re), im: self.im.faer_sub(rhs.im) }
    }

    fn faer_mul(self, rhs: Self) -> Self {
        Complex {
            re: self.re.faer_mul(rhs.re).faer_sub(self.im.faer_mul(rhs.im)),
            im: self.re.faer_mul(rhs.im).faer_add(self.im.faer_mul(rhs.re)),
        }
    }

    fn faer_neg(self) -> Self {
        Complex { re: self.re.faer_neg(), im: self.im.faer_neg() }
    }

    fn faer_inv(self) -> Self {
        // A real-valued scalar is inverted in the real field, so that the
        // overflow behavior of a real inverse carries over unchanged.
        if self.im.faer_is_zero() {
            Complex { re: self.re.faer_inv(), im: R::faer_zero() }
        } else {
            let inv_sq = self.re.faer_mul(self.re).faer_add(
                self.im.faer_mul(self.im),
            ).faer_inv();
            Complex { re: self.re.faer_mul(inv_sq), im: self.im.faer_neg().faer_mul(inv_sq) }
        }
    }

    fn faer_conj(self) -> Self {
        Complex { re: self.re, im: self.im.faer_neg() }
    }

    fn faer_sqrt(self) -> Self {
        // Principal square root: for z = x + iy with modulus r, the result has
        // real part sqrt((r + x) / 2) and imaginary part sign(y) sqrt((r - x) / 2).
        let r = self.re.faer_mul(self.re).faer_add(self.im.faer_mul(self.im)).faer_sqrt();
        let half = R::faer_from_u64(2).faer_inv();
        let re2 = r.faer_add(self.re).faer_mul(half);
        let im2 = r.faer_sub(self.re).faer_mul(half);
        let re = real_sqrt_clamped(re2);
        let im_mag = real_sqrt_clamped(im2);
        let im = if self.im.faer_ge(R::faer_zero()) {
            im_mag
        } else {
            im_mag.faer_neg()
        };
        Complex { re, im }
    }

    fn faer_abs(self) -> Self {
        let m = self.re.faer_mul(self.re).faer_add(self.im.faer_mul(self.im)).faer_sqrt();
        Complex { re: m, im: R::faer_zero() }
    }

    fn faer_abs2(self) -> Self {
        let m = self.re.faer_mul(self.re).faer_add(self.im.faer_mul(self.im));
        Complex { re: m, im: R::faer_zero() }
    }

    fn faer_real(self) -> Self {
        Complex { re: self.re, im: R::faer_zero() }
    }

    fn faer_imag(self) -> Self {
        Complex { re: self.im, im: R::faer_zero() }
    }

    fn faer_from_real(re: Self) -> Self {
        Complex { re: re.re, im: R::faer_zero() }
    }

    fn faer_scale_real(self, rhs: Self) -> Self {
        Complex { re: self.re.faer_mul(rhs.re), im: self.im.faer_mul(rhs.re) }
    }

    fn faer_gt(self, rhs: Self) -> bool {
        self.re.faer_gt(rhs.re)
    }

    fn faer_ge(self, rhs: Self) -> bool {
        self.re.faer_ge(rhs.re)
    }

    fn faer_from_u64(x: u64) -> Self {
        Complex { re: R::faer_from_u64(x), im: R::faer_zero() }
    }

    fn faer_is_zero(self) -> bool {
        self.re.faer_is_zero() && self.im.faer_is_zero()
    }

    fn faer_is_nan(self) -> bool {
        self.re.faer_is_nan() || self.im.faer_is_nan()
    }

    fn faer_is_finite(self) -> bool {
        self.re.faer_is_finite() && self.im.faer_is_finite()
    }

    fn faer_epsilon() -> Self {
        Complex { re: R::faer_epsilon(), im: R::faer_zero() }
    }

    fn faer_zero_threshold() -> Self {
        Complex { re: R::faer_zero_threshold(), im: R::faer_zero() }
    }
}

/// The real square root of a value that is nonnegative up to rounding: a
/// negative input, which can only arise from cancellation, is clamped to zero
/// first.
fn real_sqrt_clamped<R: RealField>(x: R) -> R {
    if x.faer_ge(R::faer_zero()) {
        x.faer_sqrt()
    } else {
        R::faer_zero()
    }
}

} // verus!
