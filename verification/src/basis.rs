//! Closed-form basis functions and the contract of a basis-function
//! evaluator.
use vstd::prelude::*;
use crate::scalar::{Real, one, square};
use crate::vector::Vector3;

verus! {

/// Value, gradient and laplacian of a single-particle function at one
/// position.
#[derive(Clone, Copy, Debug, PartialEq)]
pub struct PointVgl<R: Real> {
    pub value: R,
    pub gradient: Vector3<R>,
    pub laplacian: R,
}

/// A basis function: from a position to value, gradient and laplacian.
/// Evaluation is pure: `evaluated` names the result, and an implementation
/// promises only that `evaluate` returns the named value.
pub trait BasisFunction<R: Real> {
    /// Value, gradient and laplacian at `pos`.
    spec fn evaluated(&self, pos: &Vector3<R>) -> PointVgl<R>;

    fn evaluate(&self, pos: &Vector3<R>) -> (out: PointVgl<R>)
        ensures
            out == self.evaluated(pos),
    ;
}

/// Value and laplacian of the hydrogen 1s orbital at distance `r` from the
/// nucleus: `exp(-r)` and `(1 - 2/r) exp(-r)`.
pub open spec fn hydrogen_1s_at<R: Real>(pos: Vector3<R>) -> (R, R) {
    let r = pos.length();
    let decay = r.negation().exponential();
    (decay, one::<R>().difference(R::ratio(2, 1).quotient(r)).product(decay))
}

/// Value and laplacian of the hydrogen 2s orbital:
/// `(1 - r/2) exp(-r/2)` and `exp(-r/2)/8 * (10 - r - 16/r)`.
pub open spec fn hydrogen_2s_at<R: Real>(pos: Vector3<R>) -> (R, R) {
    let r = pos.length();
    let decay = r.negation().quotient(R::ratio(2, 1)).exponential();
    (
        one::<R>().difference(r.quotient(R::ratio(2, 1))).product(decay),
        decay.quotient(R::ratio(8, 1)).product(
            R::ratio(10, 1).difference(r).difference(R::ratio(16, 1).quotient(r)),
        ),
    )
}

/// Value and laplacian of a Gaussian orbital of the given width:
/// `exp(-r^2 / (2w)^2)` and `exp(-r^2 / (2w)^2) * (r^2 - 6 w^2) / (4 w^4)`.
pub open spec fn gaussian_at<R: Real>(pos: Vector3<R>, width: R) -> (R, R) {
    let r = pos.length();
    let decay = square(r).negation().quotient(square(R::ratio(2, 1).product(width))).exponential();
    (
        decay,
        decay.product(square(r).difference(R::ratio(6, 1).product(square(width)))).quotient(
            R::ratio(4, 1).product(square(square(width))),
        ),
    )
}

/// Value and laplacian of the hydrogen 1s orbital.
pub fn hydrogen_1s<R: Real>(pos: &Vector3<R>) -> (out: (R, R))
    ensures
        out == hydrogen_1s_at(*pos),
{
    let r = pos.norm();
    let decay = r.neg().exp();
    (decay, R::from_ratio(1, 1).sub(R::from_ratio(2, 1).div(r)).mul(decay))
}

/// Value and laplacian of the hydrogen 2s orbital.
pub fn hydrogen_2s<R: Real>(pos: &Vector3<R>) -> (out: (R, R))
    ensures
        out == hydrogen_2s_at(*pos),
{
    let r = pos.norm();
    let decay = r.neg().div(R::from_ratio(2, 1)).exp();
    (
        R::from_ratio(1, 1).sub(r.div(R::from_ratio(2, 1))).mul(decay),
        decay.div(R::from_ratio(8, 1)).mul(
            R::from_ratio(10, 1).sub(r).sub(R::from_ratio(16, 1).div(r)),
        ),
    )
}

/// Value and laplacian of a Gaussian orbital of the given width.
pub fn gaussian<R: Real>(pos: &Vector3<R>, width: R) -> (out: (R, R))
    ensures
        out == gaussian_at(*pos, width),
{
    let r = pos.norm();
    let doubled = R::from_ratio(2, 1).mul(width);
    let decay = r.mul(r).neg().div(doubled.mul(doubled)).exp();
    let squared = width.mul(width);
    (
        decay,
        decay.mul(r.mul(r).sub(R::from_ratio(6, 1).mul(squared))).div(
            R::from_ratio(4, 1).mul(squared.mul(squared)),
        ),
    )
}

/// The gradient of a function of the distance alone: the position times
/// the radial derivative over the distance.
pub open spec fn radial_gradient<R: Real>(pos: Vector3<R>, slope_over_distance: R) -> Vector3<R> {
    pos.scaled(slope_over_distance)
}

/// The hydrogen 1s orbital at the origin, `exp(-r)`.
#[derive(Clone, Copy, Debug, PartialEq)]
pub struct Hydrogen1s {}

/// The hydrogen 2s orbital at the origin, `(1 - r/2) exp(-r/2)`.
#[derive(Clone, Copy, Debug, PartialEq)]
pub struct Hydrogen2s {}

/// The Gaussian orbital of a given width at the origin,
/// `exp(-r^2 / (2 width)^2)`.
#[derive(Clone, Copy, Debug, PartialEq)]
pub struct Gaussian<R: Real> {
    pub width: R,
}

impl<R: Real> BasisFunction<R> for Hydrogen1s {
    /// Value and laplacian as [`hydrogen_1s_at`]; the gradient is
    /// `-(exp(-r) / r)` times the position.
    open spec fn evaluated(&self, pos: &Vector3<R>) -> PointVgl<R> {
        let r = pos.length();
        PointVgl {
            value: hydrogen_1s_at(*pos).0,
            gradient: radial_gradient(*pos, r.negation().exponential().negation().quotient(r)),
            laplacian: hydrogen_1s_at(*pos).1,
        }
    }

    fn evaluate(&self, pos: &Vector3<R>) -> (out: PointVgl<R>) {
        let (value, laplacian) = hydrogen_1s(pos);
        let r = pos.norm();
        PointVgl { value, gradient: pos.scale(r.neg().exp().neg().div(r)), laplacian }
    }
}

impl<R: Real> BasisFunction<R> for Hydrogen2s {
    /// Value and laplacian as [`hydrogen_2s_at`]; the gradient is
    /// `-((1 - r/4) exp(-r/2) / r)` times the position.
    open spec fn evaluated(&self, pos: &Vector3<R>) -> PointVgl<R> {
        let r = pos.length();
        let decay = r.negation().quotient(R::ratio(2, 1)).exponential();
        PointVgl {
            value: hydrogen_2s_at(*pos).0,
            gradient: radial_gradient(
                *pos,
                one::<R>().difference(r.quotient(R::ratio(4, 1))).product(
                    decay,
                ).negation().quotient(r),
            ),
            laplacian: hydrogen_2s_at(*pos).1,
        }
    }

    fn evaluate(&self, pos: &Vector3<R>) -> (out: PointVgl<R>) {
        let (value, laplacian) = hydrogen_2s(pos);
        let r = pos.norm();
        let decay = r.neg().div(R::from_ratio(2, 1)).exp();
        let slope = R::from_ratio(1, 1).sub(r.div(R::from_ratio(4, 1))).mul(decay).neg().div(r);
        PointVgl { value, gradient: pos.scale(slope), laplacian }
    }
}

impl<R: Real> BasisFunction<R> for Gaussian<R> {
    /// Value and laplacian as [`gaussian_at`]; the gradient is
    /// `-(2 / (2 width)^2)` times the value times the position.
    open spec fn evaluated(&self, pos: &Vector3<R>) -> PointVgl<R> {
        PointVgl {
            value: gaussian_at(*pos, self.width).0,
            gradient: radial_gradient(
                *pos,
                R::ratio(2, 1).quotient(
                    square(R::ratio(2, 1).product(self.width)),
                ).negation().product(gaussian_at(*pos, self.width).0),
            ),
            laplacian: gaussian_at(*pos, self.width).1,
        }
    }

    fn evaluate(&self, pos: &Vector3<R>) -> (out: PointVgl<R>) {
        let (value, laplacian) = gaussian(pos, self.width);
        let doubled = R::from_ratio(2, 1).mul(self.width);
        let slope = R::from_ratio(2, 1).div(doubled.mul(doubled)).neg().mul(value);
        PointVgl { value, gradient: pos.scale(slope), laplacian }
    }
}

} // verus!
