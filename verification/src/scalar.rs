//! The number system the engine computes in.
//!
//! Every algorithm of this crate is written once, over any type that
//! implements [`Real`]. Each operation comes as a pair: a specification
//! function that names the result, and an executable method that returns it.
//! Contracts throughout the crate are stated over the specification functions,
//! so they hold for an implementation exactly as far as that implementation
//! keeps this pairing; nothing in the crate checks an implementation that is
//! written elsewhere.
use vstd::prelude::*;

verus! {

/// A real-number type: the four operations, negation, square root,
/// exponential, minimum, two comparisons, a test for finiteness and the
/// conversions from integers.
///
/// An implementation promises only that each method returns the value that
/// the specification function beside it names, that is, that the operation is
/// a function of its operands. No algebraic law is assumed of any of them.
pub trait Real: Copy {
    /// `self + rhs`.
    spec fn sum(self, rhs: Self) -> Self;

    /// `self - rhs`.
    spec fn difference(self, rhs: Self) -> Self;

    /// `self * rhs`.
    spec fn product(self, rhs: Self) -> Self;

    /// `self / rhs`.
    spec fn quotient(self, rhs: Self) -> Self;

    /// `-self`.
    spec fn negation(self) -> Self;

    /// The square root of `self`.
    spec fn square_root(self) -> Self;

    /// `e` raised to `self`.
    spec fn exponential(self) -> Self;

    /// The smaller of `self` and `rhs`.
    spec fn minimum(self, rhs: Self) -> Self;

    /// Whether `self > rhs`.
    spec fn exceeds(self, rhs: Self) -> bool;

    /// Whether the sign of `self` is not the sign of `rhs`.
    spec fn differs_in_sign(self, rhs: Self) -> bool;

    /// Whether `self` is a number, and not infinite.
    spec fn finite(self) -> bool;

    /// The number `numer / denom`.
    spec fn ratio(numer: i64, denom: i64) -> Self;

    /// The number `n`.
    spec fn count(n: usize) -> Self;

    fn add(self, rhs: Self) -> (out: Self)
        ensures
            out == self.sum(rhs),
    ;

    fn sub(self, rhs: Self) -> (out: Self)
        ensures
            out == self.difference(rhs),
    ;

    fn mul(self, rhs: Self) -> (out: Self)
        ensures
            out == self.product(rhs),
    ;

    fn div(self, rhs: Self) -> (out: Self)
        ensures
            out == self.quotient(rhs),
    ;

    fn neg(self) -> (out: Self)
        ensures
            out == self.negation(),
    ;

    fn sqrt(self) -> (out: Self)
        ensures
            out == self.square_root(),
    ;

    fn exp(self) -> (out: Self)
        ensures
            out == self.exponential(),
    ;

    fn min(self, rhs: Self) -> (out: Self)
        ensures
            out == self.minimum(rhs),
    ;

    fn gt(self, rhs: Self) -> (out: bool)
        ensures
            out == self.exceeds(rhs),
    ;

    fn sign_differs(self, rhs: Self) -> (out: bool)
        ensures
            out == self.differs_in_sign(rhs),
    ;

    fn is_finite(self) -> (out: bool)
        ensures
            out == self.finite(),
    ;

    fn from_ratio(numer: i64, denom: i64) -> (out: Self)
        ensures
            out == Self::ratio(numer, denom),
    ;

    fn from_count(n: usize) -> (out: Self)
        ensures
            out == Self::count(n),
    ;
}

/// The number zero.
pub open spec fn zero<R: Real>() -> R {
    R::ratio(0, 1)
}

/// The number one.
pub open spec fn one<R: Real>() -> R {
    R::ratio(1, 1)
}

/// The square of `x`.
pub open spec fn square<R: Real>(x: R) -> R {
    x.product(x)
}

/// Whether `x` is not below `low` and is below `high`.
pub open spec fn between<R: Real>(low: R, high: R, x: R) -> bool {
    !low.exceeds(x) && high.exceeds(x)
}

/// One of the four arithmetic operations.
#[derive(Clone, Copy, Debug, PartialEq, Eq, Structural)]
pub enum Operation {
    Add,
    Sub,
    Mul,
    Div,
}

/// The result of `op` on the numbers `a` and `b`, in that order.
pub open spec fn applied<R: Real>(op: Operation, a: R, b: R) -> R {
    match op {
        Operation::Add => a.sum(b),
        Operation::Sub => a.difference(b),
        Operation::Mul => a.product(b),
        Operation::Div => a.quotient(b),
    }
}

/// The result of `op` on two numbers.
pub fn apply<R: Real>(op: Operation, a: R, b: R) -> (out: R)
    ensures
        out == applied(op, a, b),
{
    match op {
        Operation::Add => a.add(b),
        Operation::Sub => a.sub(b),
        Operation::Mul => a.mul(b),
        Operation::Div => a.div(b),
    }
}

} // verus!
