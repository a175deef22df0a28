//! Orbitals: linear combinations of basis functions.
use std::rc::Rc;
use vstd::prelude::*;
use crate::basis::BasisFunction;
use crate::error::Error;
use crate::scalar::{Real, zero};
use crate::vector::Vector3;
use crate::wavefunction::{Differentiate, Function};

verus! {

/// The sum over the first `upto` basis functions of `value * parameter`,
/// accumulated from zero.
pub open spec fn orbital_value<R: Real, B: BasisFunction<R>>(
    parms: Seq<R>,
    basis: Seq<B>,
    pos: Vector3<R>,
    upto: nat,
) -> R
    decreases upto,
{
    if upto == 0 {
        zero::<R>()
    } else {
        orbital_value(parms, basis, pos, (upto - 1) as nat).sum(
            basis[upto - 1].evaluated(&pos).value.product(parms[upto - 1]),
        )
    }
}

/// The sum over the first `upto` basis functions of
/// `parameter * laplacian`, accumulated from zero.
pub open spec fn orbital_laplacian<R: Real, B: BasisFunction<R>>(
    parms: Seq<R>,
    basis: Seq<B>,
    pos: Vector3<R>,
    upto: nat,
) -> R
    decreases upto,
{
    if upto == 0 {
        zero::<R>()
    } else {
        orbital_laplacian(parms, basis, pos, (upto - 1) as nat).sum(
            parms[upto - 1].product(basis[upto - 1].evaluated(&pos).laplacian),
        )
    }
}

/// The sum over the first `upto` basis functions of
/// `gradient * parameter`, accumulated from zero.
pub open spec fn orbital_gradient<R: Real, B: BasisFunction<R>>(
    parms: Seq<R>,
    basis: Seq<B>,
    pos: Vector3<R>,
    upto: nat,
) -> Vector3<R>
    decreases upto,
{
    if upto == 0 {
        Vector3 { x: zero::<R>(), y: zero::<R>(), z: zero::<R>() }
    } else {
        orbital_gradient(parms, basis, pos, (upto - 1) as nat).plus(
            basis[upto - 1].evaluated(&pos).gradient.scaled(parms[upto - 1]),
        )
    }
}

/// The smaller of two lengths.
pub open spec fn shorter(a: nat, b: nat) -> nat {
    if a <= b {
        a
    } else {
        b
    }
}

/// An orbital: the basis functions of a basis set, each weighted by a
/// parameter. The basis set is shared among the orbitals built on it.
pub struct Orbital<R: Real, B: BasisFunction<R>> {
    pub parms: Vec<R>,
    pub basis_set: Rc<Vec<B>>,
}

impl<R: Real, B: BasisFunction<R>> Orbital<R, B> {
    pub fn new(parms: Vec<R>, basis_set: Rc<Vec<B>>) -> (out: Self)
        ensures
            out.parms == parms,
            out.basis_set == basis_set,
    {
        Self { parms, basis_set }
    }
}

impl<R: Real, B: BasisFunction<R>> Function<R, Vector3<R>> for Orbital<R, B> {
    /// The weighted sum of the basis functions' values; a
    /// [`Error::FunctionEvaluationError`] unless there is one parameter for
    /// each basis function.
    open spec fn value_at(&self, x: &Vector3<R>) -> Result<R, Error> {
        if self.parms@.len() != self.basis_set@.len() {
            Err(Error::FunctionEvaluationError)
        } else {
            Ok(orbital_value(self.parms@, self.basis_set@, *x, self.parms@.len()))
        }
    }

    fn value(&self, x: &Vector3<R>) -> (out: Result<R, Error>) {
        if self.parms.len() != self.basis_set.len() {
            return Err(Error::FunctionEvaluationError);
        }
        let mut acc = R::from_ratio(0, 1);
        let mut k: usize = 0;
        while k < self.parms.len()
            invariant
                k <= self.parms.len(),
                self.parms.len() == self.basis_set.len(),
                acc == orbital_value(self.parms@, self.basis_set@, *x, k as nat),
            decreases self.parms.len() - k,
        {
            acc = acc.add(self.basis_set[k].evaluate(x).value.mul(self.parms[k]));
            k += 1;
        }
        Ok(acc)
    }
}

impl<R: Real, B: BasisFunction<R>> Differentiate<R, Vector3<R>> for Orbital<R, B> {
    /// The weighted sum of the basis functions' gradients; a
    /// [`Error::FunctionEvaluationError`] unless there is one parameter for
    /// each basis function.
    open spec fn gradient_at(&self, x: &Vector3<R>) -> Result<Vector3<R>, Error> {
        if self.parms@.len() != self.basis_set@.len() {
            Err(Error::FunctionEvaluationError)
        } else {
            Ok(orbital_gradient(self.parms@, self.basis_set@, *x, self.parms@.len()))
        }
    }

    /// The weighted sum of the basis functions' laplacians, over as many
    /// terms as there are both parameters and basis functions.
    open spec fn laplacian_at(&self, x: &Vector3<R>) -> Result<R, Error> {
        Ok(
            orbital_laplacian(
                self.parms@,
                self.basis_set@,
                *x,
                shorter(self.parms@.len(), self.basis_set@.len()),
            ),
        )
    }

    fn gradient(&self, x: &Vector3<R>) -> (out: Result<Vector3<R>, Error>) {
        if self.parms.len() != self.basis_set.len() {
            return Err(Error::FunctionEvaluationError);
        }
        let zero = R::from_ratio(0, 1);
        let mut acc = Vector3::new(zero, zero, zero);
        let mut k: usize = 0;
        while k < self.parms.len()
            invariant
                k <= self.parms.len(),
                self.parms.len() == self.basis_set.len(),
                acc == orbital_gradient(self.parms@, self.basis_set@, *x, k as nat),
            decreases self.parms.len() - k,
        {
            acc = acc.add(self.basis_set[k].evaluate(x).gradient.scale(self.parms[k]));
            k += 1;
        }
        Ok(acc)
    }

    fn laplacian(&self, x: &Vector3<R>) -> (out: Result<R, Error>) {
        let terms = if self.parms.len() <= self.basis_set.len() {
            self.parms.len()
        } else {
            self.basis_set.len()
        };
        let mut acc = R::from_ratio(0, 1);
        let mut k: usize = 0;
        while k < terms
            invariant
                k <= terms,
                terms <= self.parms.len(),
                terms <= self.basis_set.len(),
                acc == orbital_laplacian(self.parms@, self.basis_set@, *x, k as nat),
            decreases terms - k,
        {
            acc = acc.add(self.parms[k].mul(self.basis_set[k].evaluate(x).laplacian));
            k += 1;
        }
        Ok(acc)
    }
}

} // verus!
