//! Optimizers: from the sampled statistics of one iteration to a change of
//! the wavefunction's parameters.
//!
//! Every optimizer first forms the energy gradient
//! ([`compute_energy_gradient`]) and then takes its own step from it. The step
//! of each is a function of its own, so that it can be used with a gradient
//! from elsewhere.
use vstd::prelude::*;
use crate::error::Error;
use crate::estimators::{compute_energy_gradient, gradient_data_ok, sampled_energy_gradient};
use crate::operator::OperatorValue;
use crate::scalar::{Operation, Real, one, zero};
use crate::table::Table;
use crate::vector::{
    broadcast,
    broadcast_over,
    duplicate,
    filled,
    negate,
    negated,
    zip_with,
    zipped,
};

verus! {

/// A rule that turns the statistics of one sampling phase into a parameter
/// change. `pars` are the current parameters, `averages` the mean of each
/// observable, `raw_data` the stream of each observable.
pub trait Optimizer<R: Real> {
    fn compute_parameter_update(
        &mut self,
        pars: &Vec<R>,
        averages: &Table<OperatorValue<R>>,
        raw_data: &Table<Vec<OperatorValue<R>>>,
    ) -> Result<Vec<R>, Error>;
}

/// Steepest descent: the step is `-(step_size * g)`.
#[derive(Clone)]
pub struct SteepestDescent<R: Real> {
    pub step_size: R,
}

/// The steepest-descent step for the gradient `g`.
pub open spec fn descent_step<R: Real>(step_size: R, g: Seq<R>) -> Seq<R> {
    negated(broadcast_over(Operation::Mul, step_size, g))
}

impl<R: Real> SteepestDescent<R> {
    pub fn new(step_size: R) -> (out: Self)
        ensures
            out.step_size == step_size,
    {
        Self { step_size }
    }

    /// The step for the energy gradient `gradient`.
    pub fn step(&self, gradient: &Vec<R>) -> (out: Vec<R>)
        ensures
            out@ == descent_step(self.step_size, gradient@),
    {
        negate(&broadcast(Operation::Mul, self.step_size, gradient))
    }
}

impl<R: Real> Optimizer<R> for SteepestDescent<R> {
    fn compute_parameter_update(
        &mut self,
        pars: &Vec<R>,
        averages: &Table<OperatorValue<R>>,
        raw_data: &Table<Vec<OperatorValue<R>>>,
    ) -> (out: Result<Vec<R>, Error>)
        ensures
            *final(self) == *old(self),
            out is Ok == gradient_data_ok(raw_data, averages),
            out is Err ==> out == Err::<Vec<R>, Error>(Error::DataAccessError),
            out is Ok ==> out->Ok_0@ == descent_step(
                old(self).step_size,
                sampled_energy_gradient(raw_data, averages),
            ),
    {
        match compute_energy_gradient(raw_data, averages) {
            Ok(gradient) => Ok(self.step(&gradient)),
            Err(e) => Err(e),
        }
    }
}

/// Descent with momentum, by the classic rule: a velocity is kept between
/// iterations; each step makes it `momentum_parameter * velocity - step_size
/// * g`, and that new velocity is the step.
#[derive(Clone)]
pub struct MomentumDescent<R: Real> {
    pub step_size: R,
    pub momentum_parameter: R,
    pub momentum: Vec<R>,
}

impl<R: Real> MomentumDescent<R> {
    /// What one step does for the gradient `g`: with a gradient of the
    /// velocity's length the velocity becomes `momentum_parameter * momentum
    /// - step_size * g` and is the result; any other gradient is refused and
    /// changes nothing.
    pub open spec fn steps_to(self, g: Seq<R>, after: Self, out: Result<Vec<R>, Error>) -> bool {
        &&& after.step_size == self.step_size
        &&& after.momentum_parameter == self.momentum_parameter
        &&& if g.len() == self.momentum@.len() {
            &&& after.momentum@ == zipped(
                Operation::Sub,
                broadcast_over(Operation::Mul, self.momentum_parameter, self.momentum@),
                broadcast_over(Operation::Mul, self.step_size, g),
            )
            &&& out is Ok
            &&& out->Ok_0@ == after.momentum@
        } else {
            &&& after.momentum@ == self.momentum@
            &&& out == Err::<Vec<R>, Error>(Error::LinearAlgebraError)
        }
    }

    pub fn new(step_size: R, momentum_parameter: R, nparm: usize) -> (out: Self)
        ensures
            out.step_size == step_size,
            out.momentum_parameter == momentum_parameter,
            out.momentum@ == Seq::new(nparm as nat, |i: int| zero::<R>()),
    {
        Self { step_size, momentum_parameter, momentum: filled(nparm, R::from_ratio(0, 1)) }
    }

    /// The step for the energy gradient `gradient`.
    pub fn step(&mut self, gradient: &Vec<R>) -> (out: Result<Vec<R>, Error>)
        ensures
            old(self).steps_to(gradient@, *final(self), out),
    {
        if gradient.len() != self.momentum.len() {
            return Err(Error::LinearAlgebraError);
        }
        let carried = broadcast(Operation::Mul, self.momentum_parameter, &self.momentum);
        let change = broadcast(Operation::Mul, self.step_size, gradient);
        self.momentum = zip_with(Operation::Sub, &carried, &change);
        Ok(duplicate(&self.momentum))
    }
}

impl<R: Real> Optimizer<R> for MomentumDescent<R> {
    fn compute_parameter_update(
        &mut self,
        pars: &Vec<R>,
        averages: &Table<OperatorValue<R>>,
        raw_data: &Table<Vec<OperatorValue<R>>>,
    ) -> (out: Result<Vec<R>, Error>)
        ensures
            !gradient_data_ok(raw_data, averages) ==> out == Err::<Vec<R>, Error>(
                Error::DataAccessError,
            ) && *final(self) == *old(self),
            gradient_data_ok(raw_data, averages) ==> old(self).steps_to(
                sampled_energy_gradient(raw_data, averages),
                *final(self),
                out,
            ),
    {
        match compute_energy_gradient(raw_data, averages) {
            Ok(gradient) => self.step(&gradient),
            Err(e) => Err(e),
        }
    }
}

/// Nesterov's accelerated descent: the velocity becomes
/// `momentum_parameter * momentum + step_size * g`, and the step is
/// `momentum_parameter * previous - (1 + momentum_parameter) * momentum`,
/// with the previous and the new velocity.
#[derive(Clone)]
pub struct NesterovMomentum<R: Real> {
    pub step_size: R,
    pub momentum_parameter: R,
    pub momentum: Vec<R>,
    pub momentum_prev: Vec<R>,
}

impl<R: Real> NesterovMomentum<R> {
    /// The velocity after a step from the velocity `momentum` for the
    /// gradient `g`.
    pub open spec fn next_momentum(self, g: Seq<R>) -> Seq<R> {
        zipped(
            Operation::Add,
            broadcast_over(Operation::Mul, self.momentum_parameter, self.momentum@),
            broadcast_over(Operation::Mul, self.step_size, g),
        )
    }

    /// What one step does for the gradient `g`; a gradient that has not the
    /// velocity's length is refused and changes nothing.
    pub open spec fn steps_to(self, g: Seq<R>, after: Self, out: Result<Vec<R>, Error>) -> bool {
        &&& after.step_size == self.step_size
        &&& after.momentum_parameter == self.momentum_parameter
        &&& if g.len() == self.momentum@.len() {
            &&& after.momentum_prev@ == self.momentum@
            &&& after.momentum@ == self.next_momentum(g)
            &&& out is Ok
            &&& out->Ok_0@ == zipped(
                Operation::Sub,
                broadcast_over(Operation::Mul, self.momentum_parameter, self.momentum@),
                broadcast_over(
                    Operation::Mul,
                    one::<R>().sum(self.momentum_parameter),
                    self.next_momentum(g),
                ),
            )
        } else {
            &&& after.momentum@ == self.momentum@
            &&& after.momentum_prev@ == self.momentum_prev@
            &&& out == Err::<Vec<R>, Error>(Error::LinearAlgebraError)
        }
    }

    pub fn new(step_size: R, momentum_parameter: R, nparm: usize) -> (out: Self)
        ensures
            out.step_size == step_size,
            out.momentum_parameter == momentum_parameter,
            out.momentum@ == Seq::new(nparm as nat, |i: int| zero::<R>()),
            out.momentum_prev@ == Seq::new(nparm as nat, |i: int| zero::<R>()),
    {
        Self {
            step_size,
            momentum_parameter,
            momentum: filled(nparm, R::from_ratio(0, 1)),
            momentum_prev: filled(nparm, R::from_ratio(0, 1)),
        }
    }

    /// The step for the energy gradient `gradient`.
    pub fn step(&mut self, gradient: &Vec<R>) -> (out: Result<Vec<R>, Error>)
        ensures
            old(self).steps_to(gradient@, *final(self), out),
    {
        if gradient.len() != self.momentum.len() {
            return Err(Error::LinearAlgebraError);
        }
        let carried = broadcast(Operation::Mul, self.momentum_parameter, &self.momentum);
        let gained = broadcast(Operation::Mul, self.step_size, gradient);
        let next = zip_with(Operation::Add, &carried, &gained);
        let weight = R::from_ratio(1, 1).add(self.momentum_parameter);
        let ahead = broadcast(Operation::Mul, weight, &next);
        let out = zip_with(Operation::Sub, &carried, &ahead);
        self.momentum_prev = duplicate(&self.momentum);
        self.momentum = next;
        Ok(out)
    }
}

impl<R: Real> Optimizer<R> for NesterovMomentum<R> {
    fn compute_parameter_update(
        &mut self,
        pars: &Vec<R>,
        averages: &Table<OperatorValue<R>>,
        raw_data: &Table<Vec<OperatorValue<R>>>,
    ) -> (out: Result<Vec<R>, Error>)
        ensures
            !gradient_data_ok(raw_data, averages) ==> out == Err::<Vec<R>, Error>(
                Error::DataAccessError,
            ) && *final(self) == *old(self),
            gradient_data_ok(raw_data, averages) ==> old(self).steps_to(
                sampled_energy_gradient(raw_data, averages),
                *final(self),
                out,
            ),
    {
        match compute_energy_gradient(raw_data, averages) {
            Ok(gradient) => self.step(&gradient),
            Err(e) => Err(e),
        }
    }
}

} // verus!
