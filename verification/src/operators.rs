//! The observables of an electronic system: kinetic energy, the potential
//! of the ions, the repulsion between electrons, and the Hamiltonians built
//! from them.
//!
//! An operator acts on the wavefunction: a potential `V` gives `V(x) psi(x)`,
//! the kinetic energy gives `-(1/2) laplacian psi(x)`. The sampler divides by
//! `psi(x)` afterwards.
use vstd::prelude::*;
use crate::error::Error;
use crate::operator::{Operator, OperatorValue};
use crate::scalar::{Real, one, zero};
use crate::vector::Vector3;
use crate::wavefunction::{Configuration, Differentiate, Function};

verus! {

/// The potential of one ion of charge `charge` at `ion` on the first `upto`
/// electrons, taken away from `acc` electron by electron:
/// `acc - charge / |r_1 - ion| - charge / |r_2 - ion| - ...`.
pub open spec fn ion_pass<R: Real>(
    acc: R,
    ion: Vector3<R>,
    charge: i32,
    cfg: Seq<Vector3<R>>,
    upto: nat,
) -> R
    decreases upto,
{
    if upto == 0 {
        acc
    } else {
        ion_pass(acc, ion, charge, cfg, (upto - 1) as nat).difference(
            R::ratio(charge as i64, 1).quotient(cfg[upto - 1].minus(ion).length()),
        )
    }
}

/// The potential of the first `upto` ions on all electrons, accumulated
/// from zero ion by ion: minus the sum over ions and electrons of
/// `charge / distance`.
pub open spec fn ionic_potential<R: Real>(
    ions: Seq<Vector3<R>>,
    charges: Seq<i32>,
    cfg: Seq<Vector3<R>>,
    upto: nat,
) -> R
    decreases upto,
{
    if upto == 0 {
        zero::<R>()
    } else {
        ion_pass(
            ionic_potential(ions, charges, cfg, (upto - 1) as nat),
            ions[upto - 1],
            charges[upto - 1],
            cfg,
            cfg.len(),
        )
    }
}

/// The repulsion between electron `i` and the electrons after it up to
/// `upto`, added to `acc` pair by pair: `acc + 1 / |r_i - r_j|` for
/// `i < j < upto`.
pub open spec fn pair_pass<R: Real>(acc: R, cfg: Seq<Vector3<R>>, i: int, upto: nat) -> R
    decreases upto,
{
    if upto == 0 || upto <= i + 1 {
        acc
    } else {
        pair_pass(acc, cfg, i, (upto - 1) as nat).sum(
            one::<R>().quotient(cfg[i].minus(cfg[upto - 1]).length()),
        )
    }
}

/// The repulsion among the electrons, over all pairs whose first electron
/// is among the first `upto`, accumulated from zero: the sum over pairs
/// `i < j` of `1 / |r_i - r_j|`.
pub open spec fn electronic_potential<R: Real>(cfg: Seq<Vector3<R>>, upto: nat) -> R
    decreases upto,
{
    if upto == 0 {
        zero::<R>()
    } else {
        pair_pass(electronic_potential(cfg, (upto - 1) as nat), cfg, upto - 1, cfg.len())
    }
}

/// The potential energy of the electrons in the field of the ions. Charges
/// are in units of the proton charge.
#[derive(Clone, Debug, PartialEq)]
pub struct IonicPotential<R: Real> {
    pub ion_positions: Vec<Vector3<R>>,
    pub ion_charge: Vec<i32>,
}

impl<R: Real> IonicPotential<R> {
    pub fn new(ion_positions: Vec<Vector3<R>>, ion_charge: Vec<i32>) -> (out: Self)
        ensures
            out.ion_positions == ion_positions,
            out.ion_charge == ion_charge,
    {
        IonicPotential { ion_positions, ion_charge }
    }
}

impl<R: Real> Function<R, Configuration<R>> for IonicPotential<R> {
    /// The potential at `cfg`; a [`Error::FunctionEvaluationError`] if
    /// an ion has no charge.
    open spec fn value_at(&self, cfg: &Configuration<R>) -> Result<R, Error> {
        if self.ion_charge@.len() < self.ion_positions@.len() {
            Err(Error::FunctionEvaluationError)
        } else {
            Ok(
                ionic_potential(
                    self.ion_positions@,
                    self.ion_charge@,
                    cfg@,
                    self.ion_positions@.len(),
                ),
            )
        }
    }

    fn value(&self, cfg: &Configuration<R>) -> (out: Result<R, Error>) {
        let num_ions = self.ion_positions.len();
        let num_elec = cfg.len();
        if self.ion_charge.len() < num_ions {
            return Err(Error::FunctionEvaluationError);
        }
        let mut pot = R::from_ratio(0, 1);
        let mut i: usize = 0;
        while i < num_ions
            invariant
                i <= num_ions,
                num_ions == self.ion_positions.len(),
                num_ions <= self.ion_charge.len(),
                num_elec == cfg.len(),
                pot == ionic_potential(self.ion_positions@, self.ion_charge@, cfg@, i as nat),
            decreases num_ions - i,
        {
            let ion = self.ion_positions[i];
            let charge = self.ion_charge[i];
            let ghost start = pot;
            let mut j: usize = 0;
            while j < num_elec
                invariant
                    j <= num_elec,
                    num_elec == cfg.len(),
                    pot == ion_pass(start, ion, charge, cfg@, j as nat),
                decreases num_elec - j,
            {
                let distance = cfg[j].sub(ion).norm();
                pot = pot.sub(R::from_ratio(charge as i64, 1).div(distance));
                j += 1;
            }
            i += 1;
        }
        Ok(pot)
    }
}

impl<R: Real, T: Function<R, Configuration<R>>> Operator<R, T> for IonicPotential<R> {
    /// The potential times the wavefunction's value.
    open spec fn acts(&self, wf: &T, cfg: &Configuration<R>) -> Result<OperatorValue<R>, Error> {
        match self.value_at(cfg) {
            Err(e) => Err(e),
            Ok(potential) => match wf.value_at(cfg) {
                Err(e) => Err(e),
                Ok(amplitude) => Ok(OperatorValue::Scalar(potential.product(amplitude))),
            },
        }
    }

    fn act_on(&self, wf: &T, cfg: &Configuration<R>) -> (out: Result<OperatorValue<R>, Error>) {
        let potential = match self.value(cfg) {
            Ok(v) => v,
            Err(e) => {
                return Err(e);
            },
        };
        match wf.value(cfg) {
            Ok(amplitude) => Ok(OperatorValue::Scalar(potential.mul(amplitude))),
            Err(e) => Err(e),
        }
    }
}

/// The repulsion between the electrons. It depends on nothing but the
/// configuration.
#[derive(Clone, Debug, PartialEq)]
pub struct ElectronicPotential {}

impl ElectronicPotential {
    pub fn new() -> (out: Self)
        ensures
            out == (ElectronicPotential {}),
    {
        ElectronicPotential {  }
    }
}

impl<R: Real> Function<R, Configuration<R>> for ElectronicPotential {
    open spec fn value_at(&self, cfg: &Configuration<R>) -> Result<R, Error> {
        Ok(electronic_potential(cfg@, cfg@.len()))
    }

    fn value(&self, cfg: &Configuration<R>) -> (out: Result<R, Error>) {
        let num_elec = cfg.len();
        let mut pot = R::from_ratio(0, 1);
        let mut i: usize = 0;
        while i < num_elec
            invariant
                i <= num_elec,
                num_elec == cfg.len(),
                pot == electronic_potential(cfg@, i as nat),
            decreases num_elec - i,
        {
            let ghost start = pot;
            let mut j: usize = i + 1;
            while j < num_elec
                invariant
                    i < j <= num_elec,
                    num_elec == cfg.len(),
                    pot == pair_pass(start, cfg@, i as int, j as nat),
                decreases num_elec - j,
            {
                let distance = cfg[i].sub(cfg[j]).norm();
                pot = pot.add(R::from_ratio(1, 1).div(distance));
                j += 1;
            }
            i += 1;
        }
        Ok(pot)
    }
}

impl<R: Real, T: Function<R, Configuration<R>>> Operator<R, T> for ElectronicPotential {
    /// The repulsion times the wavefunction's value.
    open spec fn acts(&self, wf: &T, cfg: &Configuration<R>) -> Result<OperatorValue<R>, Error> {
        match wf.value_at(cfg) {
            Err(e) => Err(e),
            Ok(amplitude) => Ok(
                OperatorValue::Scalar(electronic_potential(cfg@, cfg@.len()).product(amplitude)),
            ),
        }
    }

    fn act_on(&self, wf: &T, cfg: &Configuration<R>) -> (out: Result<OperatorValue<R>, Error>) {
        let potential: R = match Function::<R, Configuration<R>>::value(self, cfg) {
            Ok(v) => v,
            Err(e) => {
                return Err(e);
            },
        };
        match wf.value(cfg) {
            Ok(amplitude) => Ok(OperatorValue::Scalar(potential.mul(amplitude))),
            Err(e) => Err(e),
        }
    }
}

/// The kinetic energy. It depends on nothing but the wavefunction.
#[derive(Clone, Debug, PartialEq)]
pub struct KineticEnergy {}

impl KineticEnergy {
    pub fn new() -> (out: Self)
        ensures
            out == (KineticEnergy {}),
    {
        KineticEnergy {  }
    }
}

impl<R: Real, T: Differentiate<R, Configuration<R>>> Operator<R, T> for KineticEnergy {
    /// `-(1/2)` times the laplacian of the wavefunction.
    open spec fn acts(&self, wf: &T, cfg: &Configuration<R>) -> Result<OperatorValue<R>, Error> {
        match wf.laplacian_at(cfg) {
            Err(e) => Err(e),
            Ok(laplacian) => Ok(OperatorValue::Scalar(R::ratio(-1i64, 2).product(laplacian))),
        }
    }

    fn act_on(&self, wf: &T, cfg: &Configuration<R>) -> (out: Result<OperatorValue<R>, Error>) {
        match wf.laplacian(cfg) {
            Ok(laplacian) => Ok(OperatorValue::Scalar(R::from_ratio(-1, 2).mul(laplacian))),
            Err(e) => Err(e),
        }
    }
}

/// The scalar inside `value`, or zero for a vector or matrix. The
/// operators of this file give scalars only.
pub open spec fn scalar_of<R: Real>(value: OperatorValue<R>) -> R {
    match value {
        OperatorValue::Scalar(x) => x,
        _ => zero::<R>(),
    }
}

/// The Hamiltonian of electrons that do not interact: kinetic energy plus
/// the potential of the ions.
#[derive(Clone, Debug, PartialEq)]
pub struct IonicHamiltonian<R: Real> {
    pub v: IonicPotential<R>,
    pub t: KineticEnergy,
}

impl<R: Real> IonicHamiltonian<R> {
    pub fn new(t: KineticEnergy, v: IonicPotential<R>) -> (out: Self)
        ensures
            out.t == t,
            out.v == v,
    {
        IonicHamiltonian { v, t }
    }
}

impl<R: Real, T: Function<R, Configuration<R>> + Differentiate<R, Configuration<R>>> Operator<
    R,
    T,
> for IonicHamiltonian<R> {
    /// Kinetic energy plus ionic potential, evaluated in that order.
    open spec fn acts(&self, wf: &T, cfg: &Configuration<R>) -> Result<OperatorValue<R>, Error> {
        match Operator::<R, T>::acts(&self.t, wf, cfg) {
            Err(e) => Err(e),
            Ok(kinetic) => match Operator::<R, T>::acts(&self.v, wf, cfg) {
                Err(e) => Err(e),
                Ok(potential) => Ok(
                    OperatorValue::Scalar(scalar_of(kinetic).sum(scalar_of(potential))),
                ),
            },
        }
    }

    fn act_on(&self, wf: &T, cfg: &Configuration<R>) -> (out: Result<OperatorValue<R>, Error>) {
        let kinetic = match Operator::<R, T>::act_on(&self.t, wf, cfg) {
            Ok(v) => v,
            Err(e) => {
                return Err(e);
            },
        };
        let potential = match Operator::<R, T>::act_on(&self.v, wf, cfg) {
            Ok(v) => v,
            Err(e) => {
                return Err(e);
            },
        };
        kinetic.add(&potential)
    }
}

/// The Hamiltonian of the electrons: kinetic energy, the potential of the
/// ions and the repulsion between the electrons. It acts on the wavefunction
/// and does not divide by it.
#[derive(Clone, Debug, PartialEq)]
pub struct ElectronicHamiltonian<R: Real> {
    pub t: KineticEnergy,
    pub vion: IonicPotential<R>,
    pub velec: ElectronicPotential,
}

impl<R: Real> ElectronicHamiltonian<R> {
    pub fn new(t: KineticEnergy, vion: IonicPotential<R>, velec: ElectronicPotential) -> (out:
        Self)
        ensures
            out.t == t,
            out.vion == vion,
            out.velec == velec,
    {
        ElectronicHamiltonian { t, vion, velec }
    }
}

impl<R: Real, T: Function<R, Configuration<R>> + Differentiate<R, Configuration<R>>> Operator<
    R,
    T,
> for ElectronicHamiltonian<R> {
    /// Kinetic energy plus ionic potential, plus the repulsion, evaluated
    /// in that order.
    open spec fn acts(&self, wf: &T, cfg: &Configuration<R>) -> Result<OperatorValue<R>, Error> {
        match Operator::<R, T>::acts(&self.t, wf, cfg) {
            Err(e) => Err(e),
            Ok(kinetic) => match Operator::<R, T>::acts(&self.vion, wf, cfg) {
                Err(e) => Err(e),
                Ok(ionic) => match Operator::<R, T>::acts(&self.velec, wf, cfg) {
                    Err(e) => Err(e),
                    Ok(repulsion) => Ok(
                        OperatorValue::Scalar(
                            scalar_of(kinetic).sum(scalar_of(ionic)).sum(scalar_of(repulsion)),
                        ),
                    ),
                },
            },
        }
    }

    fn act_on(&self, wf: &T, cfg: &Configuration<R>) -> (out: Result<OperatorValue<R>, Error>) {
        let kinetic = match Operator::<R, T>::act_on(&self.t, wf, cfg) {
            Ok(v) => v,
            Err(e) => {
                return Err(e);
            },
        };
        let ionic = match Operator::<R, T>::act_on(&self.vion, wf, cfg) {
            Ok(v) => v,
            Err(e) => {
                return Err(e);
            },
        };
        let repulsion = match Operator::<R, T>::act_on(&self.velec, wf, cfg) {
            Ok(v) => v,
            Err(e) => {
                return Err(e);
            },
        };
        match kinetic.add(&ionic) {
            Ok(partial) => partial.add(&repulsion),
            Err(e) => Err(e),
        }
    }
}

/// The local energy: the Hamiltonian applied to the wavefunction, divided
/// by the wavefunction's value.
#[derive(Clone, Debug, PartialEq)]
pub struct LocalEnergy<R: Real> {
    pub h: ElectronicHamiltonian<R>,
}

impl<R: Real> LocalEnergy<R> {
    pub fn new(h: ElectronicHamiltonian<R>) -> (out: Self)
        ensures
            out.h == h,
    {
        LocalEnergy { h }
    }
}

impl<R: Real, T: Function<R, Configuration<R>> + Differentiate<R, Configuration<R>>> Operator<
    R,
    T,
> for LocalEnergy<R> {
    open spec fn acts(&self, wf: &T, cfg: &Configuration<R>) -> Result<OperatorValue<R>, Error> {
        match Operator::<R, T>::acts(&self.h, wf, cfg) {
            Err(e) => Err(e),
            Ok(energy) => match wf.value_at(cfg) {
                Err(e) => Err(e),
                Ok(amplitude) => Ok(OperatorValue::Scalar(scalar_of(energy).quotient(amplitude))),
            },
        }
    }

    fn act_on(&self, wf: &T, cfg: &Configuration<R>) -> (out: Result<OperatorValue<R>, Error>) {
        let energy = match Operator::<R, T>::act_on(&self.h, wf, cfg) {
            Ok(v) => v,
            Err(e) => {
                return Err(e);
            },
        };
        match wf.value(cfg) {
            Ok(amplitude) => energy.div(&OperatorValue::Scalar(amplitude)),
            Err(e) => Err(e),
        }
    }
}

} // verus!
