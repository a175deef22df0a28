//! The items most programs need, in one import.
pub use crate::basis::{BasisFunction, Gaussian, Hydrogen1s, Hydrogen2s, PointVgl};
pub use crate::basis_set::{BasisSet, GaussianBasis, Hydrogen1sBasis, Hydrogen2sBasis};
pub use crate::determinant::SlaterDeterminant;
pub use crate::error::Error;
pub use crate::estimators::compute_energy_gradient;
pub use crate::lbfgs::OnlineLbfgs;
pub use crate::linalg::{Entries, LinearAlgebra, Rows};
pub use crate::metropolis::{Metropolis, MetropolisBox, MetropolisDiffuse, RandomSource};
pub use crate::operator::{Operator, OperatorValue};
pub use crate::operators::{
    ElectronicHamiltonian,
    ElectronicPotential,
    IonicHamiltonian,
    IonicPotential,
    KineticEnergy,
    LocalEnergy,
};
pub use crate::optimize::{MomentumDescent, NesterovMomentum, Optimizer, SteepestDescent};
pub use crate::orbitals::Orbital;
pub use crate::reconfiguration::StochasticReconfiguration;
pub use crate::runner::{Log, Runner};
pub use crate::sampler::{MonteCarloSampler, Sampler};
pub use crate::scalar::{Operation, Real};
pub use crate::table::Table;
pub use crate::vector::Vector3;
pub use crate::wavefunction::{Cache, Configuration, Differentiate, Function, Vgl, WaveFunction};
pub use crate::wf::{JastrowSlater, SingleDeterminant};
