//! A variational Monte Carlo engine: a Metropolis sampler that moves a
//! configuration of particles under a trial wavefunction, operators that
//! evaluate observables on it, and optimizers that improve the wavefunction's
//! parameters. The engine is generic over the real-number type it computes in.
pub mod basis;
pub mod basis_set;
pub mod determinant;
pub mod error;
pub mod lbfgs;
pub mod estimators;
pub mod linalg;
pub mod metropolis;
pub mod operator;
pub mod operators;
pub mod optimize;
pub mod orbitals;
pub mod prelude;
pub mod reconfiguration;
pub mod runner;
pub mod sampler;
pub mod scalar;
pub mod statistics;
pub mod table;
pub mod vector;
pub mod wavefunction;
pub mod wf;
