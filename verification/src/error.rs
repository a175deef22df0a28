//! The failures an evaluation can end in.
use vstd::prelude::*;

verus! {

/// Why an evaluation failed. Every failure returns at once to the caller;
/// nothing in this crate retries or recovers.
#[derive(Clone, Copy, Debug, PartialEq, Eq, Structural)]
pub enum Error {
    /// A basis function, orbital or wavefunction could not be evaluated.
    FunctionEvaluationError,
    /// A matrix was singular, or a linear solve failed.
    LinearAlgebraError,
    /// A named observable stream that an optimizer needs is absent.
    DataAccessError,
    /// Arithmetic between two vectors or two matrices was asked for.
    UnsupportedOperatorCombination,
}

} // verus!
