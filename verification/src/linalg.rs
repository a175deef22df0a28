//! Dense matrices, and the linear-algebra routines the engine asks for.
//!
//! A dense matrix is a `Vec<Vec<R>>`, one inner vector per row. Determinant,
//! inverse and symmetric solve are not computed here: they are supplied by an
//! implementation of [`LinearAlgebra`].
use vstd::prelude::*;
use crate::scalar::Real;

verus! {

/// The rows of a dense matrix as sequences.
pub open spec fn rows_of<R>(m: Seq<Vec<R>>) -> Seq<Seq<R>> {
    Seq::new(m.len(), |i: int| m[i]@)
}

/// Whether `m` has `rows` rows of `cols` entries each.
pub open spec fn has_shape<R>(m: Seq<Vec<R>>, rows: int, cols: int) -> bool {
    &&& m.len() == rows
    &&& forall|i: int| 0 <= i < rows ==> (#[trigger] m[i]).len() == cols
}

/// The entries of a dense matrix, row by row, as mathematics.
pub type Rows<R> = Seq<Seq<R>>;

/// The entries of a dense vector as mathematics.
pub type Entries<R> = Seq<R>;

/// Determinant, inverse and symmetric solve.
///
/// Each routine is paired with a specification function that names its
/// result for given entries; an implementation promises that the routine
/// returns the named value, and nothing about what that value is. `None`
/// stands for failure: a singular matrix, a shape the routine does not take.
/// The specification functions are never run.
pub trait LinearAlgebra<R: Real> {
    /// The determinant of the matrix with the rows `m`.
    spec fn determinant_of(&self, m: Rows<R>) -> Option<R>;

    /// The rows of the inverse of the matrix with the rows `m`.
    spec fn inverse_of(&self, m: Rows<R>) -> Option<Rows<R>>;

    /// The solution `x` of `m x = b`, for a symmetric `m`.
    spec fn solution_of(&self, m: Rows<R>, b: Entries<R>) -> Option<Entries<R>>;

    fn determinant(&self, m: &Vec<Vec<R>>) -> (out: Option<R>)
        ensures
            out == self.determinant_of(rows_of(m@)),
    ;

    fn inverse(&self, m: &Vec<Vec<R>>) -> (out: Option<Vec<Vec<R>>>)
        ensures
            match out {
                Some(inverse) => self.inverse_of(rows_of(m@)) == Some(rows_of(inverse@)),
                None => self.inverse_of(rows_of(m@)) is None,
            },
    ;

    fn solve_symmetric(&self, m: &Vec<Vec<R>>, b: &Vec<R>) -> (out: Option<Vec<R>>)
        ensures
            match out {
                Some(x) => self.solution_of(rows_of(m@), b@) == Some(x@),
                None => self.solution_of(rows_of(m@), b@) is None,
            },
    ;
}

} // verus!
