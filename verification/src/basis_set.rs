//! Basis sets: closed-form orbitals of several widths on several centres,
//! and their linear combinations.
//!
//! A basis set holds centres and widths. A linear combination takes one row
//! of coefficients for each centre, one coefficient for each width, and sums
//! `coefficient * orbital(position - centre, width)` over all of them: value,
//! gradient and laplacian alike. The orbital of width `w` is the closed form
//! stretched by `w`, except for the Gaussian, whose closed form takes a
//! width itself.
use vstd::prelude::*;
use crate::basis::{BasisFunction, Gaussian, Hydrogen1s, Hydrogen2s, PointVgl};
use crate::orbitals::shorter;
use crate::scalar::{Real, square, zero};
use crate::vector::Vector3;

verus! {

/// Which closed form a basis set is made of.
#[derive(Clone, Copy, Debug, PartialEq, Eq, Structural)]
pub enum Shape {
    Gaussian,
    Hydrogen1s,
    Hydrogen2s,
}

/// What `vgl` becomes when the function it belongs to is stretched by
/// `width`: the value stays, the gradient is divided by `width`, the
/// laplacian by its square.
pub open spec fn stretched<R: Real>(vgl: PointVgl<R>, width: R) -> PointVgl<R> {
    PointVgl {
        value: vgl.value,
        gradient: vgl.gradient.shrunk(width),
        laplacian: vgl.laplacian.quotient(square(width)),
    }
}

/// Value, gradient and laplacian at `pos` of the orbital of the given shape
/// and width at the origin: the Gaussian of that width, or the hydrogen
/// orbital evaluated at `pos / width` and stretched.
pub open spec fn orbital_at<R: Real>(shape: Shape, pos: Vector3<R>, width: R) -> PointVgl<R> {
    match shape {
        Shape::Gaussian => (Gaussian { width }).evaluated(&pos),
        Shape::Hydrogen1s => stretched((Hydrogen1s {  }).evaluated(&pos.shrunk(width)), width),
        Shape::Hydrogen2s => stretched((Hydrogen2s {  }).evaluated(&pos.shrunk(width)), width),
    }
}

/// `acc` plus `coefficient` times `term`, in value, gradient and laplacian.
pub open spec fn accumulated<R: Real>(acc: PointVgl<R>, coefficient: R, term: PointVgl<R>) -> PointVgl<
    R,
> {
    PointVgl {
        value: acc.value.sum(coefficient.product(term.value)),
        gradient: acc.gradient.plus(
            Vector3 {
                x: coefficient.product(term.gradient.x),
                y: coefficient.product(term.gradient.y),
                z: coefficient.product(term.gradient.z),
            },
        ),
        laplacian: acc.laplacian.sum(coefficient.product(term.laplacian)),
    }
}

/// Zero value, zero gradient, zero laplacian.
pub open spec fn nothing<R: Real>() -> PointVgl<R> {
    PointVgl {
        value: zero::<R>(),
        gradient: Vector3 { x: zero::<R>(), y: zero::<R>(), z: zero::<R>() },
        laplacian: zero::<R>(),
    }
}

/// `a` plus `b`, in value, gradient and laplacian.
pub open spec fn joined<R: Real>(a: PointVgl<R>, b: PointVgl<R>) -> PointVgl<R> {
    PointVgl {
        value: a.value.sum(b.value),
        gradient: a.gradient.plus(b.gradient),
        laplacian: a.laplacian.sum(b.laplacian),
    }
}

/// The contribution of one centre: the sum over the first `upto` widths of
/// `coefficient * orbital(rel, width)`, accumulated from nothing, where `rel`
/// is the position seen from the centre.
pub open spec fn centre_terms<R: Real>(
    shape: Shape,
    rel: Vector3<R>,
    coeffs: Seq<R>,
    widths: Seq<R>,
    upto: nat,
) -> PointVgl<R>
    decreases upto,
{
    if upto == 0 {
        nothing::<R>()
    } else {
        accumulated(
            centre_terms(shape, rel, coeffs, widths, (upto - 1) as nat),
            coeffs[upto - 1],
            orbital_at(shape, rel, widths[upto - 1]),
        )
    }
}

/// The linear combination over the first `upto` centres, accumulated from
/// nothing. A centre has as many terms as it has both coefficients and
/// widths.
pub open spec fn combination<R: Real>(
    shape: Shape,
    centers: Seq<Vector3<R>>,
    widths: Seq<R>,
    pos: Vector3<R>,
    coeffs: Seq<Seq<R>>,
    upto: nat,
) -> PointVgl<R>
    decreases upto,
{
    if upto == 0 {
        nothing::<R>()
    } else {
        joined(
            combination(shape, centers, widths, pos, coeffs, (upto - 1) as nat),
            centre_terms(
                shape,
                pos.minus(centers[upto - 1]),
                coeffs[upto - 1],
                widths,
                shorter(coeffs[upto - 1].len(), widths.len()),
            ),
        )
    }
}

/// Value, gradient and laplacian at `pos` of the orbital of the given shape
/// and width at the origin.
pub fn orbital<R: Real>(shape: Shape, pos: &Vector3<R>, width: R) -> (out: PointVgl<R>)
    ensures
        out == orbital_at(shape, *pos, width),
{
    match shape {
        Shape::Gaussian => (Gaussian { width }).evaluate(pos),
        Shape::Hydrogen1s => {
            let vgl = (Hydrogen1s {  }).evaluate(&pos.shrink(width));
            PointVgl {
                value: vgl.value,
                gradient: vgl.gradient.shrink(width),
                laplacian: vgl.laplacian.div(width.mul(width)),
            }
        },
        Shape::Hydrogen2s => {
            let vgl = (Hydrogen2s {  }).evaluate(&pos.shrink(width));
            PointVgl {
                value: vgl.value,
                gradient: vgl.gradient.shrink(width),
                laplacian: vgl.laplacian.div(width.mul(width)),
            }
        },
    }
}

/// The linear combination of the orbitals of the given shape on `centers`
/// with `widths`, at `pos`, with one row of `coeffs` for each centre.
pub fn combine<R: Real>(
    shape: Shape,
    centers: &Vec<Vector3<R>>,
    widths: &Vec<R>,
    pos: &Vector3<R>,
    coeffs: &Vec<Vec<R>>,
) -> (out: PointVgl<R>)
    requires
        coeffs.len() == centers.len(),
    ensures
        out == combination(
            shape,
            centers@,
            widths@,
            *pos,
            crate::linalg::rows_of(coeffs@),
            centers@.len(),
        ),
{
    let ghost rows = crate::linalg::rows_of(coeffs@);
    let zero = R::from_ratio(0, 1);
    let mut total = PointVgl { value: zero, gradient: Vector3::new(zero, zero, zero), laplacian: zero };
    let mut i: usize = 0;
    while i < centers.len()
        invariant
            i <= centers.len(),
            coeffs.len() == centers.len(),
            rows == crate::linalg::rows_of(coeffs@),
            zero == crate::scalar::zero::<R>(),
            total == combination(shape, centers@, widths@, *pos, rows, i as nat),
        decreases centers.len() - i,
    {
        let rel = pos.sub(centers[i]);
        let row = &coeffs[i];
        let terms = if row.len() <= widths.len() {
            row.len()
        } else {
            widths.len()
        };
        let mut part = PointVgl {
            value: zero,
            gradient: Vector3::new(zero, zero, zero),
            laplacian: zero,
        };
        let mut k: usize = 0;
        while k < terms
            invariant
                k <= terms,
                terms <= row.len(),
                terms <= widths.len(),
                zero == crate::scalar::zero::<R>(),
                part == centre_terms(shape, rel, row@, widths@, k as nat),
            decreases terms - k,
        {
            let c = row[k];
            let term = orbital(shape, &rel, widths[k]);
            part = PointVgl {
                value: part.value.add(c.mul(term.value)),
                gradient: part.gradient.add(
                    Vector3::new(
                        c.mul(term.gradient.x),
                        c.mul(term.gradient.y),
                        c.mul(term.gradient.z),
                    ),
                ),
                laplacian: part.laplacian.add(c.mul(term.laplacian)),
            };
            k += 1;
        }
        total = PointVgl {
            value: total.value.add(part.value),
            gradient: total.gradient.add(part.gradient),
            laplacian: total.laplacian.add(part.laplacian),
        };
        i += 1;
    }
    total
}

/// A set of basis functions that can be combined linearly.
pub trait BasisSet<R: Real> {
    /// The number of centres, and so of rows of coefficients.
    spec fn centres(&self) -> usize;

    /// The linear combination at `pos` with the coefficients `coeffs`.
    spec fn combined(&self, pos: &Vector3<R>, coeffs: &Vec<Vec<R>>) -> PointVgl<R>;

    fn linear_combination(&self, pos: &Vector3<R>, coeffs: &Vec<Vec<R>>) -> (out: PointVgl<R>)
        requires
            coeffs.len() == self.centres(),
        ensures
            out == self.combined(pos, coeffs),
    ;
}

/// Gaussian orbitals of the given widths on the given centres.
#[derive(Clone)]
pub struct GaussianBasis<R: Real> {
    pub centers: Vec<Vector3<R>>,
    pub widths: Vec<R>,
}

impl<R: Real> GaussianBasis<R> {
    pub fn new(centers: Vec<Vector3<R>>, widths: Vec<R>) -> (out: Self)
        ensures
            out.centers == centers,
            out.widths == widths,
    {
        Self { centers, widths }
    }
}

impl<R: Real> BasisSet<R> for GaussianBasis<R> {
    open spec fn centres(&self) -> usize {
        self.centers.len()
    }

    open spec fn combined(&self, pos: &Vector3<R>, coeffs: &Vec<Vec<R>>) -> PointVgl<R> {
        combination(
            Shape::Gaussian,
            self.centers@,
            self.widths@,
            *pos,
            crate::linalg::rows_of(coeffs@),
            self.centers@.len(),
        )
    }

    fn linear_combination(&self, pos: &Vector3<R>, coeffs: &Vec<Vec<R>>) -> (out: PointVgl<R>) {
        combine(Shape::Gaussian, &self.centers, &self.widths, pos, coeffs)
    }
}

/// Hydrogen 1s orbitals of the given widths on the given centres.
#[derive(Clone)]
pub struct Hydrogen1sBasis<R: Real> {
    pub centers: Vec<Vector3<R>>,
    pub widths: Vec<R>,
}

impl<R: Real> Hydrogen1sBasis<R> {
    pub fn new(centers: Vec<Vector3<R>>, widths: Vec<R>) -> (out: Self)
        ensures
            out.centers == centers,
            out.widths == widths,
    {
        Self { centers, widths }
    }
}

impl<R: Real> BasisSet<R> for Hydrogen1sBasis<R> {
    open spec fn centres(&self) -> usize {
        self.centers.len()
    }

    open spec fn combined(&self, pos: &Vector3<R>, coeffs: &Vec<Vec<R>>) -> PointVgl<R> {
        combination(
            Shape::Hydrogen1s,
            self.centers@,
            self.widths@,
            *pos,
            crate::linalg::rows_of(coeffs@),
            self.centers@.len(),
        )
    }

    fn linear_combination(&self, pos: &Vector3<R>, coeffs: &Vec<Vec<R>>) -> (out: PointVgl<R>) {
        combine(Shape::Hydrogen1s, &self.centers, &self.widths, pos, coeffs)
    }
}

/// Hydrogen 2s orbitals of the given widths on the given centres.
#[derive(Clone)]
pub struct Hydrogen2sBasis<R: Real> {
    pub centers: Vec<Vector3<R>>,
    pub widths: Vec<R>,
}

impl<R: Real> Hydrogen2sBasis<R> {
    pub fn new(centers: Vec<Vector3<R>>, widths: Vec<R>) -> (out: Self)
        ensures
            out.centers == centers,
            out.widths == widths,
    {
        Self { centers, widths }
    }
}

impl<R: Real> BasisSet<R> for Hydrogen2sBasis<R> {
    open spec fn centres(&self) -> usize {
        self.centers.len()
    }

    open spec fn combined(&self, pos: &Vector3<R>, coeffs: &Vec<Vec<R>>) -> PointVgl<R> {
        combination(
            Shape::Hydrogen2s,
            self.centers@,
            self.widths@,
            *pos,
            crate::linalg::rows_of(coeffs@),
            self.centers@.len(),
        )
    }

    fn linear_combination(&self, pos: &Vector3<R>, coeffs: &Vec<Vec<R>>) -> (out: PointVgl<R>) {
        combine(Shape::Hydrogen2s, &self.centers, &self.widths, pos, coeffs)
    }
}

} // verus!
