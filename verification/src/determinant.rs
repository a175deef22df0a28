//! The Slater determinant: the antisymmetric product of orbitals.
//!
//! The Slater matrix holds the value of orbital `j` at the position of
//! particle `i` in entry `[i][j]`. The wavefunction's value is the
//! determinant of that matrix. Its derivatives come from the inverse:
//! `laplacian psi = psi * sum_i sum_j laplacian phi_j(r_i) * inverse[j][i]`,
//! and the gradient by the position of particle `i` is
//! `psi * sum_j gradient phi_j(r_i) * inverse[j][i]`.
//! Determinant and inverse are supplied by a [`LinearAlgebra`].
use vstd::prelude::*;
use crate::error::Error;
use crate::linalg::{LinearAlgebra, rows_of};
use crate::scalar::{Real, one, zero};
use crate::vector::Vector3;
use crate::wavefunction::{Configuration, Differentiate, Function, WaveFunction};

verus! {

/// The values of the first `upto` orbitals at `pos`, or the first failure
/// among them.
pub open spec fn slater_row<R: Real, O: Function<R, Vector3<R>>>(
    orbs: Seq<O>,
    pos: Vector3<R>,
    upto: nat,
) -> Result<Seq<R>, Error>
    decreases upto,
{
    if upto == 0 {
        Ok(Seq::<R>::empty())
    } else {
        match slater_row(orbs, pos, (upto - 1) as nat) {
            Err(e) => Err(e),
            Ok(row) => match orbs[upto - 1].value_at(&pos) {
                Err(e) => Err(e),
                Ok(value) => Ok(row.push(value)),
            },
        }
    }
}

/// The first `upto` rows of the Slater matrix, or the first failure among
/// them.
pub open spec fn slater_rows<R: Real, O: Function<R, Vector3<R>>>(
    orbs: Seq<O>,
    cfg: Seq<Vector3<R>>,
    upto: nat,
) -> Result<Seq<Seq<R>>, Error>
    decreases upto,
{
    if upto == 0 {
        Ok(Seq::<Seq<R>>::empty())
    } else {
        match slater_rows(orbs, cfg, (upto - 1) as nat) {
            Err(e) => Err(e),
            Ok(rows) => match slater_row(orbs, cfg[upto - 1], orbs.len()) {
                Err(e) => Err(e),
                Ok(row) => Ok(rows.push(row)),
            },
        }
    }
}

/// The Slater matrix of `orbs` at `cfg`: one row for each of the first
/// particles, as many as there are orbitals. A configuration with fewer
/// particles than orbitals is a [`Error::FunctionEvaluationError`].
pub open spec fn slater_matrix<R: Real, O: Function<R, Vector3<R>>>(
    orbs: Seq<O>,
    cfg: Seq<Vector3<R>>,
) -> Result<Seq<Seq<R>>, Error> {
    if cfg.len() < orbs.len() {
        Err(Error::FunctionEvaluationError)
    } else {
        slater_rows(orbs, cfg, orbs.len())
    }
}

/// A failure among the first orbitals is the failure of the whole row.
pub proof fn lemma_row_failure_persists<R: Real, O: Function<R, Vector3<R>>>(
    orbs: Seq<O>,
    pos: Vector3<R>,
    failed: nat,
    upto: nat,
)
    requires
        failed <= upto,
        slater_row(orbs, pos, failed) is Err,
    ensures
        slater_row(orbs, pos, upto) == slater_row(orbs, pos, failed),
    decreases upto,
{
    if failed < upto {
        lemma_row_failure_persists(orbs, pos, failed, (upto - 1) as nat);
    }
}

/// A failure among the first rows is the failure of the whole matrix.
pub proof fn lemma_rows_failure_persists<R: Real, O: Function<R, Vector3<R>>>(
    orbs: Seq<O>,
    cfg: Seq<Vector3<R>>,
    failed: nat,
    upto: nat,
)
    requires
        failed <= upto,
        slater_rows(orbs, cfg, failed) is Err,
    ensures
        slater_rows(orbs, cfg, upto) == slater_rows(orbs, cfg, failed),
    decreases upto,
{
    if failed < upto {
        lemma_rows_failure_persists(orbs, cfg, failed, (upto - 1) as nat);
    }
}

/// The identity matrix of `n` rows.
pub open spec fn identity<R: Real>(n: nat) -> Seq<Seq<R>> {
    Seq::new(
        n,
        |i: int|
            Seq::new(
                n,
                |j: int|
                    if i == j {
                        one::<R>()
                    } else {
                        zero::<R>()
                    },
            ),
    )
}

/// The vector of three zeros.
pub open spec fn nowhere<R: Real>() -> Vector3<R> {
    Vector3 { x: zero::<R>(), y: zero::<R>(), z: zero::<R>() }
}

/// The gradient terms of particle `i` for the first `upto` orbitals, added
/// to `acc`: `acc + gradient phi_j(pos) * inverse[j][i]`, or the first
/// failure among the orbitals.
pub open spec fn gradient_row<R: Real, O: Differentiate<R, Vector3<R>>>(
    acc: Vector3<R>,
    orbs: Seq<O>,
    pos: Vector3<R>,
    inverse: Seq<Seq<R>>,
    i: int,
    upto: nat,
) -> Result<Vector3<R>, Error>
    decreases upto,
{
    if upto == 0 {
        Ok(acc)
    } else {
        match gradient_row(acc, orbs, pos, inverse, i, (upto - 1) as nat) {
            Err(e) => Err(e),
            Ok(sum) => match orbs[upto - 1].gradient_at(&pos) {
                Err(e) => Err(e),
                Ok(gradient) => Ok(sum.plus(gradient.scaled(inverse[upto - 1][i]))),
            },
        }
    }
}

/// The gradient by the positions of the first `upto` particles, or the
/// first failure: for a particle of the determinant, its gradient terms
/// accumulated from zero, times the determinant; for a particle beyond the
/// orbitals, zero.
pub open spec fn gradient_rows<R: Real, O: Differentiate<R, Vector3<R>>>(
    orbs: Seq<O>,
    cfg: Seq<Vector3<R>>,
    inverse: Seq<Seq<R>>,
    determinant: R,
    upto: nat,
) -> Result<Seq<Vector3<R>>, Error>
    decreases upto,
{
    if upto == 0 {
        Ok(Seq::<Vector3<R>>::empty())
    } else {
        match gradient_rows(orbs, cfg, inverse, determinant, (upto - 1) as nat) {
            Err(e) => Err(e),
            Ok(rows) => if upto - 1 < orbs.len() {
                match gradient_row(
                    nowhere::<R>(),
                    orbs,
                    cfg[upto - 1],
                    inverse,
                    upto - 1,
                    orbs.len(),
                ) {
                    Err(e) => Err(e),
                    Ok(row) => Ok(rows.push(row.scaled(determinant))),
                }
            } else {
                Ok(rows.push(nowhere::<R>()))
            },
        }
    }
}

/// A failure among the first orbitals is the failure of the whole row of
/// gradient terms.
pub proof fn lemma_gradient_row_failure_persists<R: Real, O: Differentiate<R, Vector3<R>>>(
    acc: Vector3<R>,
    orbs: Seq<O>,
    pos: Vector3<R>,
    inverse: Seq<Seq<R>>,
    i: int,
    failed: nat,
    upto: nat,
)
    requires
        failed <= upto,
        gradient_row(acc, orbs, pos, inverse, i, failed) is Err,
    ensures
        gradient_row(acc, orbs, pos, inverse, i, upto) == gradient_row(
            acc,
            orbs,
            pos,
            inverse,
            i,
            failed,
        ),
    decreases upto,
{
    if failed < upto {
        lemma_gradient_row_failure_persists(acc, orbs, pos, inverse, i, failed, (upto - 1) as nat);
    }
}

/// A failure among the first particles is the failure of the whole
/// gradient.
pub proof fn lemma_gradient_rows_failure_persists<R: Real, O: Differentiate<R, Vector3<R>>>(
    orbs: Seq<O>,
    cfg: Seq<Vector3<R>>,
    inverse: Seq<Seq<R>>,
    determinant: R,
    failed: nat,
    upto: nat,
)
    requires
        failed <= upto,
        gradient_rows(orbs, cfg, inverse, determinant, failed) is Err,
    ensures
        gradient_rows(orbs, cfg, inverse, determinant, upto) == gradient_rows(
            orbs,
            cfg,
            inverse,
            determinant,
            failed,
        ),
    decreases upto,
{
    if failed < upto {
        lemma_gradient_rows_failure_persists(
            orbs,
            cfg,
            inverse,
            determinant,
            failed,
            (upto - 1) as nat,
        );
    }
}

/// The rows of a gradient as a configuration-shaped gradient, or the
/// failure that the rows ended in.
pub open spec fn as_gradient<R: Real>(rows: Result<Seq<Vector3<R>>, Error>) -> Result<
    Configuration<R>,
    Error,
> {
    match rows {
        Err(e) => Err(e),
        Ok(rows) => Ok(choose|g: Configuration<R>| g@ == rows),
    }
}

/// The laplacian terms of particle `i` for the first `upto` orbitals,
/// added to `acc`: `acc + laplacian phi_j(pos) * inverse[j][i]`, or the first
/// failure among the orbitals.
pub open spec fn laplacian_row<R: Real, O: Differentiate<R, Vector3<R>>>(
    acc: R,
    orbs: Seq<O>,
    pos: Vector3<R>,
    inverse: Seq<Seq<R>>,
    i: int,
    upto: nat,
) -> Result<R, Error>
    decreases upto,
{
    if upto == 0 {
        Ok(acc)
    } else {
        match laplacian_row(acc, orbs, pos, inverse, i, (upto - 1) as nat) {
            Err(e) => Err(e),
            Ok(sum) => match orbs[upto - 1].laplacian_at(&pos) {
                Err(e) => Err(e),
                Ok(laplacian) => Ok(sum.sum(laplacian.product(inverse[upto - 1][i]))),
            },
        }
    }
}

/// The laplacian terms of the first `upto` particles, accumulated from
/// zero, or the first failure.
pub open spec fn laplacian_total<R: Real, O: Differentiate<R, Vector3<R>>>(
    orbs: Seq<O>,
    cfg: Seq<Vector3<R>>,
    inverse: Seq<Seq<R>>,
    upto: nat,
) -> Result<R, Error>
    decreases upto,
{
    if upto == 0 {
        Ok(zero::<R>())
    } else {
        match laplacian_total(orbs, cfg, inverse, (upto - 1) as nat) {
            Err(e) => Err(e),
            Ok(sum) => laplacian_row(sum, orbs, cfg[upto - 1], inverse, upto - 1, orbs.len()),
        }
    }
}

/// A failure among the first orbitals is the failure of the whole row of
/// laplacian terms.
pub proof fn lemma_laplacian_row_failure_persists<R: Real, O: Differentiate<R, Vector3<R>>>(
    acc: R,
    orbs: Seq<O>,
    pos: Vector3<R>,
    inverse: Seq<Seq<R>>,
    i: int,
    failed: nat,
    upto: nat,
)
    requires
        failed <= upto,
        laplacian_row(acc, orbs, pos, inverse, i, failed) is Err,
    ensures
        laplacian_row(acc, orbs, pos, inverse, i, upto) == laplacian_row(
            acc,
            orbs,
            pos,
            inverse,
            i,
            failed,
        ),
    decreases upto,
{
    if failed < upto {
        lemma_laplacian_row_failure_persists(acc, orbs, pos, inverse, i, failed, (upto - 1) as nat);
    }
}

/// A failure among the first particles is the failure of the whole sum.
pub proof fn lemma_laplacian_total_failure_persists<R: Real, O: Differentiate<R, Vector3<R>>>(
    orbs: Seq<O>,
    cfg: Seq<Vector3<R>>,
    inverse: Seq<Seq<R>>,
    failed: nat,
    upto: nat,
)
    requires
        failed <= upto,
        laplacian_total(orbs, cfg, inverse, failed) is Err,
    ensures
        laplacian_total(orbs, cfg, inverse, upto) == laplacian_total(orbs, cfg, inverse, failed),
    decreases upto,
{
    if failed < upto {
        lemma_laplacian_total_failure_persists(orbs, cfg, inverse, failed, (upto - 1) as nat);
    }
}

/// A Slater determinant of the orbitals `orbs`, with the Slater matrix of
/// the configuration it was last updated at.
pub struct SlaterDeterminant<R: Real, O, L> {
    pub orbs: Vec<O>,
    pub matrix: Vec<Vec<R>>,
    pub solver: L,
}

impl<R: Real, O: Function<R, Vector3<R>>, L: LinearAlgebra<R>> SlaterDeterminant<R, O, L> {
    /// The determinant of `orbs`; its matrix starts as the identity.
    pub fn new(orbs: Vec<O>, solver: L) -> (out: Self)
        ensures
            out.orbs == orbs,
            out.solver == solver,
            rows_of(out.matrix@) == identity::<R>(orbs@.len()),
    {
        let n = orbs.len();
        let mut matrix: Vec<Vec<R>> = Vec::new();
        let mut i: usize = 0;
        while i < n
            invariant
                i <= n,
                matrix.len() == i,
                forall|k: int| 0 <= k < i ==> (#[trigger] matrix[k])@ == identity::<R>(n as nat)[k],
            decreases n - i,
        {
            let mut row: Vec<R> = Vec::new();
            let mut j: usize = 0;
            while j < n
                invariant
                    j <= n,
                    i < n,
                    row.len() == j,
                    forall|k: int|
                        0 <= k < j ==> row[k] == if i as int == k {
                            one::<R>()
                        } else {
                            zero::<R>()
                        },
                decreases n - j,
            {
                if i == j {
                    row.push(R::from_ratio(1, 1));
                } else {
                    row.push(R::from_ratio(0, 1));
                }
                j += 1;
            }
            proof {
                assert(row@ =~= identity::<R>(n as nat)[i as int]);
            }
            matrix.push(row);
            i += 1;
        }
        proof {
            assert(rows_of(matrix@) =~= identity::<R>(n as nat));
        }
        SlaterDeterminant { orbs, matrix, solver }
    }

    /// The Slater matrix at `cfg`.
    pub fn build_matrix(&self, cfg: &Configuration<R>) -> (out: Result<Vec<Vec<R>>, Error>)
        ensures
            match out {
                Ok(matrix) => slater_matrix(self.orbs@, cfg@) == Ok::<Seq<Seq<R>>, Error>(
                    rows_of(matrix@),
                ),
                Err(e) => slater_matrix(self.orbs@, cfg@) == Err::<Seq<Seq<R>>, Error>(e),
            },
    {
        let n = self.orbs.len();
        if cfg.len() < n {
            return Err(Error::FunctionEvaluationError);
        }
        let mut matrix: Vec<Vec<R>> = Vec::new();
        proof {
            assert(rows_of(matrix@) =~= Seq::<Seq<R>>::empty());
        }
        let mut i: usize = 0;
        while i < n
            invariant
                i <= n,
                n == self.orbs.len(),
                n <= cfg.len(),
                matrix.len() == i,
                slater_rows(self.orbs@, cfg@, i as nat) == Ok::<Seq<Seq<R>>, Error>(
                    rows_of(matrix@),
                ),
            decreases n - i,
        {
            let pos = cfg[i];
            let mut row: Vec<R> = Vec::new();
            let mut j: usize = 0;
            while j < n
                invariant
                    j <= n,
                    i < n,
                    n == self.orbs.len(),
                    n <= cfg.len(),
                    pos == cfg@[i as int],
                    slater_rows(self.orbs@, cfg@, i as nat) is Ok,
                    row.len() == j,
                    slater_row(self.orbs@, pos, j as nat) == Ok::<Seq<R>, Error>(row@),
                decreases n - j,
            {
                match self.orbs[j].value(&pos) {
                    Ok(value) => {
                        row.push(value);
                    },
                    Err(e) => {
                        proof {
                            assert(slater_row(self.orbs@, pos, (j + 1) as nat) == Err::<
                                Seq<R>,
                                Error,
                            >(e));
                            lemma_row_failure_persists(
                                self.orbs@,
                                pos,
                                (j + 1) as nat,
                                n as nat,
                            );
                            assert(slater_rows(self.orbs@, cfg@, (i + 1) as nat) == Err::<
                                Seq<Seq<R>>,
                                Error,
                            >(e));
                            lemma_rows_failure_persists(
                                self.orbs@,
                                cfg@,
                                (i + 1) as nat,
                                n as nat,
                            );
                        }
                        return Err(e);
                    },
                }
                j += 1;
            }
            proof {
                assert(rows_of(matrix@.push(row)) =~= rows_of(matrix@).push(row@));
            }
            matrix.push(row);
            i += 1;
        }
        Ok(matrix)
    }

    /// Replaces the stored matrix by the Slater matrix at `cfg`. A failure
    /// is returned and changes nothing.
    pub fn update(&mut self, cfg: &Configuration<R>) -> (out: Result<(), Error>)
        ensures
            final(self).orbs == old(self).orbs,
            final(self).solver == old(self).solver,
            match slater_matrix(old(self).orbs@, cfg@) {
                Ok(matrix) => out is Ok && rows_of(final(self).matrix@) == matrix,
                Err(e) => out == Err::<(), Error>(e) && final(self).matrix == old(self).matrix,
            },
    {
        match self.build_matrix(cfg) {
            Ok(matrix) => {
                self.matrix = matrix;
                Ok(())
            },
            Err(e) => Err(e),
        }
    }
}

impl<R: Real, O: Function<R, Vector3<R>>, L: LinearAlgebra<R>> Function<
    R,
    Configuration<R>,
> for SlaterDeterminant<R, O, L> {
    /// The determinant of the Slater matrix at `x`; a
    /// [`Error::LinearAlgebraError`] where the determinant cannot be had.
    open spec fn value_at(&self, x: &Configuration<R>) -> Result<R, Error> {
        match slater_matrix(self.orbs@, x@) {
            Err(e) => Err(e),
            Ok(matrix) => match self.solver.determinant_of(matrix) {
                Some(determinant) => Ok(determinant),
                None => Err(Error::LinearAlgebraError),
            },
        }
    }

    fn value(&self, x: &Configuration<R>) -> (out: Result<R, Error>) {
        let matrix = match self.build_matrix(x) {
            Ok(m) => m,
            Err(e) => {
                return Err(e);
            },
        };
        match self.solver.determinant(&matrix) {
            Some(determinant) => Ok(determinant),
            None => Err(Error::LinearAlgebraError),
        }
    }
}

/// The sum of laplacian terms times the determinant, or the failure that
/// the sum ended in.
pub open spec fn times_determinant<R: Real>(total: Result<R, Error>, determinant: R) -> Result<
    R,
    Error,
> {
    match total {
        Err(e) => Err(e),
        Ok(sum) => Ok(sum.product(determinant)),
    }
}

/// Whether `m` has `n` rows of `n` entries.
pub open spec fn is_square<R>(m: Seq<Seq<R>>, n: int) -> bool {
    &&& m.len() == n
    &&& forall|i: int| 0 <= i < n ==> (#[trigger] m[i]).len() == n
}

/// Whether `m` has `n` rows of `n` entries.
pub fn check_square<R: Real>(m: &Vec<Vec<R>>, n: usize) -> (out: bool)
    ensures
        out == is_square(rows_of(m@), n as int),
{
    if m.len() != n {
        return false;
    }
    let mut i: usize = 0;
    while i < n
        invariant
            i <= n,
            m.len() == n,
            forall|k: int| 0 <= k < i ==> (#[trigger] rows_of(m@)[k]).len() == n,
        decreases n - i,
    {
        if m[i].len() != n {
            assert(rows_of(m@)[i as int].len() != n);
            return false;
        }
        i += 1;
    }
    true
}

impl<R: Real, O: Function<R, Vector3<R>> + Differentiate<R, Vector3<R>>, L: LinearAlgebra<
    R,
>> Differentiate<R, Configuration<R>> for SlaterDeterminant<R, O, L> {
    /// The gradient at `x` by the position of every particle: for particle
    /// `i` of the determinant, the determinant times the sum over the
    /// orbitals of `gradient phi_j(r_i) * inverse[j][i]`; zero for a particle
    /// beyond the orbitals. A [`Error::LinearAlgebraError`] where determinant
    /// or inverse cannot be had, or the inverse has not the matrix's shape.
    open spec fn gradient_at(&self, x: &Configuration<R>) -> Result<Configuration<R>, Error> {
        match slater_matrix(self.orbs@, x@) {
            Err(e) => Err(e),
            Ok(matrix) => match self.solver.determinant_of(matrix) {
                None => Err(Error::LinearAlgebraError),
                Some(determinant) => match self.solver.inverse_of(matrix) {
                    None => Err(Error::LinearAlgebraError),
                    Some(inverse) => if !is_square(inverse, self.orbs@.len() as int) {
                        Err(Error::LinearAlgebraError)
                    } else {
                        as_gradient(gradient_rows(self.orbs@, x@, inverse, determinant, x@.len()))
                    },
                },
            },
        }
    }

    /// The laplacian at `x`: the sum of the laplacian terms of all
    /// particles, times the determinant. A [`Error::LinearAlgebraError`]
    /// where determinant or inverse cannot be had, or the inverse has not the
    /// matrix's shape.
    open spec fn laplacian_at(&self, x: &Configuration<R>) -> Result<R, Error> {
        match slater_matrix(self.orbs@, x@) {
            Err(e) => Err(e),
            Ok(matrix) => match self.solver.determinant_of(matrix) {
                None => Err(Error::LinearAlgebraError),
                Some(determinant) => match self.solver.inverse_of(matrix) {
                    None => Err(Error::LinearAlgebraError),
                    Some(inverse) => if !is_square(inverse, self.orbs@.len() as int) {
                        Err(Error::LinearAlgebraError)
                    } else {
                        times_determinant(
                            laplacian_total(self.orbs@, x@, inverse, self.orbs@.len()),
                            determinant,
                        )
                    },
                },
            },
        }
    }

    fn gradient(&self, x: &Configuration<R>) -> (out: Result<Configuration<R>, Error>) {
        let n = self.orbs.len();
        let matrix = match self.build_matrix(x) {
            Ok(m) => m,
            Err(e) => {
                return Err(e);
            },
        };
        let determinant = match self.solver.determinant(&matrix) {
            Some(d) => d,
            None => {
                return Err(Error::LinearAlgebraError);
            },
        };
        let inverse = match self.solver.inverse(&matrix) {
            Some(inv) => inv,
            None => {
                return Err(Error::LinearAlgebraError);
            },
        };
        if !check_square(&inverse, n) {
            return Err(Error::LinearAlgebraError);
        }
        let ghost inv = rows_of(inverse@);
        let ghost named = self.gradient_at(x);
        proof {
            assert(named == as_gradient(
                gradient_rows(self.orbs@, x@, inv, determinant, x@.len()),
            ));
        }
        let zero = R::from_ratio(0, 1);
        let mut g: Configuration<R> = Vec::new();
        let mut i: usize = 0;
        while i < x.len()
            invariant
                i <= x.len(),
                n == self.orbs.len(),
                zero == crate::scalar::zero::<R>(),
                named == self.gradient_at(x),
                named == as_gradient(gradient_rows(self.orbs@, x@, inv, determinant, x@.len())),
                inv == rows_of(inverse@),
                is_square(inv, n as int),
                g.len() == i,
                gradient_rows(self.orbs@, x@, inv, determinant, i as nat) == Ok::<
                    Seq<Vector3<R>>,
                    Error,
                >(g@),
            decreases x.len() - i,
        {
            if i < n {
                let pos = x[i];
                let mut acc = Vector3::new(zero, zero, zero);
                let mut j: usize = 0;
                while j < n
                    invariant
                        j <= n,
                        i < n,
                        i < x.len(),
                        n == self.orbs.len(),
                        pos == x@[i as int],
                        named == self.gradient_at(x),
                        named == as_gradient(
                            gradient_rows(self.orbs@, x@, inv, determinant, x@.len()),
                        ),
                        inv == rows_of(inverse@),
                        is_square(inv, n as int),
                        gradient_rows(self.orbs@, x@, inv, determinant, i as nat) is Ok,
                        gradient_row(nowhere::<R>(), self.orbs@, pos, inv, i as int, j as nat)
                            == Ok::<Vector3<R>, Error>(acc),
                    decreases n - j,
                {
                    assert(inv[j as int].len() == n);
                    match self.orbs[j].gradient(&pos) {
                        Ok(gradient) => {
                            acc = acc.add(gradient.scale(inverse[j][i]));
                        },
                        Err(e) => {
                            proof {
                                assert(gradient_row(
                                    nowhere::<R>(),
                                    self.orbs@,
                                    pos,
                                    inv,
                                    i as int,
                                    (j + 1) as nat,
                                ) == Err::<Vector3<R>, Error>(e));
                                lemma_gradient_row_failure_persists(
                                    nowhere::<R>(),
                                    self.orbs@,
                                    pos,
                                    inv,
                                    i as int,
                                    (j + 1) as nat,
                                    n as nat,
                                );
                                assert(gradient_rows(
                                    self.orbs@,
                                    x@,
                                    inv,
                                    determinant,
                                    (i + 1) as nat,
                                ) == Err::<Seq<Vector3<R>>, Error>(e));
                                lemma_gradient_rows_failure_persists(
                                    self.orbs@,
                                    x@,
                                    inv,
                                    determinant,
                                    (i + 1) as nat,
                                    x@.len(),
                                );
                            }
                            return Err(e);
                        },
                    }
                    j += 1;
                }
                g.push(acc.scale(determinant));
            } else {
                g.push(Vector3::new(zero, zero, zero));
            }
            i += 1;
        }
        Ok(g)
    }

    fn laplacian(&self, x: &Configuration<R>) -> (out: Result<R, Error>) {
        let n = self.orbs.len();
        let matrix = match self.build_matrix(x) {
            Ok(m) => m,
            Err(e) => {
                return Err(e);
            },
        };
        let determinant = match self.solver.determinant(&matrix) {
            Some(d) => d,
            None => {
                return Err(Error::LinearAlgebraError);
            },
        };
        let inverse = match self.solver.inverse(&matrix) {
            Some(inv) => inv,
            None => {
                return Err(Error::LinearAlgebraError);
            },
        };
        if !check_square(&inverse, n) {
            return Err(Error::LinearAlgebraError);
        }
        let ghost inv = rows_of(inverse@);
        let ghost named = self.laplacian_at(x);
        proof {
            assert(named == times_determinant(
                laplacian_total(self.orbs@, x@, inv, n as nat),
                determinant,
            ));
        }
        let mut result = R::from_ratio(0, 1);
        let mut i: usize = 0;
        while i < n
            invariant
                i <= n,
                n == self.orbs.len(),
                n <= x.len(),
                named == self.laplacian_at(x),
                named == times_determinant(
                    laplacian_total(self.orbs@, x@, inv, n as nat),
                    determinant,
                ),
                inv == rows_of(inverse@),
                is_square(inv, n as int),
                laplacian_total(self.orbs@, x@, inv, i as nat) == Ok::<R, Error>(result),
            decreases n - i,
        {
            let pos = x[i];
            let ghost start = result;
            let mut j: usize = 0;
            while j < n
                invariant
                    j <= n,
                    i < n,
                    n == self.orbs.len(),
                    n <= x.len(),
                    pos == x@[i as int],
                    named == self.laplacian_at(x),
                    named == times_determinant(
                        laplacian_total(self.orbs@, x@, inv, n as nat),
                        determinant,
                    ),
                    inv == rows_of(inverse@),
                    is_square(inv, n as int),
                    laplacian_total(self.orbs@, x@, inv, i as nat) == Ok::<R, Error>(start),
                    laplacian_row(start, self.orbs@, pos, inv, i as int, j as nat) == Ok::<
                        R,
                        Error,
                    >(result),
                decreases n - j,
            {
                assert(inv[j as int].len() == n);
                match self.orbs[j].laplacian(&pos) {
                    Ok(laplacian) => {
                        result = result.add(laplacian.mul(inverse[j][i]));
                    },
                    Err(e) => {
                        proof {
                            assert(laplacian_row(
                                start,
                                self.orbs@,
                                pos,
                                inv,
                                i as int,
                                (j + 1) as nat,
                            ) == Err::<R, Error>(e));
                            lemma_laplacian_row_failure_persists(
                                start,
                                self.orbs@,
                                pos,
                                inv,
                                i as int,
                                (j + 1) as nat,
                                n as nat,
                            );
                            assert(laplacian_total(self.orbs@, x@, inv, (i + 1) as nat) == Err::<
                                R,
                                Error,
                            >(e));
                            lemma_laplacian_total_failure_persists(
                                self.orbs@,
                                x@,
                                inv,
                                (i + 1) as nat,
                                n as nat,
                            );
                        }
                        return Err(e);
                    },
                }
                j += 1;
            }
            i += 1;
        }
        Ok(result.mul(determinant))
    }
}

impl<R: Real, O, L> WaveFunction for SlaterDeterminant<R, O, L> {
    /// One particle for each orbital.
    open spec fn electrons(&self) -> usize {
        self.orbs.len()
    }

    fn num_electrons(&self) -> (out: usize) {
        self.orbs.len()
    }
}

} // verus!
