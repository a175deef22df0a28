//! Trial wavefunctions.
use vstd::prelude::*;
use crate::determinant::{SlaterDeterminant, slater_matrix};
use crate::error::Error;
use crate::linalg::{LinearAlgebra, rows_of};
use crate::scalar::{Real, one, zero};
use crate::vector::{Vector3, duplicate_positions};
use crate::wavefunction::{Cache, Configuration, Differentiate, Function, Vgl, WaveFunction};

verus! {

/// A Slater determinant with a correlation factor: the coefficients of the
/// determinants, the coefficients of the orbitals, and the factor.
pub struct JastrowSlater<R: Real, J> {
    pub ci_coeffs: Vec<R>,
    pub orb_coeffs: Vec<R>,
    pub jastrow: J,
}

impl<R: Real, J> JastrowSlater<R, J> {
    pub fn new(cis: Vec<R>, orbs: Vec<R>, jas: J) -> (out: Self)
        ensures
            out.ci_coeffs == cis,
            out.orb_coeffs == orbs,
            out.jastrow == jas,
    {
        JastrowSlater { ci_coeffs: cis, orb_coeffs: orbs, jastrow: jas }
    }
}

/// A single Slater determinant with a cache of what it last evaluated to.
pub struct SingleDeterminant<R: Real, O, L> {
    pub det: SlaterDeterminant<R, O, L>,
    pub committed: Vgl<R>,
    pub proposal: Option<Vgl<R>>,
}

impl<R: Real, O: Function<R, Vector3<R>> + Differentiate<R, Vector3<R>>, L: LinearAlgebra<
    R,
>> SingleDeterminant<R, O, L> {
    /// The determinant of `orbs`. Until the cache is first refreshed it
    /// holds the value one, an empty gradient and the laplacian zero.
    pub fn new(orbs: Vec<O>, solver: L) -> (out: Self)
        ensures
            out.det.orbs == orbs,
            out.det.solver == solver,
            out.committed.value == one::<R>(),
            out.committed.gradient@.len() == 0,
            out.committed.laplacian == zero::<R>(),
            out.proposal is None,
    {
        Self {
            det: SlaterDeterminant::new(orbs, solver),
            committed: Vgl {
                value: R::from_ratio(1, 1),
                gradient: Vec::new(),
                laplacian: R::from_ratio(0, 1),
            },
            proposal: None,
        }
    }

    /// Replaces the stored Slater matrix by the one at `cfg`. A failure is
    /// returned and changes nothing.
    pub fn update(&mut self, cfg: &Configuration<R>) -> (out: Result<(), Error>)
        ensures
            final(self).det.orbs == old(self).det.orbs,
            final(self).det.solver == old(self).det.solver,
            final(self).committed == old(self).committed,
            final(self).proposal == old(self).proposal,
            match slater_matrix(old(self).det.orbs@, cfg@) {
                Ok(matrix) => out is Ok && rows_of(final(self).det.matrix@) == matrix,
                Err(e) => out == Err::<(), Error>(e) && final(self).det.matrix == old(
                    self,
                ).det.matrix,
            },
    {
        self.det.update(cfg)
    }

    /// Value, gradient and laplacian at `cfg`, in that order; the first
    /// failure ends it.
    pub fn evaluate(&self, cfg: &Configuration<R>) -> (out: Result<Vgl<R>, Error>)
        ensures
            match out {
                Ok(state) => self.evaluated(cfg) is Ok && state@ == self.evaluated(cfg)->Ok_0@,
                Err(e) => self.evaluated(cfg) == Err::<Vgl<R>, Error>(e),
            },
    {
        let value = match self.det.value(cfg) {
            Ok(v) => v,
            Err(e) => {
                return Err(e);
            },
        };
        let gradient = match self.det.gradient(cfg) {
            Ok(g) => g,
            Err(e) => {
                return Err(e);
            },
        };
        let laplacian = match self.det.laplacian(cfg) {
            Ok(l) => l,
            Err(e) => {
                return Err(e);
            },
        };
        Ok(Vgl { value, gradient, laplacian })
    }
}

impl<R: Real, O: Function<R, Vector3<R>> + Differentiate<R, Vector3<R>>, L: LinearAlgebra<
    R,
>> Function<R, Configuration<R>> for SingleDeterminant<R, O, L> {
    open spec fn value_at(&self, x: &Configuration<R>) -> Result<R, Error> {
        self.det.value_at(x)
    }

    fn value(&self, x: &Configuration<R>) -> (out: Result<R, Error>) {
        self.det.value(x)
    }
}

impl<R: Real, O: Function<R, Vector3<R>> + Differentiate<R, Vector3<R>>, L: LinearAlgebra<
    R,
>> Differentiate<R, Configuration<R>> for SingleDeterminant<R, O, L> {
    open spec fn gradient_at(&self, x: &Configuration<R>) -> Result<Configuration<R>, Error> {
        self.det.gradient_at(x)
    }

    open spec fn laplacian_at(&self, x: &Configuration<R>) -> Result<R, Error> {
        self.det.laplacian_at(x)
    }

    fn gradient(&self, x: &Configuration<R>) -> (out: Result<Configuration<R>, Error>) {
        self.det.gradient(x)
    }

    fn laplacian(&self, x: &Configuration<R>) -> (out: Result<R, Error>) {
        self.det.laplacian(x)
    }
}

impl<R: Real, O, L> WaveFunction for SingleDeterminant<R, O, L> {
    open spec fn electrons(&self) -> usize {
        self.det.orbs.len()
    }

    fn num_electrons(&self) -> (out: usize) {
        self.det.orbs.len()
    }
}

impl<R: Real, O: Function<R, Vector3<R>> + Differentiate<R, Vector3<R>>, L: LinearAlgebra<
    R,
>> Cache<R> for SingleDeterminant<R, O, L> {
    open spec fn committed(&self) -> Vgl<R> {
        self.committed
    }

    open spec fn pending(&self) -> Option<Vgl<R>> {
        self.proposal
    }

    /// Value, gradient and laplacian of the determinant at `cfg`, in that
    /// order; the first failure ends it.
    open spec fn evaluated(&self, cfg: &Configuration<R>) -> Result<Vgl<R>, Error> {
        match self.det.value_at(cfg) {
            Err(e) => Err(e),
            Ok(value) => match self.det.gradient_at(cfg) {
                Err(e) => Err(e),
                Ok(gradient) => match self.det.laplacian_at(cfg) {
                    Err(e) => Err(e),
                    Ok(laplacian) => Ok(Vgl { value, gradient, laplacian }),
                },
            },
        }
    }

    fn refresh(&mut self, cfg: &Configuration<R>) -> (out: Result<(), Error>) {
        let state = match self.evaluate(cfg) {
            Ok(state) => state,
            Err(e) => {
                return Err(e);
            },
        };
        let stored = self.det.update(cfg);
        assert(stored is Ok);
        self.committed = state;
        self.proposal = None;
        Ok(())
    }

    fn enqueue_update(&mut self, cfg: &Configuration<R>) -> (out: Result<(), Error>) {
        match self.evaluate(cfg) {
            Ok(state) => {
                self.proposal = Some(state);
                Ok(())
            },
            Err(e) => Err(e),
        }
    }

    fn push_update(&mut self) {
        let mut taken: Option<Vgl<R>> = None;
        core::mem::swap(&mut self.proposal, &mut taken);
        match taken {
            Some(state) => {
                self.committed = state;
            },
            None => {},
        }
    }

    fn flush_update(&mut self) {
        self.proposal = None;
    }

    fn current_value(&self) -> (out: Vgl<R>) {
        Vgl {
            value: self.committed.value,
            gradient: duplicate_positions(&self.committed.gradient),
            laplacian: self.committed.laplacian,
        }
    }
}

} // verus!
