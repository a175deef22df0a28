//! What the engine asks of a trial wavefunction.
//!
//! Evaluation, differentiation and caching are separate capabilities; the
//! sampler and the Metropolis kernels are generic over any type that has the
//! ones they need. Evaluation is pure: each method is paired with a
//! specification function that names its result at a given argument, and an
//! implementation promises only that the method returns the named value.
use vstd::prelude::*;
use crate::error::Error;
use crate::scalar::Real;
use crate::vector::Vector3;

verus! {

/// The positions of all particles, one per particle.
pub type Configuration<R> = Vec<Vector3<R>>;

/// A function with numbers for values. `X` is what it is evaluated at: a
/// position for an orbital, a configuration for a many-body wavefunction.
pub trait Function<R: Real, X> {
    /// The value at `x`.
    spec fn value_at(&self, x: &X) -> Result<R, Error>;

    fn value(&self, x: &X) -> (out: Result<R, Error>)
        ensures
            out == self.value_at(x),
    ;
}

/// A function that can be differentiated. The gradient has the shape of the
/// argument; the laplacian is a number.
pub trait Differentiate<R: Real, X: View> {
    /// The gradient at `x`.
    spec fn gradient_at(&self, x: &X) -> Result<X, Error>;

    /// The laplacian at `x`.
    spec fn laplacian_at(&self, x: &X) -> Result<R, Error>;

    fn gradient(&self, x: &X) -> (out: Result<X, Error>)
        ensures
            match out {
                Ok(g) => self.gradient_at(x) is Ok && g@ == self.gradient_at(x)->Ok_0@,
                Err(e) => self.gradient_at(x) == Err::<X, Error>(e),
            },
    ;

    fn laplacian(&self, x: &X) -> (out: Result<R, Error>)
        ensures
            out == self.laplacian_at(x),
    ;
}

/// A many-body wavefunction: it knows for how many particles it stands.
pub trait WaveFunction {
    /// The number of particles.
    spec fn electrons(&self) -> usize;

    fn num_electrons(&self) -> (out: usize)
        ensures
            out == self.electrons(),
    ;
}

/// Value, gradient and laplacian of a many-body wavefunction at one
/// configuration.
#[derive(Clone, Debug, PartialEq)]
pub struct Vgl<R: Real> {
    pub value: R,
    pub gradient: Vec<Vector3<R>>,
    pub laplacian: R,
}

/// The mathematical content of a [`Vgl`].
pub struct VglView<R: Real> {
    pub value: R,
    pub gradient: Seq<Vector3<R>>,
    pub laplacian: R,
}

impl<R: Real> View for Vgl<R> {
    type V = VglView<R>;

    open spec fn view(&self) -> VglView<R> {
        VglView { value: self.value, gradient: self.gradient@, laplacian: self.laplacian }
    }
}

/// Whether two proposals hold the same state, or both hold none.
pub open spec fn same_proposal<R: Real>(a: Option<Vgl<R>>, b: Option<Vgl<R>>) -> bool {
    match (a, b) {
        (Some(x), Some(y)) => x@ == y@,
        (None, None) => true,
        _ => false,
    }
}

/// A wavefunction that remembers what it evaluated to.
///
/// The cache holds the state of the last committed configuration and, while
/// a move is being decided, the state of the proposed one. A proposal never
/// touches the committed state: it is either committed (`push_update`) or
/// discarded (`flush_update`). `refresh` recomputes the committed state from
/// scratch. None of these changes what the wavefunction evaluates to.
pub trait Cache<R: Real>: Sized {
    /// The committed state.
    spec fn committed(&self) -> Vgl<R>;

    /// The state of the proposed configuration, if one is proposed.
    spec fn pending(&self) -> Option<Vgl<R>>;

    /// What a full evaluation at `cfg` gives.
    spec fn evaluated(&self, cfg: &Configuration<R>) -> Result<Vgl<R>, Error>;

    /// Recomputes the committed state at `cfg` and drops any proposal. A
    /// failed evaluation is returned and changes nothing.
    fn refresh(&mut self, cfg: &Configuration<R>) -> (out: Result<(), Error>)
        ensures
            forall|c: &Configuration<R>| #[trigger]
                final(self).evaluated(c) == old(self).evaluated(c),
            match old(self).evaluated(cfg) {
                Ok(state) => {
                    &&& out is Ok
                    &&& final(self).committed()@ == state@
                    &&& final(self).pending() is None
                },
                Err(e) => {
                    &&& out == Err::<(), Error>(e)
                    &&& final(self).committed()@ == old(self).committed()@
                    &&& same_proposal(final(self).pending(), old(self).pending())
                },
            },
    ;

    /// Evaluates at the proposed configuration `cfg` and holds the result as
    /// the proposal. A failed evaluation is returned and changes nothing.
    fn enqueue_update(&mut self, cfg: &Configuration<R>) -> (out: Result<(), Error>)
        ensures
            forall|c: &Configuration<R>| #[trigger]
                final(self).evaluated(c) == old(self).evaluated(c),
            final(self).committed()@ == old(self).committed()@,
            match old(self).evaluated(cfg) {
                Ok(state) => {
                    &&& out is Ok
                    &&& final(self).pending() is Some
                    &&& final(self).pending()->0@ == state@
                },
                Err(e) => {
                    &&& out == Err::<(), Error>(e)
                    &&& same_proposal(final(self).pending(), old(self).pending())
                },
            },
    ;

    /// Commits the proposal, if there is one.
    fn push_update(&mut self)
        ensures
            forall|c: &Configuration<R>| #[trigger]
                final(self).evaluated(c) == old(self).evaluated(c),
            final(self).pending() is None,
            match old(self).pending() {
                Some(candidate) => final(self).committed()@ == candidate@,
                None => final(self).committed()@ == old(self).committed()@,
            },
    ;

    /// Discards the proposal, if there is one.
    fn flush_update(&mut self)
        ensures
            forall|c: &Configuration<R>| #[trigger]
                final(self).evaluated(c) == old(self).evaluated(c),
            final(self).pending() is None,
            final(self).committed()@ == old(self).committed()@,
    ;

    /// The committed state.
    fn current_value(&self) -> (out: Vgl<R>)
        ensures
            out@ == self.committed()@,
    ;
}

/// Whether two states of a cache evaluate alike everywhere.
pub open spec fn same_function<R: Real, C: Cache<R>>(before: C, after: C) -> bool {
    forall|cfg: &Configuration<R>| #[trigger] after.evaluated(cfg) == before.evaluated(cfg)
}

/// What `refresh` at `cfg` does to a cache.
pub open spec fn refreshed<R: Real, C: Cache<R>>(
    before: C,
    cfg: &Configuration<R>,
    after: C,
    out: Result<(), Error>,
) -> bool {
    &&& same_function(before, after)
    &&& match before.evaluated(cfg) {
        Ok(state) => {
            &&& out is Ok
            &&& after.committed()@ == state@
            &&& after.pending() is None
        },
        Err(e) => {
            &&& out == Err::<(), Error>(e)
            &&& after.committed()@ == before.committed()@
            &&& same_proposal(after.pending(), before.pending())
        },
    }
}

/// Refreshing twice in a row at one configuration leaves the cache with the
/// state that the first refresh gave it: value, gradient and laplacian.
pub proof fn lemma_refresh_idempotent<R: Real, C: Cache<R>>(
    before: C,
    once: C,
    twice: C,
    cfg: &Configuration<R>,
    first: Result<(), Error>,
    second: Result<(), Error>,
)
    requires
        refreshed(before, cfg, once, first),
        refreshed(once, cfg, twice, second),
    ensures
        second == first,
        twice.committed()@ == once.committed()@,
        same_proposal(twice.pending(), once.pending()),
{
    assert(once.evaluated(cfg) == before.evaluated(cfg));
    if before.evaluated(cfg) is Ok {
        assert(first->Ok_0 == ());
        assert(second->Ok_0 == ());
        assert(first == Ok::<(), Error>(()));
        assert(second == Ok::<(), Error>(()));
    }
}

} // verus!
