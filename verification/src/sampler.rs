//! The sampler: one Markov chain over configurations.
//!
//! A sampler owns a wavefunction, the present configuration, a Metropolis
//! kernel and a registry of named observables. A sweep attempts a move of
//! every particle in turn, commits or discards each in the wavefunction's
//! cache, and refreshes the cache at the configuration it ends in. Sampling
//! evaluates every registered observable and divides it by the cached value
//! of the wavefunction, which gives the local value of the observable.
use vstd::prelude::*;
use crate::error::Error;
use crate::metropolis::{
    Metropolis,
    RandomSource,
    can_draw,
    drawable,
    single_particle_move,
    within,
};
use crate::operator::{Operator, OperatorValue, Value, divided};
use crate::scalar::{Real, zero};
use crate::table::Table;
use crate::vector::Vector3;
use crate::wavefunction::{Cache, Configuration, WaveFunction, same_function};

verus! {

/// What every Monte Carlo sampler offers to a run loop.
pub trait MonteCarloSampler<R: Real> {
    /// The local value of every observable at the present configuration.
    fn sample(&self) -> Result<Table<OperatorValue<R>>, Error>;

    /// One sweep over all particles.
    fn move_state(&mut self) -> Result<(), Error>;

    /// The number of registered observables.
    fn num_observables(&self) -> usize;

    /// The running acceptance fraction: accepted moves over attempted
    /// moves, so far.
    fn acceptance(&self) -> R;

    /// The names of the registered observables.
    fn observable_names(&self) -> Vec<&String>;
}

/// A Monte Carlo sampler with a Metropolis kernel.
pub struct Sampler<R: Real, T, V, O> {
    pub wave_function: T,
    pub config: Configuration<R>,
    pub metropolis: V,
    pub observables: Table<O>,
    /// How many moves were accepted so far.
    pub accepted: usize,
    /// How many moves were attempted so far.
    pub attempted: usize,
}

/// A count of `start` after `more` have been added: the sum, or the largest
/// count there is where the sum would pass it.
pub open spec fn counted(start: usize, more: nat) -> usize {
    if start + more <= usize::MAX {
        (start + more) as usize
    } else {
        usize::MAX
    }
}

/// The acceptance fraction of `accepted` moves among `attempted`: zero
/// before any move was attempted.
pub open spec fn fraction<R: Real>(accepted: usize, attempted: usize) -> R {
    if attempted == 0 {
        zero::<R>()
    } else {
        R::count(accepted).quotient(R::count(attempted))
    }
}

/// A count with one added.
pub fn count_up(count: usize) -> (out: usize)
    ensures
        out == counted(count, 1),
{
    if count < usize::MAX {
        count + 1
    } else {
        count
    }
}

/// The configuration after the first `upto` outcomes of a sweep that began
/// at `start`: an accepted candidate takes the place of the configuration, a
/// rejection leaves it as it was.
pub open spec fn config_after<R: Real>(
    start: Configuration<R>,
    outcomes: Seq<Option<Configuration<R>>>,
    upto: nat,
) -> Configuration<R>
    decreases upto,
{
    if upto == 0 {
        start
    } else {
        match outcomes[upto - 1] {
            Some(candidate) => candidate,
            None => config_after(start, outcomes, (upto - 1) as nat),
        }
    }
}

/// How many of the first `upto` outcomes are accepted moves.
pub open spec fn accepted_among<R: Real>(outcomes: Seq<Option<Configuration<R>>>, upto: nat) -> nat
    decreases upto,
{
    if upto == 0 {
        0
    } else {
        accepted_among(outcomes, (upto - 1) as nat) + if outcomes[upto - 1] is Some {
            1nat
        } else {
            0nat
        }
    }
}

/// One more outcome changes nothing of what the earlier ones came to, and
/// no more moves are accepted than were attempted.
pub proof fn lemma_outcomes_extend<R: Real>(
    start: Configuration<R>,
    outcomes: Seq<Option<Configuration<R>>>,
    next: Option<Configuration<R>>,
    upto: nat,
)
    requires
        upto <= outcomes.len(),
    ensures
        config_after(start, outcomes.push(next), upto) == config_after(start, outcomes, upto),
        accepted_among(outcomes.push(next), upto) == accepted_among(outcomes, upto),
        accepted_among(outcomes, upto) <= upto,
    decreases upto,
{
    if upto > 0 {
        lemma_outcomes_extend(start, outcomes, next, (upto - 1) as nat);
        assert(outcomes.push(next)[upto - 1] == outcomes[upto - 1]);
    }
}

impl<R: Real, T: WaveFunction + Cache<R>, V: Metropolis<R, T>, O: Operator<R, T>> Sampler<
    R,
    T,
    V,
    O,
> {
    /// Whether a sweep that got `outcomes` from the kernel leads from this
    /// sampler to `after` and `out`. The kernel is asked once for each
    /// particle in turn, until it has answered for all or has failed; each
    /// accepted candidate differs from the configuration before it in that
    /// particle at most. The configuration and the counts of attempted and
    /// accepted moves are what the outcomes come to. A sweep that the kernel
    /// cut short fails; a whole sweep ends as the refresh at the
    /// configuration reached does.
    pub open spec fn swept(
        &self,
        outcomes: Seq<Option<Configuration<R>>>,
        after: &Self,
        out: Result<(), Error>,
    ) -> bool {
        &&& outcomes.len() <= self.config@.len()
        &&& forall|i: int|
            0 <= i < outcomes.len() && (#[trigger] outcomes[i]) is Some ==> single_particle_move(
                config_after(self.config, outcomes, i as nat)@,
                i,
                outcomes[i]->0@,
            )
        &&& after.config == config_after(self.config, outcomes, outcomes.len())
        &&& after.attempted == counted(self.attempted, outcomes.len())
        &&& after.accepted == counted(self.accepted, accepted_among(outcomes, outcomes.len()))
        &&& if outcomes.len() < self.config@.len() {
            out is Err
        } else {
            match self.wave_function.evaluated(&after.config) {
                Ok(state) => {
                    &&& out is Ok
                    &&& after.wave_function.committed()@ == state@
                    &&& after.wave_function.pending() is None
                },
                Err(e) => out == Err::<(), Error>(e),
            }
        }
    }

    /// Whether the cache holds the state of the present configuration, and
    /// no proposal.
    pub open spec fn coherent(&self) -> bool {
        &&& self.wave_function.evaluated(&self.config) is Ok
        &&& self.wave_function.committed()@ == self.wave_function.evaluated(&self.config)->Ok_0@
        &&& self.wave_function.pending() is None
    }

    /// The local value of the observable at position `i` of the registry:
    /// the operator applied to the wavefunction at the present configuration,
    /// divided by the cached value of the wavefunction.
    pub open spec fn local_value(&self, i: int) -> Result<Value<R>, Error> {
        match self.observables.items()[i].acts(&self.wave_function, &self.config) {
            Ok(value) => Ok(divided(value@, self.wave_function.committed().value)),
            Err(e) => Err(e),
        }
    }

    /// A sampler that starts at `cfg`, with no observable registered. The
    /// cache is refreshed at `cfg`; if the wavefunction cannot be evaluated
    /// there, that failure is returned.
    pub fn with_initial_configuration(wave_function: T, metrop: V, cfg: Configuration<R>) -> (out:
        Result<Self, Error>)
        ensures
            match wave_function.evaluated(&cfg) {
                Ok(state) => {
                    &&& out is Ok
                    &&& out->Ok_0.config == cfg
                    &&& out->Ok_0.metropolis == metrop
                    &&& out->Ok_0.accepted == 0
                    &&& out->Ok_0.attempted == 0
                    &&& out->Ok_0.observables.labels().len() == 0
                    &&& out->Ok_0.coherent()
                    &&& out->Ok_0.wave_function.committed()@ == state@
                    &&& same_function(wave_function, out->Ok_0.wave_function)
                },
                Err(e) => out matches Err(f) && f == e,
            },
    {
        let mut wave_function = wave_function;
        match wave_function.refresh(&cfg) {
            Ok(()) => Ok(
                Self {
                    wave_function,
                    config: cfg,
                    metropolis: metrop,
                    observables: Table::new(),
                    accepted: 0,
                    attempted: 0,
                },
            ),
            Err(e) => Err(e),
        }
    }

    /// A sampler that starts at a configuration drawn uniformly from the
    /// cube between `-1` and `1`, one position per particle of the
    /// wavefunction, with the kernel's source of randomness; the kernel is
    /// otherwise as it was given. The cache is refreshed there: a
    /// wavefunction that cannot be evaluated at the configuration drawn is
    /// that failure. A number type in which nothing can be drawn between
    /// `-1` and `1` is a [`Error::FunctionEvaluationError`].
    #[verifier::loop_isolation(false)]
    pub fn new(wave_function: T, metrop: V) -> (out: Result<Self, Error>)
        ensures
            !drawable(R::ratio(-1i64, 1), R::ratio(1, 1)) ==> out is Err && out->Err_0
                == Error::FunctionEvaluationError,
            drawable(R::ratio(-1i64, 1), R::ratio(1, 1)) ==> match out {
                Ok(sampler) => {
                    &&& sampler.config.len() == wave_function.electrons()
                    &&& forall|i: int|
                        0 <= i < sampler.config.len() ==> within(
                            R::ratio(-1i64, 1),
                            R::ratio(1, 1),
                            #[trigger] sampler.config[i],
                        )
                    &&& metrop.same_kernel(&sampler.metropolis)
                    &&& sampler.accepted == 0
                    &&& sampler.attempted == 0
                    &&& sampler.observables.labels().len() == 0
                    &&& sampler.coherent()
                    &&& same_function(wave_function, sampler.wave_function)
                },
                Err(e) => exists|cfg: Configuration<R>|
                    cfg.len() == wave_function.electrons() && #[trigger] wave_function.evaluated(
                        &cfg,
                    ) == Err::<crate::wavefunction::Vgl<R>, Error>(e),
            },
    {
        let mut metrop = metrop;
        let ghost given = metrop;
        let electrons = wave_function.num_electrons();
        let low = R::from_ratio(-1, 1);
        let high = R::from_ratio(1, 1);
        if !can_draw(low, high) {
            return Err(Error::FunctionEvaluationError);
        }
        let mut cfg: Configuration<R> = Vec::new();
        let source = metrop.rng_mut();
        let mut i: usize = 0;
        while i < electrons
            invariant
                i <= electrons,
                cfg.len() == i,
                forall|j: int| 0 <= j < i ==> within(low, high, #[trigger] cfg[j]),
            decreases electrons - i,
        {
            let x = source.uniform(low, high);
            let y = source.uniform(low, high);
            let z = source.uniform(low, high);
            cfg.push(Vector3::new(x, y, z));
            i += 1;
        }
        let ghost drawn = cfg;
        let out = Self::with_initial_configuration(wave_function, metrop, cfg);
        proof {
            if out is Err {
                assert(wave_function.evaluated(&drawn) == Err::<crate::wavefunction::Vgl<R>, Error>(
                    out->Err_0,
                ));
            }
        }
        out
    }

    /// Registers `operator` under `name`, in place of an observable that was
    /// registered under that name, or else as the last.
    pub fn add_observable(&mut self, name: &str, operator: O)
        ensures
            final(self).wave_function == old(self).wave_function,
            final(self).config == old(self).config,
            final(self).metropolis == old(self).metropolis,
            final(self).accepted == old(self).accepted,
            final(self).attempted == old(self).attempted,
            final(self).observables.lookup(name@) == Some(operator),
            forall|other: Seq<char>|
                other != name@ ==> #[trigger] final(self).observables.lookup(other) == old(
                    self,
                ).observables.lookup(other),
            final(self).observables.labels() == if old(self).observables.labels().contains(name@) {
                old(self).observables.labels()
            } else {
                old(self).observables.labels().push(name@)
            },
    {
        self.observables.insert(name.to_owned(), operator);
    }

    /// Takes in the outcome of one attempted move: an accepted
    /// configuration becomes the present one and its proposal is committed
    /// in the cache; a rejection discards the proposal. Either way one more
    /// move was attempted.
    pub fn settle(&mut self, outcome: Option<Configuration<R>>)
        ensures
            final(self).metropolis == old(self).metropolis,
            final(self).observables == old(self).observables,
            same_function(old(self).wave_function, final(self).wave_function),
            final(self).wave_function.pending() is None,
            final(self).attempted == counted(old(self).attempted, 1),
            match outcome {
                Some(candidate) => {
                    &&& final(self).config == candidate
                    &&& final(self).accepted == counted(old(self).accepted, 1)
                    &&& match old(self).wave_function.pending() {
                        Some(state) => final(self).wave_function.committed()@ == state@,
                        None => final(self).wave_function.committed()@ == old(
                            self,
                        ).wave_function.committed()@,
                    }
                },
                None => {
                    &&& final(self).config == old(self).config
                    &&& final(self).accepted == old(self).accepted
                    &&& final(self).wave_function.committed()@ == old(
                        self,
                    ).wave_function.committed()@
                },
            },
    {
        self.attempted = count_up(self.attempted);
        match outcome {
            Some(candidate) => {
                self.config = candidate;
                self.wave_function.push_update();
                self.accepted = count_up(self.accepted);
            },
            None => {
                self.wave_function.flush_update();
            },
        }
    }

    /// Takes in what the kernel answered for one particle: its failure is
    /// handed on as it is, and nothing changes; its outcome is settled
    /// ([`Sampler::settle`]).
    pub fn take_answer(&mut self, answer: Result<Option<Configuration<R>>, Error>) -> (out: Result<
        (),
        Error,
    >)
        ensures
            answer matches Err(e) ==> out == Err::<(), Error>(e) && *final(self) == *old(self),
            answer matches Ok(outcome) ==> {
                &&& out is Ok
                &&& final(self).metropolis == old(self).metropolis
                &&& final(self).observables == old(self).observables
                &&& same_function(old(self).wave_function, final(self).wave_function)
                &&& final(self).wave_function.pending() is None
                &&& final(self).attempted == counted(old(self).attempted, 1)
                &&& match outcome {
                    Some(candidate) => {
                        &&& final(self).config == candidate
                        &&& final(self).accepted == counted(old(self).accepted, 1)
                        &&& match old(self).wave_function.pending() {
                            Some(state) => final(self).wave_function.committed()@ == state@,
                            None => final(self).wave_function.committed()@ == old(
                                self,
                            ).wave_function.committed()@,
                        }
                    },
                    None => {
                        &&& final(self).config == old(self).config
                        &&& final(self).accepted == old(self).accepted
                        &&& final(self).wave_function.committed()@ == old(
                            self,
                        ).wave_function.committed()@
                    },
                }
            },
    {
        match answer {
            Ok(outcome) => {
                self.settle(outcome);
                Ok(())
            },
            Err(e) => Err(e),
        }
    }
}

impl<R: Real, T: WaveFunction + Cache<R>, V: Metropolis<R, T>, O: Operator<R, T>> MonteCarloSampler<
    R,
> for Sampler<R, T, V, O> {
    /// The local value of every observable, under the observable's name
    /// and in the order of the registry. The first observable that fails ends
    /// it with that failure.
    fn sample(&self) -> (out: Result<Table<OperatorValue<R>>, Error>)
        ensures
            match out {
                Ok(values) => {
                    &&& values.labels() == self.observables.labels()
                    &&& values.items().len() == self.observables.items().len()
                    &&& forall|i: int|
                        0 <= i < values.items().len() ==> self.local_value(i) == Ok::<
                            Value<R>,
                            Error,
                        >(#[trigger] values.items()[i]@)
                },
                Err(e) => exists|i: int|
                    {
                        &&& 0 <= i < self.observables.items().len()
                        &&& #[trigger] self.local_value(i) == Err::<Value<R>, Error>(e)
                        &&& forall|j: int| 0 <= j < i ==> (#[trigger] self.local_value(j)) is Ok
                    },
            },
    {
        let count = self.observables.len();
        let amplitude = self.wave_function.current_value().value;
        let ghost labels = self.observables.labels();
        let mut values: Table<OperatorValue<R>> = Table::new();
        let mut i: usize = 0;
        while i < count
            invariant
                i <= count,
                count == self.observables.items().len(),
                labels == self.observables.labels(),
                labels.len() == count,
                Table::<O>::distinct(labels),
                amplitude == self.wave_function.committed().value,
                values.labels() == labels.take(i as int),
                values.items().len() == i,
                forall|j: int|
                    0 <= j < i ==> self.local_value(j) == Ok::<Value<R>, Error>(
                        #[trigger] values.items()[j]@,
                    ),
            decreases count - i,
        {
            let operator = self.observables.value_at(i);
            let name = self.observables.name_at(i).clone();
            let value = match operator.act_on(&self.wave_function, &self.config) {
                Ok(value) => value,
                Err(e) => {
                    proof {
                        assert(self.local_value(i as int) == Err::<Value<R>, Error>(e));
                        assert forall|j: int| 0 <= j < i implies (#[trigger] self.local_value(
                            j,
                        )) is Ok by {
                            assert(self.local_value(j) == Ok::<Value<R>, Error>(
                                values.items()[j]@,
                            ));
                        }
                    }
                    return Err(e);
                },
            };
            let local = value.divided_by(amplitude);
            proof {
                assert(self.local_value(i as int) == Ok::<Value<R>, Error>(local@));
                assert(!labels.take(i as int).contains(name@)) by {
                    if labels.take(i as int).contains(name@) {
                        let k = labels.take(i as int).index_of(name@);
                        assert(labels[k] == labels[i as int]);
                    }
                }
                assert(labels.take(i + 1) == labels.take(i as int).push(name@));
            }
            values.insert(name, local);
            i += 1;
        }
        proof {
            assert(labels.take(count as int) == labels);
        }
        Ok(values)
    }

    /// One sweep: a move of every particle in turn is attempted and its
    /// answer taken in ([`Sampler::take_answer`]), then the cache is
    /// refreshed at the configuration reached. The first failure ends the
    /// sweep and is handed on. Whatever the kernel answered, the sweep is
    /// what [`Sampler::swept`] says of those answers: so a sampler without
    /// particles is refreshed and nothing else, and succeeds exactly where
    /// its wavefunction can be evaluated. The number of particles never
    /// changes, nor does the registry or what the wavefunction evaluates to;
    /// a finished sweep has left the cache coherent.
    fn move_state(&mut self) -> (out: Result<(), Error>)
        ensures
            exists|outcomes: Seq<Option<Configuration<R>>>| #[trigger]
                old(self).swept(outcomes, final(self), out),
            final(self).config.len() == old(self).config.len(),
            final(self).observables == old(self).observables,
            same_function(old(self).wave_function, final(self).wave_function),
            out is Ok ==> final(self).coherent(),
    {
        let particles = self.config.len();
        let ghost start = self.config;
        let ghost mut outcomes: Seq<Option<Configuration<R>>> = Seq::empty();
        let mut e: usize = 0;
        while e < particles
            invariant
                e <= particles,
                particles == old(self).config.len(),
                start == old(self).config,
                self.config.len() == particles,
                self.observables == old(self).observables,
                same_function(old(self).wave_function, self.wave_function),
                outcomes.len() == e,
                self.config == config_after(start, outcomes, e as nat),
                self.attempted == counted(old(self).attempted, e as nat),
                self.accepted == counted(
                    old(self).accepted,
                    accepted_among(outcomes, e as nat),
                ),
                forall|i: int|
                    0 <= i < e && (#[trigger] outcomes[i]) is Some ==> single_particle_move(
                        config_after(start, outcomes, i as nat)@,
                        i,
                        outcomes[i]->0@,
                    ),
            decreases particles - e,
        {
            let answer = self.metropolis.move_state(&self.wave_function, &self.config, e);
            proof {
                if answer is Ok {
                    let outcome = answer->Ok_0;
                    let longer = outcomes.push(outcome);
                    lemma_outcomes_extend(start, outcomes, outcome, e as nat);
                    assert forall|i: int|
                        0 <= i < e + 1 && (#[trigger] longer[i]) is Some implies single_particle_move(
                        config_after(start, longer, i as nat)@,
                        i,
                        longer[i]->0@,
                    ) by {
                        lemma_outcomes_extend(start, outcomes, outcome, i as nat);
                        if i < e {
                            assert(longer[i] == outcomes[i]);
                        }
                    }
                }
            }
            match self.take_answer(answer) {
                Ok(()) => {
                    proof {
                        outcomes = outcomes.push(answer->Ok_0);
                    }
                },
                Err(err) => {
                    assert(old(self).swept(outcomes, &*self, Err::<(), Error>(err)));
                    return Err(err);
                },
            }
            e += 1;
        }
        let ghost before = self.wave_function;
        let out = self.wave_function.refresh(&self.config);
        proof {
            assert(before.evaluated(&self.config) == old(self).wave_function.evaluated(
                &self.config,
            ));
            assert(self.wave_function.evaluated(&self.config) == before.evaluated(&self.config));
            assert(old(self).swept(outcomes, &*self, out));
        }
        out
    }

    fn num_observables(&self) -> (out: usize)
        ensures
            out == self.observables.labels().len(),
    {
        self.observables.len()
    }

    fn acceptance(&self) -> (out: R)
        ensures
            out == fraction::<R>(self.accepted, self.attempted),
    {
        if self.attempted == 0 {
            R::from_ratio(0, 1)
        } else {
            R::from_count(self.accepted).div(R::from_count(self.attempted))
        }
    }

    /// The names of the observables, in the order of the registry.
    fn observable_names(&self) -> (out: Vec<&String>)
        ensures
            out.len() == self.observables.labels().len(),
            forall|i: int| 0 <= i < out.len() ==> (#[trigger] out[i])@ == self.observables.labels()[i],
    {
        let count = self.observables.len();
        let mut names: Vec<&String> = Vec::new();
        let mut i: usize = 0;
        while i < count
            invariant
                i <= count,
                count == self.observables.labels().len(),
                names.len() == i,
                forall|j: int|
                    0 <= j < i ==> (#[trigger] names[j])@ == self.observables.labels()[j],
            decreases count - i,
        {
            names.push(self.observables.name_at(i));
            i += 1;
        }
        names
    }
}

} // verus!
