//! The run loop: sweep, sample, record, report.
//!
//! A runner drives a sampler for a number of steps. After every sweep it
//! samples all observables and appends each value to the stream of its name.
//! After every block of steps it hands the streams to a logger; the lines
//! that the logger gives are returned to the caller, who may print them.
//!
//! One iteration of an optimization is a run from empty streams, followed by
//! the optimizer's step from the mean energy and the streams; it gives the
//! parameters for the next iteration.
use vstd::prelude::*;
use crate::error::Error;
use crate::estimators::energy_label;
use crate::operator::{OperatorValue, Value, views_of};
use crate::optimize::Optimizer;
use crate::sampler::MonteCarloSampler;
use crate::scalar::{Operation, Real};
use crate::statistics::{block_count, stream_mean, stream_mean_of};
use crate::table::Table;
use crate::vector::{zip_with, zipped};

verus! {

/// A reporter: it is shown the streams accumulated so far and may give a
/// line to display.
pub trait Log<R: Real> {
    fn log(&mut self, data: &Table<Vec<OperatorValue<R>>>) -> Option<String>;
}

/// The streams of a table as mathematics, in the order of their names.
pub open spec fn streams_of<R: Real>(items: Seq<Vec<OperatorValue<R>>>) -> Seq<Seq<Value<R>>> {
    Seq::new(items.len(), |k: int| views_of(items[k]@))
}

/// Names and streams after `value` has been appended under `name`: at the
/// end of the stream of that name, or else as the only observation of a new
/// last stream.
pub open spec fn appended<R: Real>(
    labels: Seq<Seq<char>>,
    streams: Seq<Seq<Value<R>>>,
    name: Seq<char>,
    value: Value<R>,
) -> (Seq<Seq<char>>, Seq<Seq<Value<R>>>) {
    if labels.contains(name) {
        let k = labels.index_of(name);
        (labels, streams.update(k, streams[k].push(value)))
    } else {
        (labels.push(name), streams.push(seq![value]))
    }
}

/// Names and streams after the first `upto` of the named `values` have
/// been appended, in their order.
pub open spec fn recorded<R: Real>(
    labels: Seq<Seq<char>>,
    streams: Seq<Seq<Value<R>>>,
    names: Seq<Seq<char>>,
    values: Seq<Value<R>>,
    upto: nat,
) -> (Seq<Seq<char>>, Seq<Seq<Value<R>>>)
    decreases upto,
{
    if upto == 0 {
        (labels, streams)
    } else {
        let before = recorded(labels, streams, names, values, (upto - 1) as nat);
        appended(before.0, before.1, names[upto - 1], values[upto - 1])
    }
}

/// Appends `value` to the stream under `name`.
pub fn append<R: Real>(data: &mut Table<Vec<OperatorValue<R>>>, name: String, value: OperatorValue<R>)
    ensures
        (final(data).labels(), streams_of(final(data).items())) == appended(
            old(data).labels(),
            streams_of(old(data).items()),
            name@,
            value@,
        ),
{
    let ghost labels = data.labels();
    let ghost streams = streams_of(data.items());
    match data.position(&name) {
        Some(k) => {
            let count = data.len();
            proof {
                let found = labels.index_of(name@);
                assert(labels[k as int] == name@);
                assert(labels[found] == name@);
                assert(found == k);
            }
            let mut stream: Vec<OperatorValue<R>> = Vec::new();
            data.exchange(k, &mut stream);
            let ghost taken = stream@;
            stream.push(value);
            proof {
                assert(views_of(stream@) =~= views_of(taken).push(value@));
            }
            let mut full = stream;
            data.exchange(k, &mut full);
            proof {
                assert(streams_of(data.items()) =~= streams.update(
                    k as int,
                    streams[k as int].push(value@),
                ));
            }
        },
        None => {
            let mut stream: Vec<OperatorValue<R>> = Vec::new();
            stream.push(value);
            proof {
                assert(views_of(stream@) =~= seq![value@]);
            }
            data.insert(name, stream);
            proof {
                assert(streams_of(data.items()) =~= streams.push(seq![value@]));
            }
        },
    }
}

/// Names and streams after the first `upto` of the sampled tables have been
/// recorded, one table after the other.
pub open spec fn recorded_all<R: Real>(
    labels: Seq<Seq<char>>,
    streams: Seq<Seq<Value<R>>>,
    samples: Seq<Table<OperatorValue<R>>>,
    upto: nat,
) -> (Seq<Seq<char>>, Seq<Seq<Value<R>>>)
    decreases upto,
{
    if upto == 0 {
        (labels, streams)
    } else {
        let before = recorded_all(labels, streams, samples, (upto - 1) as nat);
        recorded(
            before.0,
            before.1,
            samples[upto - 1].labels(),
            views_of(samples[upto - 1].items()),
            samples[upto - 1].labels().len(),
        )
    }
}

/// One more sampled table changes nothing of what the earlier ones came
/// to.
pub proof fn lemma_samples_extend<R: Real>(
    labels: Seq<Seq<char>>,
    streams: Seq<Seq<Value<R>>>,
    samples: Seq<Table<OperatorValue<R>>>,
    next: Table<OperatorValue<R>>,
    upto: nat,
)
    requires
        upto <= samples.len(),
    ensures
        recorded_all(labels, streams, samples.push(next), upto) == recorded_all(
            labels,
            streams,
            samples,
            upto,
        ),
    decreases upto,
{
    if upto > 0 {
        lemma_samples_extend(labels, streams, samples, next, (upto - 1) as nat);
        assert(samples.push(next)[upto - 1] == samples[upto - 1]);
    }
}

/// The parameters after the change `delta`: `pars + delta`, entry by
/// entry; a [`Error::LinearAlgebraError`] unless both have one length.
pub fn updated_parameters<R: Real>(pars: &Vec<R>, delta: &Vec<R>) -> (out: Result<Vec<R>, Error>)
    ensures
        out is Ok == (pars.len() == delta.len()),
        out is Ok ==> out->Ok_0@ == zipped(Operation::Add, pars@, delta@),
        out is Err ==> out == Err::<Vec<R>, Error>(Error::LinearAlgebraError),
{
    if pars.len() != delta.len() {
        return Err(Error::LinearAlgebraError);
    }
    Ok(zip_with(Operation::Add, pars, delta))
}

/// What an optimizer's answer comes to at the parameters `pars`: its
/// failure as it is; for its step, the parameters after that change.
pub open spec fn step_taken<R: Real>(pars: Seq<R>, answer: Result<Vec<R>, Error>, out: Result<
    Vec<R>,
    Error,
>) -> bool {
    match answer {
        Err(e) => out == Err::<Vec<R>, Error>(e),
        Ok(delta) => if delta.len() == pars.len() {
            out is Ok && out->Ok_0@ == zipped(Operation::Add, pars, delta@)
        } else {
            out == Err::<Vec<R>, Error>(Error::LinearAlgebraError)
        },
    }
}

/// Takes in what an optimizer answered at the parameters `pars`: its
/// failure is handed on as it is; its step is added to the parameters
/// ([`updated_parameters`]).
pub fn take_step<R: Real>(pars: &Vec<R>, answer: Result<Vec<R>, Error>) -> (out: Result<
    Vec<R>,
    Error,
>)
    ensures
        step_taken(pars@, answer, out),
{
    match answer {
        Ok(delta) => updated_parameters(pars, &delta),
        Err(e) => Err(e),
    }
}

/// A run of a sampler, with the streams it has produced.
pub struct Runner<R: Real, S, L> {
    pub sampler: S,
    pub logger: L,
    pub data: Table<Vec<OperatorValue<R>>>,
}

impl<R: Real, S: MonteCarloSampler<R>, L: Log<R>> Runner<R, S, L> {
    /// Whether a run of `steps` steps in blocks of `block_size`, in which
    /// the sampler gave `samples`, leads from this runner to `after` and
    /// `out`. The streams are what recording the samples in turn comes to.
    /// A run succeeds when it has sampled every step of every whole block,
    /// and then gives one line at most for each block; a run that the
    /// sampler cut short has sampled fewer steps, and fails. A run of no
    /// whole block asks neither the sampler nor the logger, and changes
    /// nothing.
    pub open spec fn ran(
        &self,
        samples: Seq<Table<OperatorValue<R>>>,
        steps: usize,
        block_size: usize,
        after: &Self,
        out: Result<Vec<String>, Error>,
    ) -> bool {
        let blocks = block_count(steps as nat, block_size as nat);
        &&& (after.data.labels(), streams_of(after.data.items())) == recorded_all(
            self.data.labels(),
            streams_of(self.data.items()),
            samples,
            samples.len(),
        )
        &&& match out {
            Ok(lines) => samples.len() == blocks * block_size && lines.len() <= blocks,
            Err(_) => samples.len() < blocks * block_size,
        }
        &&& blocks == 0 ==> *after == *self
    }

    /// A runner with no observation yet.
    pub fn new(sampler: S, logger: L) -> (out: Self)
        ensures
            out.sampler == sampler,
            out.logger == logger,
            out.data.labels().len() == 0,
    {
        Runner { sampler, logger, data: Table::new() }
    }

    /// Appends every value of `values` to the stream of its name, in the
    /// order of `values`.
    pub fn record(&mut self, values: Table<OperatorValue<R>>)
        ensures
            final(self).sampler == old(self).sampler,
            final(self).logger == old(self).logger,
            (final(self).data.labels(), streams_of(final(self).data.items())) == recorded(
                old(self).data.labels(),
                streams_of(old(self).data.items()),
                values.labels(),
                views_of(values.items()),
                values.labels().len(),
            ),
    {
        let mut values = values;
        let ghost names = values.labels();
        let ghost observed = views_of(values.items());
        let ghost labels = self.data.labels();
        let ghost streams = streams_of(self.data.items());
        let count = values.len();
        let mut i: usize = 0;
        while i < count
            invariant
                i <= count,
                count == names.len(),
                values.labels() == names,
                values.items().len() == count,
                forall|j: int| i <= j < count ==> (#[trigger] values.items()[j])@ == observed[j],
                self.sampler == old(self).sampler,
                self.logger == old(self).logger,
                (self.data.labels(), streams_of(self.data.items())) == recorded(
                    labels,
                    streams,
                    names,
                    observed,
                    i as nat,
                ),
            decreases count - i,
        {
            let name = values.name_at(i).clone();
            let mut value = OperatorValue::Scalar(R::from_ratio(0, 1));
            values.exchange(i, &mut value);
            append(&mut self.data, name, value);
            i += 1;
        }
    }

    /// Whether recording `values` leads from this runner's streams to those
    /// of `after`.
    pub open spec fn took(&self, values: Table<OperatorValue<R>>, after: &Self) -> bool {
        (after.data.labels(), streams_of(after.data.items())) == recorded(
            self.data.labels(),
            streams_of(self.data.items()),
            values.labels(),
            views_of(values.items()),
            values.labels().len(),
        )
    }

    /// Takes in what the sampler answered when it was asked for a sample:
    /// its failure is handed on as it is, and nothing changes; its values
    /// are recorded ([`Runner::record`]).
    pub fn take_sample(&mut self, answer: Result<Table<OperatorValue<R>>, Error>) -> (out: Result<
        (),
        Error,
    >)
        ensures
            answer matches Err(e) ==> out == Err::<(), Error>(e) && *final(self) == *old(self),
            answer matches Ok(values) ==> {
                &&& out is Ok
                &&& final(self).sampler == old(self).sampler
                &&& final(self).logger == old(self).logger
                &&& old(self).took(values, final(self))
            },
    {
        match answer {
            Ok(values) => {
                self.record(values);
                Ok(())
            },
            Err(e) => Err(e),
        }
    }

    /// Takes in what the sampler answered when it was asked for a sweep: its
    /// failure is handed on as it is, and nothing changes. After a sweep that
    /// succeeded the sampler is asked for a sample, and its answer is taken
    /// in ([`Runner::take_sample`]): so the streams either stay, and the step
    /// fails, or have taken some values.
    pub fn sample_after(&mut self, swept: Result<(), Error>) -> (out: Result<(), Error>)
        ensures
            swept matches Err(e) ==> out == Err::<(), Error>(e) && *final(self) == *old(self),
            final(self).sampler == old(self).sampler,
            final(self).logger == old(self).logger,
            out is Err ==> *final(self) == *old(self),
            out is Ok ==> exists|values: Table<OperatorValue<R>>| #[trigger]
                old(self).took(values, final(self)),
    {
        match swept {
            Ok(()) => {
                let answer = self.sampler.sample();
                let ghost values = answer;
                let out = self.take_sample(answer);
                proof {
                    if out is Ok {
                        assert(old(self).took(values->Ok_0, &*self));
                    }
                }
                out
            },
            Err(e) => Err(e),
        }
    }

    /// Whether `out` is what an iteration at `pars` comes to after a run
    /// that ended as `ran`, when the optimizer, if it was asked, gave
    /// `answer`. A failed run is handed on as it is. After a run that
    /// succeeded, an iteration without averages ([`Runner::averages`]) fails
    /// as they do; the optimizer is asked in neither case. Else it is asked,
    /// and its answer taken in ([`take_step`]).
    pub open spec fn concluded(
        &self,
        ran: Result<Vec<String>, Error>,
        answer: Option<Result<Vec<R>, Error>>,
        pars: &Vec<R>,
        out: Result<Vec<R>, Error>,
    ) -> bool {
        let energy = self.data.lookup(energy_label());
        match ran {
            Err(e) => out == Err::<Vec<R>, Error>(e) && answer is None,
            Ok(_) => if energy is None {
                out == Err::<Vec<R>, Error>(Error::DataAccessError) && answer is None
            } else {
                match stream_mean_of(views_of(energy->0@)) {
                    Err(e) => out == Err::<Vec<R>, Error>(e) && answer is None,
                    Ok(_) => answer is Some && step_taken(pars@, answer->0, out),
                }
            },
        }
    }

    /// Takes in how the run of an iteration at `pars` ended: its failure is
    /// handed on as it is. After a run that succeeded, the optimizer takes
    /// its step from the averages and the streams; whatever it answered, the
    /// iteration is what [`Runner::concluded`] says of it, and an optimizer
    /// that was not asked is as it was.
    pub fn conclude<P: Optimizer<R>>(
        &self,
        ran: Result<Vec<String>, Error>,
        optimizer: &mut P,
        pars: &Vec<R>,
    ) -> (out: Result<Vec<R>, Error>)
        ensures
            ran matches Err(e) ==> out == Err::<Vec<R>, Error>(e) && *final(optimizer) == *old(
                optimizer,
            ),
            exists|answer: Option<Result<Vec<R>, Error>>|
                {
                    &&& #[trigger] self.concluded(ran, answer, pars, out)
                    &&& answer is None ==> *final(optimizer) == *old(optimizer)
                },
    {
        match ran {
            Ok(_) => {},
            Err(e) => {
                let out = Err(e);
                assert(self.concluded(ran, None, pars, out));
                return out;
            },
        }
        let averages = match self.averages() {
            Ok(averages) => averages,
            Err(e) => {
                let out = Err(e);
                assert(self.concluded(ran, None, pars, out));
                return out;
            },
        };
        let answer = optimizer.compute_parameter_update(pars, &averages, &self.data);
        let ghost given = answer;
        let out = take_step(pars, answer);
        assert(self.concluded(ran, Some(given), pars, out));
        out
    }

    /// The mean of the stream under `name`; a [`Error::DataAccessError`]
    /// if there is no such stream, and the failure of the sum if the stream
    /// has no mean.
    pub fn average(&self, name: &str) -> (out: Result<OperatorValue<R>, Error>)
        ensures
            match self.data.lookup(name@) {
                None => out == Err::<OperatorValue<R>, Error>(Error::DataAccessError),
                Some(stream) => match out {
                    Ok(mean) => stream_mean_of(views_of(stream@)) == Ok::<Value<R>, Error>(mean@),
                    Err(e) => stream_mean_of(views_of(stream@)) == Err::<Value<R>, Error>(e),
                },
            },
    {
        match self.data.get(&name.to_owned()) {
            Some(stream) => stream_mean(stream),
            None => Err(Error::DataAccessError),
        }
    }

    /// The averages that an optimizer is given: the mean of the energy
    /// stream under the name of that stream, and nothing else. A
    /// [`Error::DataAccessError`] if there is no energy stream, and the
    /// failure of the sum if the stream has no mean.
    pub fn averages(&self) -> (out: Result<Table<OperatorValue<R>>, Error>)
        ensures
            match self.data.lookup(energy_label()) {
                None => out matches Err(e) && e == Error::DataAccessError,
                Some(stream) => match stream_mean_of(views_of(stream@)) {
                    Ok(mean) => {
                        &&& out is Ok
                        &&& out->Ok_0.labels() == seq![energy_label()]
                        &&& out->Ok_0.items().len() == 1
                        &&& out->Ok_0.items()[0]@ == mean
                    },
                    Err(e) => out matches Err(f) && f == e,
                },
            },
    {
        let energy = match self.average("Energy") {
            Ok(mean) => mean,
            Err(e) => {
                return Err(e);
            },
        };
        let mut averages: Table<OperatorValue<R>> = Table::new();
        averages.insert("Energy".to_owned(), energy);
        proof {
            assert(!Seq::<Seq<char>>::empty().contains(energy_label()));
            assert(averages.labels() =~= seq![energy_label()]);
        }
        Ok(averages)
    }

    /// Whether one iteration at `pars`, in which the sampler gave `samples`
    /// and the optimizer, if it was asked, gave `answer`, leads from this
    /// runner to `after` and `out`. The streams are what recording the
    /// samples from empty streams comes to. A run that the sampler cut short
    /// fails, and so does an iteration without an energy stream that has a
    /// mean; the optimizer is asked in no such case. Else the optimizer is
    /// asked: its failure is the iteration's, and its step of as many
    /// entries as `pars` is added to `pars`; a step of another length is a
    /// [`Error::LinearAlgebraError`].
    pub open spec fn stepped(
        &self,
        samples: Seq<Table<OperatorValue<R>>>,
        answer: Option<Result<Vec<R>, Error>>,
        pars: &Vec<R>,
        steps: usize,
        block_size: usize,
        after: &Self,
        out: Result<Vec<R>, Error>,
    ) -> bool {
        let blocks = block_count(steps as nat, block_size as nat);
        let energy = after.data.lookup(energy_label());
        &&& (after.data.labels(), streams_of(after.data.items())) == recorded_all(
            Seq::<Seq<char>>::empty(),
            Seq::<Seq<Value<R>>>::empty(),
            samples,
            samples.len(),
        )
        &&& samples.len() <= blocks * block_size
        &&& blocks == 0 ==> after.sampler == self.sampler && after.logger == self.logger
        &&& if samples.len() < blocks * block_size {
            out is Err && answer is None
        } else if energy is None {
            out == Err::<Vec<R>, Error>(Error::DataAccessError) && answer is None
        } else {
            match stream_mean_of(views_of(energy->0@)) {
                Err(e) => out == Err::<Vec<R>, Error>(e) && answer is None,
                Ok(_) => answer is Some && step_taken(pars@, answer->0, out),
            }
        }
    }

    /// One iteration of an optimization at the parameters `pars`: the
    /// streams are emptied, the sampler is run as in [`Runner::run`], and the
    /// end of the run is taken in ([`Runner::conclude`]): the optimizer takes
    /// its step from the averages ([`Runner::averages`]) and the streams. It
    /// gives the parameters for the next iteration, as many as `pars`; the
    /// first failure ends it and is handed on. Whatever the sampler and the
    /// optimizer gave, the iteration is what [`Runner::stepped`] says of it;
    /// an optimizer that was not asked is as it was.
    pub fn optimize_step<P: Optimizer<R>>(
        &mut self,
        optimizer: &mut P,
        pars: &Vec<R>,
        steps: usize,
        block_size: usize,
    ) -> (out: Result<Vec<R>, Error>)
        ensures
            exists|samples: Seq<Table<OperatorValue<R>>>, answer: Option<Result<Vec<R>, Error>>|
                {
                    &&& #[trigger] old(self).stepped(
                        samples,
                        answer,
                        pars,
                        steps,
                        block_size,
                        final(self),
                        out,
                    )
                    &&& answer is None ==> *final(optimizer) == *old(optimizer)
                },
            out is Ok ==> out->Ok_0.len() == pars.len(),
    {
        self.data = Table::new();
        let ghost cleared = *self;
        proof {
            assert(streams_of(self.data.items()) =~= Seq::<Seq<Value<R>>>::empty());
        }
        let ran = self.run(steps, block_size);
        let ghost samples = choose|samples: Seq<Table<OperatorValue<R>>>| #[trigger]
            cleared.ran(samples, steps, block_size, &*self, ran);
        let ghost before = *optimizer;
        let out = self.conclude(ran, optimizer, pars);
        proof {
            let answer = choose|answer: Option<Result<Vec<R>, Error>>|
                {
                    &&& #[trigger] self.concluded(ran, answer, pars, out)
                    &&& answer is None ==> *optimizer == before
                };
            assert(old(self).stepped(samples, answer, pars, steps, block_size, &*self, out));
        }
        out
    }

    /// Runs whole blocks of `block_size` steps, as many as fit into `steps`;
    /// none where `block_size` is zero. Each step is a sweep, a sample and a
    /// record ([`Runner::sample_after`]); each block ends with the logger.
    /// The first failure of the sampler ends the run and is handed on. The
    /// lines of the logger are returned, one at most for each block.
    /// Whatever the sampler gave, the run is what [`Runner::ran`] says of it.
    pub fn run(&mut self, steps: usize, block_size: usize) -> (out: Result<Vec<String>, Error>)
        ensures
            exists|samples: Seq<Table<OperatorValue<R>>>| #[trigger]
                old(self).ran(samples, steps, block_size, final(self), out),
            out is Ok ==> out->Ok_0.len() <= block_count(steps as nat, block_size as nat),
    {
        let mut lines: Vec<String> = Vec::new();
        let ghost labels = self.data.labels();
        let ghost streams = streams_of(self.data.items());
        let ghost mut samples: Seq<Table<OperatorValue<R>>> = Seq::empty();
        if block_size == 0 {
            let out = Ok(lines);
            assert(old(self).ran(samples, steps, block_size, &*self, out));
            return out;
        }
        let blocks = steps / block_size;
        if blocks == 0 {
            let out = Ok(lines);
            assert(old(self).ran(samples, steps, block_size, &*self, out));
            return out;
        }
        let mut block: usize = 0;
        proof {
            assert(0 * block_size == 0) by (nonlinear_arith);
        }
        while block < blocks
            invariant
                block <= blocks,
                blocks > 0,
                block_size > 0,
                blocks == block_count(steps as nat, block_size as nat),
                lines.len() <= block,
                labels == old(self).data.labels(),
                streams == streams_of(old(self).data.items()),
                samples.len() == block * block_size,
                (self.data.labels(), streams_of(self.data.items())) == recorded_all(
                    labels,
                    streams,
                    samples,
                    samples.len(),
                ),
            decreases blocks - block,
        {
            let mut step: usize = 0;
            while step < block_size
                invariant
                    step <= block_size,
                    block < blocks,
                    block_size > 0,
                    blocks == block_count(steps as nat, block_size as nat),
                    labels == old(self).data.labels(),
                    streams == streams_of(old(self).data.items()),
                    samples.len() == block * block_size + step,
                    (self.data.labels(), streams_of(self.data.items())) == recorded_all(
                        labels,
                        streams,
                        samples,
                        samples.len(),
                    ),
                decreases block_size - step,
            {
                proof {
                    assert(block * block_size + step < blocks * block_size) by (nonlinear_arith)
                        requires
                            block < blocks,
                            step < block_size,
                    ;
                }
                let swept = self.sampler.move_state();
                let ghost before = *self;
                match self.sample_after(swept) {
                    Ok(()) => {
                        proof {
                            let values = choose|values: Table<OperatorValue<R>>| #[trigger]
                                before.took(values, &*self);
                            lemma_samples_extend(labels, streams, samples, values, samples.len());
                            samples = samples.push(values);
                        }
                    },
                    Err(e) => {
                        let out = Err(e);
                        assert(old(self).ran(samples, steps, block_size, &*self, out));
                        return out;
                    },
                }
                step += 1;
            }
            match self.logger.log(&self.data) {
                Some(line) => {
                    lines.push(line);
                },
                None => {},
            }
            proof {
                assert((block + 1) * block_size == block * block_size + block_size)
                    by (nonlinear_arith);
            }
            block += 1;
        }
        let out = Ok(lines);
        assert(old(self).ran(samples, steps, block_size, &*self, out));
        out
    }
}

} // verus!
