//! Estimators over streams of sampled observations.
//!
//! A stream holds one observation per sampling step. The optimizers read
//! three of them: the local energy, the parameter gradient of the wavefunction
//! and the wavefunction value. From the last two comes the matrix of
//! logarithmic derivatives `O[n][k]`, the derivative of `ln psi` by parameter `k`
//! at step `n`; from it and the local energies the energy gradient
//! `g[k] = 2 * mean_n(O[n][k] * (E[n] - <E>))`.
use vstd::prelude::*;
use crate::error::Error;
use crate::linalg::{has_shape, rows_of};
use crate::operator::{OperatorValue, Value, views_of};
use crate::scalar::{Real, zero};
use crate::table::Table;

verus! {

/// The name of the local-energy stream.
pub open spec fn energy_label() -> Seq<char> {
    "Energy"@
}

/// The name of the parameter-gradient stream.
pub open spec fn gradient_label() -> Seq<char> {
    "Parameter gradient"@
}

/// The name of the wavefunction-value stream.
pub open spec fn amplitude_label() -> Seq<char> {
    "Wavefunction value"@
}

/// Whether every observation of the stream is a scalar.
pub open spec fn all_scalars<R>(values: Seq<Value<R>>) -> bool {
    forall|n: int| 0 <= n < values.len() ==> (#[trigger] values[n]) is Scalar
}

/// The numbers of a stream of scalars.
pub open spec fn scalars_in<R>(values: Seq<Value<R>>) -> Seq<R> {
    Seq::new(values.len(), |n: int| values[n]->Scalar_0)
}

/// Whether logarithmic derivatives can be formed from the two streams: there
/// is at least one step, both streams have one observation per step, every
/// gradient is a vector of the length of the first, and every wavefunction
/// value is a scalar.
pub open spec fn derivative_streams_ok<R>(
    gradients: Seq<Value<R>>,
    amplitudes: Seq<Value<R>>,
) -> bool {
    &&& gradients.len() >= 1
    &&& amplitudes.len() == gradients.len()
    &&& forall|n: int|
        0 <= n < gradients.len() ==> (#[trigger] gradients[n]) is Vector
            && gradients[n]->Vector_0.len() == gradients[0]->Vector_0.len()
    &&& all_scalars(amplitudes)
}

/// The matrix `O[n][k] = gradients[n][k] / amplitudes[n]`.
pub open spec fn log_derivatives<R: Real>(
    gradients: Seq<Value<R>>,
    amplitudes: Seq<Value<R>>,
) -> Seq<Seq<R>> {
    Seq::new(
        gradients.len(),
        |n: int|
            Seq::new(
                gradients[0]->Vector_0.len(),
                |k: int| gradients[n]->Vector_0[k].quotient(amplitudes[n]->Scalar_0),
            ),
    )
}

/// The sum over the first `upto` steps of `O[n][k] * (E[n] - mean)`,
/// accumulated from zero in the order of the steps.
pub open spec fn weighted_total<R: Real>(
    derivatives: Seq<Seq<R>>,
    energies: Seq<R>,
    mean: R,
    k: int,
    upto: nat,
) -> R
    decreases upto,
{
    if upto == 0 {
        zero::<R>()
    } else {
        weighted_total(derivatives, energies, mean, k, (upto - 1) as nat).sum(
            derivatives[upto - 1][k].product(energies[upto - 1].difference(mean)),
        )
    }
}

/// Component `k` of the energy gradient: twice the mean over all steps of
/// `O[n][k] * (E[n] - mean)`.
pub open spec fn energy_gradient_entry<R: Real>(
    derivatives: Seq<Seq<R>>,
    energies: Seq<R>,
    mean: R,
    k: int,
) -> R {
    R::ratio(2, 1).product(
        weighted_total(derivatives, energies, mean, k, derivatives.len()).quotient(
            R::count(derivatives.len() as usize),
        ),
    )
}

/// The energy gradient, one component per parameter.
pub open spec fn energy_gradient_of<R: Real>(
    derivatives: Seq<Seq<R>>,
    energies: Seq<R>,
    mean: R,
) -> Seq<R> {
    Seq::new(
        derivatives[0].len(),
        |k: int| energy_gradient_entry(derivatives, energies, mean, k),
    )
}

/// Whether the energy gradient can be formed: the three streams are
/// present, the logarithmic derivatives can be formed, there is one scalar
/// local energy per step, and the averages hold a scalar mean energy.
pub open spec fn gradient_data_ok<R: Real>(
    raw_data: &Table<Vec<OperatorValue<R>>>,
    averages: &Table<OperatorValue<R>>,
) -> bool {
    &&& raw_data.lookup(energy_label()) is Some
    &&& raw_data.lookup(gradient_label()) is Some
    &&& raw_data.lookup(amplitude_label()) is Some
    &&& averages.lookup(energy_label()) is Some
    &&& averages.lookup(energy_label())->0@ is Scalar
    &&& derivative_streams_ok(
        views_of(raw_data.lookup(gradient_label())->0@),
        views_of(raw_data.lookup(amplitude_label())->0@),
    )
    &&& all_scalars(views_of(raw_data.lookup(energy_label())->0@))
    &&& raw_data.lookup(energy_label())->0@.len() == raw_data.lookup(gradient_label())->0@.len()
}

/// The energy gradient that the streams and averages give.
pub open spec fn sampled_energy_gradient<R: Real>(
    raw_data: &Table<Vec<OperatorValue<R>>>,
    averages: &Table<OperatorValue<R>>,
) -> Seq<R> {
    energy_gradient_of(
        log_derivatives(
            views_of(raw_data.lookup(gradient_label())->0@),
            views_of(raw_data.lookup(amplitude_label())->0@),
        ),
        scalars_in(views_of(raw_data.lookup(energy_label())->0@)),
        averages.lookup(energy_label())->0@->Scalar_0,
    )
}

/// The numbers of a stream of scalars; nothing if one observation is a vector
/// or a matrix.
pub fn scalar_stream<R: Real>(values: &Vec<OperatorValue<R>>) -> (out: Option<Vec<R>>)
    ensures
        out is Some == all_scalars(views_of(values@)),
        out is Some ==> out->0@ == scalars_in(views_of(values@)),
{
    let mut numbers: Vec<R> = Vec::new();
    let mut n: usize = 0;
    while n < values.len()
        invariant
            n <= values.len(),
            numbers.len() == n,
            forall|m: int| 0 <= m < n ==> (#[trigger] views_of(values@)[m]) is Scalar,
            forall|m: int| 0 <= m < n ==> numbers[m] == views_of(values@)[m]->Scalar_0,
        decreases values.len() - n,
    {
        match values[n].get_scalar() {
            Some(x) => {
                numbers.push(*x);
            },
            None => {
                assert(!(views_of(values@)[n as int] is Scalar));
                return None;
            },
        }
        n += 1;
    }
    proof {
        assert(numbers@ =~= scalars_in(views_of(values@)));
    }
    Some(numbers)
}

/// The matrix of logarithmic derivatives, one row per step; a
/// [`Error::DataAccessError`] if the streams do not allow it.
pub fn log_derivative_matrix<R: Real>(
    gradients: &Vec<OperatorValue<R>>,
    amplitudes: &Vec<OperatorValue<R>>,
) -> (out: Result<Vec<Vec<R>>, Error>)
    ensures
        out is Ok == derivative_streams_ok(views_of(gradients@), views_of(amplitudes@)),
        out is Err ==> out == Err::<Vec<Vec<R>>, Error>(Error::DataAccessError),
        out is Ok ==> rows_of(out->Ok_0@) == log_derivatives(
            views_of(gradients@),
            views_of(amplitudes@),
        ),
{
    let ghost gs = views_of(gradients@);
    let ghost amps = views_of(amplitudes@);
    let steps = gradients.len();
    if steps == 0 || amplitudes.len() != steps {
        return Err(Error::DataAccessError);
    }
    let width = match gradients[0].get_vector() {
        Some(first) => first.len(),
        None => {
            assert(!(gs[0] is Vector));
            return Err(Error::DataAccessError);
        },
    };
    let mut rows: Vec<Vec<R>> = Vec::new();
    let mut n: usize = 0;
    while n < steps
        invariant
            n <= steps,
            steps == gradients.len(),
            steps == amplitudes.len(),
            gs == views_of(gradients@),
            amps == views_of(amplitudes@),
            gs[0] is Vector,
            width == gs[0]->Vector_0.len(),
            rows.len() == n,
            forall|m: int|
                0 <= m < n ==> (#[trigger] gs[m]) is Vector && gs[m]->Vector_0.len() == width,
            forall|m: int| 0 <= m < n ==> (#[trigger] amps[m]) is Scalar,
            forall|m: int|
                0 <= m < n ==> (#[trigger] rows[m])@ == log_derivatives(gs, amps)[m],
        decreases steps - n,
    {
        let gradient = match gradients[n].get_vector() {
            Some(v) => v,
            None => {
                assert(!(gs[n as int] is Vector));
                return Err(Error::DataAccessError);
            },
        };
        if gradient.len() != width {
            assert(gs[n as int]->Vector_0.len() != gs[0]->Vector_0.len());
            return Err(Error::DataAccessError);
        }
        let amplitude = match amplitudes[n].get_scalar() {
            Some(x) => *x,
            None => {
                assert(!(amps[n as int] is Scalar));
                return Err(Error::DataAccessError);
            },
        };
        let mut row: Vec<R> = Vec::new();
        let mut k: usize = 0;
        while k < width
            invariant
                k <= width,
                width == gradient.len(),
                row.len() == k,
                forall|j: int| 0 <= j < k ==> row[j] == gradient[j].quotient(amplitude),
            decreases width - k,
        {
            row.push(gradient[k].div(amplitude));
            k += 1;
        }
        proof {
            assert(row@ =~= log_derivatives(gs, amps)[n as int]);
        }
        rows.push(row);
        n += 1;
    }
    proof {
        assert(rows_of(rows@) =~= log_derivatives(gs, amps));
    }
    Ok(rows)
}

/// The energy gradient from the logarithmic derivatives, the local energies
/// and their mean.
pub fn energy_gradient<R: Real>(derivatives: &Vec<Vec<R>>, energies: &Vec<R>, mean: R) -> (out:
    Vec<R>)
    requires
        derivatives.len() >= 1,
        has_shape(derivatives@, derivatives.len() as int, derivatives[0].len() as int),
        energies.len() == derivatives.len(),
    ensures
        out@ == energy_gradient_of(rows_of(derivatives@), energies@, mean),
{
    let ghost o = rows_of(derivatives@);
    let steps = derivatives.len();
    let width = derivatives[0].len();
    let weight = R::from_count(steps);
    let two = R::from_ratio(2, 1);
    let mut gradient: Vec<R> = Vec::new();
    let mut k: usize = 0;
    while k < width
        invariant
            k <= width,
            steps == derivatives.len(),
            steps >= 1,
            energies.len() == steps,
            o == rows_of(derivatives@),
            has_shape(derivatives@, steps as int, width as int),
            weight == R::count(steps),
            two == R::ratio(2, 1),
            gradient.len() == k,
            forall|j: int|
                0 <= j < k ==> gradient[j] == energy_gradient_entry(o, energies@, mean, j),
        decreases width - k,
    {
        let mut acc = R::from_ratio(0, 1);
        let mut n: usize = 0;
        while n < steps
            invariant
                n <= steps,
                k < width,
                steps == derivatives.len(),
                energies.len() == steps,
                o == rows_of(derivatives@),
                has_shape(derivatives@, steps as int, width as int),
                acc == weighted_total(o, energies@, mean, k as int, n as nat),
            decreases steps - n,
        {
            assert(derivatives@[n as int].len() == width);
            acc = acc.add(derivatives[n][k].mul(energies[n].sub(mean)));
            n += 1;
        }
        gradient.push(two.mul(acc.div(weight)));
        k += 1;
    }
    proof {
        assert(o[0].len() == width);
        assert(gradient@ =~= energy_gradient_of(o, energies@, mean));
    }
    gradient
}

/// The energy gradient from the sampled streams and their averages; a
/// [`Error::DataAccessError`] if a stream is absent or does not have the
/// shape the estimator needs.
pub fn compute_energy_gradient<R: Real>(
    raw_data: &Table<Vec<OperatorValue<R>>>,
    averages: &Table<OperatorValue<R>>,
) -> (out: Result<Vec<R>, Error>)
    ensures
        out is Ok == gradient_data_ok(raw_data, averages),
        out is Err ==> out == Err::<Vec<R>, Error>(Error::DataAccessError),
        out is Ok ==> out->Ok_0@ == sampled_energy_gradient(raw_data, averages),
{
    let energies = match raw_data.get(&"Energy".to_owned()) {
        Some(stream) => stream,
        None => {
            return Err(Error::DataAccessError);
        },
    };
    let gradients = match raw_data.get(&"Parameter gradient".to_owned()) {
        Some(stream) => stream,
        None => {
            return Err(Error::DataAccessError);
        },
    };
    let amplitudes = match raw_data.get(&"Wavefunction value".to_owned()) {
        Some(stream) => stream,
        None => {
            return Err(Error::DataAccessError);
        },
    };
    let mean = match averages.get(&"Energy".to_owned()) {
        Some(value) => match value.get_scalar() {
            Some(x) => *x,
            None => {
                return Err(Error::DataAccessError);
            },
        },
        None => {
            return Err(Error::DataAccessError);
        },
    };
    let derivatives = match log_derivative_matrix(gradients, amplitudes) {
        Ok(o) => o,
        Err(e) => {
            return Err(e);
        },
    };
    let numbers = match scalar_stream(energies) {
        Some(xs) => xs,
        None => {
            return Err(Error::DataAccessError);
        },
    };
    proof {
        let o = log_derivatives(views_of(gradients@), views_of(amplitudes@));
        assert(rows_of(derivatives@).len() == o.len());
        assert(derivatives.len() == gradients.len());
        assert(numbers@.len() == views_of(energies@).len());
        assert(numbers.len() == energies.len());
    }
    if numbers.len() != derivatives.len() {
        return Err(Error::DataAccessError);
    }
    proof {
        let o = log_derivatives(views_of(gradients@), views_of(amplitudes@));
        assert(rows_of(derivatives@) == o);
        assert(derivatives.len() == o.len());
        assert forall|i: int| 0 <= i < derivatives.len() implies (#[trigger] derivatives@[i]).len()
            == derivatives[0].len() by {
            assert(rows_of(derivatives@)[i] == o[i]);
            assert(rows_of(derivatives@)[0] == o[0]);
        }
    }
    Ok(energy_gradient(&derivatives, &numbers, mean))
}

} // verus!
