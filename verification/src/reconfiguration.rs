//! The stochastic-reconfiguration matrix.
//!
//! With `O[n][k]` the logarithmic derivative by parameter `k` at step `n`, the
//! matrix is the covariance `S[k][l] = <O_k O_l> - <O_k><O_l>` over the
//! steps, with its diagonal multiplied by `1 + 1/100` so that it can be
//! solved against. Each pair of indices is computed once, for `k <= l`, and
//! stands at both `[k][l]` and `[l][k]`.
use vstd::prelude::*;
use crate::error::Error;
use crate::estimators::{
    amplitude_label,
    compute_energy_gradient,
    derivative_streams_ok,
    gradient_data_ok,
    gradient_label,
    log_derivative_matrix,
    log_derivatives,
    sampled_energy_gradient,
};
use crate::linalg::{LinearAlgebra, has_shape, rows_of};
use crate::operator::{OperatorValue, views_of};
use crate::optimize::Optimizer;
use crate::scalar::{Operation, Real, one, zero};
use crate::table::Table;
use crate::vector::{broadcast, broadcast_over};

verus! {

/// The sum of column `k` over the first `upto` rows, accumulated from zero.
pub open spec fn column_total<R: Real>(derivatives: Seq<Seq<R>>, k: int, upto: nat) -> R
    decreases upto,
{
    if upto == 0 {
        zero::<R>()
    } else {
        column_total(derivatives, k, (upto - 1) as nat).sum(derivatives[upto - 1][k])
    }
}

/// The mean of column `k`: `<O_k>`.
pub open spec fn column_mean<R: Real>(derivatives: Seq<Seq<R>>, k: int) -> R {
    column_total(derivatives, k, derivatives.len()).quotient(
        R::count(derivatives.len() as usize),
    )
}

/// The sum over the first `upto` rows of `O[n][k] * O[n][l] / weight`,
/// accumulated from zero.
pub open spec fn product_total<R: Real>(
    derivatives: Seq<Seq<R>>,
    k: int,
    l: int,
    weight: R,
    upto: nat,
) -> R
    decreases upto,
{
    if upto == 0 {
        zero::<R>()
    } else {
        product_total(derivatives, k, l, weight, (upto - 1) as nat).sum(
            derivatives[upto - 1][k].product(derivatives[upto - 1][l]).quotient(weight),
        )
    }
}

/// The mean of the products of columns `k` and `l`: `<O_k O_l>`.
pub open spec fn product_mean<R: Real>(derivatives: Seq<Seq<R>>, k: int, l: int) -> R {
    product_total(
        derivatives,
        k,
        l,
        R::count(derivatives.len() as usize),
        derivatives.len(),
    )
}

/// `<O_k O_l> - <O_k><O_l>`.
pub open spec fn covariance<R: Real>(derivatives: Seq<Seq<R>>, k: int, l: int) -> R {
    product_mean(derivatives, k, l).difference(
        column_mean(derivatives, k).product(column_mean(derivatives, l)),
    )
}

/// The factor `1 + 1/100` on the diagonal.
pub open spec fn stabilizer<R: Real>() -> R {
    one::<R>().sum(R::ratio(1, 100))
}

/// The entry of the matrix before its diagonal is scaled: the covariance of
/// the pair, taken with the smaller index first.
pub open spec fn raw_entry<R: Real>(derivatives: Seq<Seq<R>>, k: int, l: int) -> R {
    if k <= l {
        covariance(derivatives, k, l)
    } else {
        covariance(derivatives, l, k)
    }
}

/// The entry of the finished matrix.
pub open spec fn sr_entry<R: Real>(derivatives: Seq<Seq<R>>, k: int, l: int) -> R {
    if k == l {
        raw_entry(derivatives, k, l).product(stabilizer::<R>())
    } else {
        raw_entry(derivatives, k, l)
    }
}

/// The finished matrix, one row and one column per parameter.
pub open spec fn sr_matrix<R: Real>(derivatives: Seq<Seq<R>>) -> Seq<Seq<R>> {
    Seq::new(
        derivatives[0].len(),
        |k: int| Seq::new(derivatives[0].len(), |l: int| sr_entry(derivatives, k, l)),
    )
}

/// Whether `m` is square and its entries at `[k][l]` and `[l][k]` are one
/// value, for every pair of indices.
pub open spec fn is_symmetric<R>(m: Seq<Seq<R>>) -> bool {
    &&& forall|k: int| 0 <= k < m.len() ==> (#[trigger] m[k]).len() == m.len()
    &&& forall|k: int, l: int|
        0 <= k < m.len() && 0 <= l < m.len() ==> (#[trigger] m[k][l]) == m[l][k]
}

/// The matrix is symmetric: the entries at `[k][l]` and `[l][k]` are one
/// value, for every pair of indices.
pub proof fn lemma_sr_matrix_symmetric<R: Real>(derivatives: Seq<Seq<R>>, k: int, l: int)
    ensures
        sr_entry(derivatives, k, l) == sr_entry(derivatives, l, k),
        is_symmetric(sr_matrix(derivatives)),
{
}

/// Scaling the diagonal multiplies each diagonal entry by `1 + 1/100` and
/// leaves every other entry as it was.
pub proof fn lemma_sr_diagonal_scaled<R: Real>(derivatives: Seq<Seq<R>>, k: int, l: int)
    ensures
        k == l ==> sr_entry(derivatives, k, l) == raw_entry(derivatives, k, k).product(
            one::<R>().sum(R::ratio(1, 100)),
        ),
        k != l ==> sr_entry(derivatives, k, l) == raw_entry(derivatives, k, l),
{
}

/// The means of all columns.
pub fn column_means<R: Real>(derivatives: &Vec<Vec<R>>) -> (out: Vec<R>)
    requires
        derivatives.len() >= 1,
        has_shape(derivatives@, derivatives.len() as int, derivatives[0].len() as int),
    ensures
        out.len() == derivatives[0].len(),
        forall|k: int|
            0 <= k < out.len() ==> out[k] == column_mean(rows_of(derivatives@), k),
{
    let ghost o = rows_of(derivatives@);
    let steps = derivatives.len();
    let width = derivatives[0].len();
    let weight = R::from_count(steps);
    let mut means: Vec<R> = Vec::new();
    let mut k: usize = 0;
    while k < width
        invariant
            k <= width,
            steps == derivatives.len(),
            o == rows_of(derivatives@),
            has_shape(derivatives@, steps as int, width as int),
            weight == R::count(steps),
            means.len() == k,
            forall|j: int| 0 <= j < k ==> means[j] == column_mean(o, j),
        decreases width - k,
    {
        let mut acc = R::from_ratio(0, 1);
        let mut n: usize = 0;
        while n < steps
            invariant
                n <= steps,
                k < width,
                steps == derivatives.len(),
                o == rows_of(derivatives@),
                has_shape(derivatives@, steps as int, width as int),
                acc == column_total(o, k as int, n as nat),
            decreases steps - n,
        {
            assert(derivatives@[n as int].len() == width);
            acc = acc.add(derivatives[n][k]);
            n += 1;
        }
        means.push(acc.div(weight));
        k += 1;
    }
    means
}

/// The covariance of columns `k` and `l`, from the derivatives and the
/// column means.
pub fn covariance_entry<R: Real>(derivatives: &Vec<Vec<R>>, means: &Vec<R>, k: usize, l: usize) -> (out:
    R)
    requires
        derivatives.len() >= 1,
        has_shape(derivatives@, derivatives.len() as int, means.len() as int),
        forall|j: int|
            0 <= j < means.len() ==> means[j] == column_mean(rows_of(derivatives@), j),
        k < means.len(),
        l < means.len(),
    ensures
        out == covariance(rows_of(derivatives@), k as int, l as int),
{
    let ghost o = rows_of(derivatives@);
    let steps = derivatives.len();
    let weight = R::from_count(steps);
    let mut acc = R::from_ratio(0, 1);
    let mut n: usize = 0;
    while n < steps
        invariant
            n <= steps,
            steps == derivatives.len(),
            o == rows_of(derivatives@),
            has_shape(derivatives@, steps as int, means.len() as int),
            k < means.len(),
            l < means.len(),
            weight == R::count(steps),
            acc == product_total(o, k as int, l as int, weight, n as nat),
        decreases steps - n,
    {
        assert(derivatives@[n as int].len() == means.len());
        acc = acc.add(derivatives[n][k].mul(derivatives[n][l]).div(weight));
        n += 1;
    }
    acc.sub(means[k].mul(means[l]))
}

/// The stochastic-reconfiguration matrix from the logarithmic derivatives.
pub fn reconfiguration_matrix<R: Real>(derivatives: &Vec<Vec<R>>) -> (out: Vec<Vec<R>>)
    requires
        derivatives.len() >= 1,
        has_shape(derivatives@, derivatives.len() as int, derivatives[0].len() as int),
    ensures
        rows_of(out@) == sr_matrix(rows_of(derivatives@)),
        is_symmetric(rows_of(out@)),
{
    let ghost o = rows_of(derivatives@);
    let width = derivatives[0].len();
    let means = column_means(derivatives);
    let factor = R::from_ratio(1, 1).add(R::from_ratio(1, 100));
    let mut matrix: Vec<Vec<R>> = Vec::new();
    let mut k: usize = 0;
    while k < width
        invariant
            k <= width,
            derivatives.len() >= 1,
            o == rows_of(derivatives@),
            means.len() == width,
            has_shape(derivatives@, derivatives.len() as int, width as int),
            forall|j: int| 0 <= j < means.len() ==> means[j] == column_mean(o, j),
            factor == stabilizer::<R>(),
            matrix.len() == k,
            forall|i: int| 0 <= i < k ==> (#[trigger] matrix[i]).len() == width,
            forall|i: int, j: int|
                0 <= i < k && 0 <= j < width ==> (#[trigger] matrix[i][j]) == sr_entry(o, i, j),
        decreases width - k,
    {
        let mut row: Vec<R> = Vec::new();
        let mut l: usize = 0;
        while l < width
            invariant
                l <= width,
                k < width,
                derivatives.len() >= 1,
                o == rows_of(derivatives@),
                means.len() == width,
                has_shape(derivatives@, derivatives.len() as int, width as int),
                forall|j: int| 0 <= j < means.len() ==> means[j] == column_mean(o, j),
                factor == stabilizer::<R>(),
                matrix.len() == k,
                forall|i: int| 0 <= i < k ==> (#[trigger] matrix[i]).len() == width,
                forall|i: int, j: int|
                    0 <= i < k && 0 <= j < width ==> (#[trigger] matrix[i][j]) == sr_entry(
                        o,
                        i,
                        j,
                    ),
                row.len() == l,
                forall|j: int| 0 <= j < l ==> row[j] == sr_entry(o, k as int, j),
            decreases width - l,
        {
            if l < k {
                let mirrored = matrix[l][k];
                assert(mirrored == sr_entry(o, l as int, k as int));
                row.push(mirrored);
            } else if l == k {
                row.push(covariance_entry(derivatives, &means, k, l).mul(factor));
            } else {
                row.push(covariance_entry(derivatives, &means, k, l));
            }
            l += 1;
        }
        matrix.push(row);
        k += 1;
    }
    proof {
        assert(o[0].len() == width);
        assert forall|i: int| 0 <= i < width implies (#[trigger] rows_of(matrix@)[i]) =~= sr_matrix(
            o,
        )[i] by {
            assert forall|j: int| 0 <= j < width implies rows_of(matrix@)[i][j] == sr_matrix(
                o,
            )[i][j] by {
                assert(matrix[i][j] == sr_entry(o, i, j));
            }
        }
        assert(rows_of(matrix@) =~= sr_matrix(o));
    }
    matrix
}

/// Stochastic reconfiguration: the step solves `S x = -(1/2) g` for the
/// reconfiguration matrix `S` and the energy gradient `g`, and returns
/// `step_size * x`. The solve is done by `solver`.
#[derive(Clone)]
pub struct StochasticReconfiguration<R: Real, L: LinearAlgebra<R>> {
    pub step_size: R,
    pub solver: L,
}

/// The matrix of the system that the streams give.
pub open spec fn sampled_sr_matrix<R: Real>(raw_data: &Table<Vec<OperatorValue<R>>>) -> Seq<
    Seq<R>,
> {
    sr_matrix(
        log_derivatives(
            views_of(raw_data.lookup(gradient_label())->0@),
            views_of(raw_data.lookup(amplitude_label())->0@),
        ),
    )
}

/// The right-hand side for the energy gradient `g`: `-(1/2) g`.
pub open spec fn sr_right_hand_side<R: Real>(g: Seq<R>) -> Seq<R> {
    broadcast_over(Operation::Mul, R::ratio(-1i64, 2), g)
}

/// What the step is for a given outcome of the solve: `step_size` times the
/// solution, or a [`Error::LinearAlgebraError`] where the solve failed.
pub open spec fn sr_step<R: Real>(step_size: R, solution: Option<Seq<R>>, out: Result<
    Vec<R>,
    Error,
>) -> bool {
    match solution {
        Some(x) => out is Ok && out->Ok_0@ == broadcast_over(Operation::Mul, step_size, x),
        None => out == Err::<Vec<R>, Error>(Error::LinearAlgebraError),
    }
}

/// The views of an outcome of the solve.
pub open spec fn solution_view<R: Real>(solution: Option<Vec<R>>) -> Option<Seq<R>> {
    match solution {
        Some(x) => Some(x@),
        None => None,
    }
}

impl<R: Real, L: LinearAlgebra<R>> StochasticReconfiguration<R, L> {
    pub fn new(step_size: R, solver: L) -> (out: Self)
        ensures
            out.step_size == step_size,
            out.solver == solver,
    {
        Self { step_size, solver }
    }

    /// The stochastic-reconfiguration matrix from the streams of parameter
    /// gradients and wavefunction values; a [`Error::DataAccessError`] if
    /// logarithmic derivatives cannot be formed from them.
    pub fn construct_sr_matrix(
        parm_grad: &Vec<OperatorValue<R>>,
        wf_values: &Vec<OperatorValue<R>>,
    ) -> (out: Result<Vec<Vec<R>>, Error>)
        ensures
            out is Ok == derivative_streams_ok(views_of(parm_grad@), views_of(wf_values@)),
            out is Err ==> out == Err::<Vec<Vec<R>>, Error>(Error::DataAccessError),
            out is Ok ==> rows_of(out->Ok_0@) == sr_matrix(
                log_derivatives(views_of(parm_grad@), views_of(wf_values@)),
            ) && is_symmetric(rows_of(out->Ok_0@)),
    {
        let derivatives = match log_derivative_matrix(parm_grad, wf_values) {
            Ok(o) => o,
            Err(e) => {
                return Err(e);
            },
        };
        proof {
            let o = log_derivatives(views_of(parm_grad@), views_of(wf_values@));
            assert(rows_of(derivatives@).len() == o.len());
            assert forall|i: int| 0 <= i < derivatives.len() implies (#[trigger] derivatives@[i]).len()
                == derivatives[0].len() by {
                assert(rows_of(derivatives@)[i] == o[i]);
                assert(rows_of(derivatives@)[0] == o[0]);
            }
        }
        Ok(reconfiguration_matrix(&derivatives))
    }

    /// The system `S x = b` for the streams and averages: the
    /// reconfiguration matrix and `-(1/2) g`; a
    /// [`Error::DataAccessError`] where the energy gradient cannot be formed.
    pub fn system(
        averages: &Table<OperatorValue<R>>,
        raw_data: &Table<Vec<OperatorValue<R>>>,
    ) -> (out: Result<(Vec<Vec<R>>, Vec<R>), Error>)
        ensures
            out is Ok == gradient_data_ok(raw_data, averages),
            out is Err ==> out == Err::<(Vec<Vec<R>>, Vec<R>), Error>(Error::DataAccessError),
            out is Ok ==> rows_of(out->Ok_0.0@) == sampled_sr_matrix(raw_data) && out->Ok_0.1@
                == sr_right_hand_side(sampled_energy_gradient(raw_data, averages)),
    {
        let gradient = match compute_energy_gradient(raw_data, averages) {
            Ok(g) => g,
            Err(e) => {
                return Err(e);
            },
        };
        let grad_parm = match raw_data.get(&"Parameter gradient".to_owned()) {
            Some(stream) => stream,
            None => {
                return Err(Error::DataAccessError);
            },
        };
        let wf_values = match raw_data.get(&"Wavefunction value".to_owned()) {
            Some(stream) => stream,
            None => {
                return Err(Error::DataAccessError);
            },
        };
        let matrix = match Self::construct_sr_matrix(grad_parm, wf_values) {
            Ok(m) => m,
            Err(e) => {
                return Err(e);
            },
        };
        Ok((matrix, broadcast(Operation::Mul, R::from_ratio(-1, 2), &gradient)))
    }

    /// The step for a given outcome of the solve.
    pub fn finish(&self, solution: Option<Vec<R>>) -> (out: Result<Vec<R>, Error>)
        ensures
            sr_step(self.step_size, solution_view(solution), out),
    {
        match solution {
            Some(x) => Ok(broadcast(Operation::Mul, self.step_size, &x)),
            None => Err(Error::LinearAlgebraError),
        }
    }
}

impl<R: Real, L: LinearAlgebra<R>> Optimizer<R> for StochasticReconfiguration<R, L> {
    fn compute_parameter_update(
        &mut self,
        pars: &Vec<R>,
        averages: &Table<OperatorValue<R>>,
        raw_data: &Table<Vec<OperatorValue<R>>>,
    ) -> (out: Result<Vec<R>, Error>)
        ensures
            *final(self) == *old(self),
            !gradient_data_ok(raw_data, averages) ==> out == Err::<Vec<R>, Error>(
                Error::DataAccessError,
            ),
            gradient_data_ok(raw_data, averages) ==> sr_step(
                old(self).step_size,
                old(self).solver.solution_of(
                    sampled_sr_matrix(raw_data),
                    sr_right_hand_side(sampled_energy_gradient(raw_data, averages)),
                ),
                out,
            ),
    {
        let (matrix, rhs) = match Self::system(averages, raw_data) {
            Ok(pair) => pair,
            Err(e) => {
                return Err(e);
            },
        };
        let solution = self.solver.solve_symmetric(&matrix, &rhs);
        self.finish(solution)
    }
}

} // verus!
