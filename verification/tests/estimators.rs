use qmc::error::Error;
use qmc::estimators::{
    compute_energy_gradient, energy_gradient, log_derivative_matrix, scalar_stream,
};
use qmc::operator::OperatorValue;
use qmc::linalg::{Entries, LinearAlgebra, Rows};
use qmc::reconfiguration::{
    column_means, covariance_entry, reconfiguration_matrix, StochasticReconfiguration,
};
use qmc::scalar::Real;
use qmc::table::Table;

#[derive(Clone, Copy, Debug, PartialEq, PartialOrd)]
struct Num(f64);

impl Real for Num {
    fn sum(self, rhs: Self) -> Self {
        Num(self.0 + rhs.0)
    }

    fn difference(self, rhs: Self) -> Self {
        Num(self.0 - rhs.0)
    }

    fn product(self, rhs: Self) -> Self {
        Num(self.0 * rhs.0)
    }

    fn quotient(self, rhs: Self) -> Self {
        Num(self.0 / rhs.0)
    }

    fn negation(self) -> Self {
        Num(-self.0)
    }

    fn square_root(self) -> Self {
        Num(self.0.sqrt())
    }

    fn exponential(self) -> Self {
        Num(exp(self.0))
    }

    fn minimum(self, rhs: Self) -> Self {
        Num(self.0.min(rhs.0))
    }

    fn exceeds(self, rhs: Self) -> bool {
        self.0 > rhs.0
    }

    fn differs_in_sign(self, rhs: Self) -> bool {
        self.0.signum() != rhs.0.signum()
    }

    fn finite(self) -> bool {
        self.0.is_finite()
    }

    fn ratio(numer: i64, denom: i64) -> Self {
        Num(numer as f64 / denom as f64)
    }

    fn count(n: usize) -> Self {
        Num(n as f64)
    }

    fn add(self, rhs: Self) -> Self {
        self.sum(rhs)
    }

    fn sub(self, rhs: Self) -> Self {
        self.difference(rhs)
    }

    fn mul(self, rhs: Self) -> Self {
        self.product(rhs)
    }

    fn div(self, rhs: Self) -> Self {
        self.quotient(rhs)
    }

    fn neg(self) -> Self {
        self.negation()
    }

    fn sqrt(self) -> Self {
        self.square_root()
    }

    fn exp(self) -> Self {
        self.exponential()
    }

    fn min(self, rhs: Self) -> Self {
        self.minimum(rhs)
    }

    fn gt(self, rhs: Self) -> bool {
        self.exceeds(rhs)
    }

    fn sign_differs(self, rhs: Self) -> bool {
        self.differs_in_sign(rhs)
    }

    fn is_finite(self) -> bool {
        self.finite()
    }

    fn from_ratio(numer: i64, denom: i64) -> Self {
        Self::ratio(numer, denom)
    }

    fn from_count(n: usize) -> Self {
        Self::count(n)
    }
}

/// The exponential computed in software: a function of its argument.
fn exp(x: f64) -> f64 {
    libm::exp(x)
}

fn nums(xs: &[f64]) -> Vec<Num> {
    xs.iter().map(|x| Num(*x)).collect()
}

fn scalar(x: f64) -> OperatorValue<Num> {
    OperatorValue::Scalar(Num(x))
}

fn vector(xs: &[f64]) -> OperatorValue<Num> {
    OperatorValue::Vector(nums(xs))
}

/// Gaussian elimination with partial pivoting, in plain floating point.
#[derive(Clone, Debug, PartialEq)]
struct Dense;

impl Dense {
    fn eliminate(m: &Vec<Vec<Num>>, rhs: Vec<Vec<f64>>) -> Option<(f64, Vec<Vec<f64>>)> {
        let n = m.len();
        if m.iter().any(|row| row.len() != n) || rhs.len() != n {
            return None;
        }
        let mut a: Vec<Vec<f64>> = m.iter().map(|row| row.iter().map(|x| x.0).collect()).collect();
        let mut b = rhs;
        let mut det = 1.0;
        for col in 0..n {
            let pivot = (col..n)
                .max_by(|i, j| a[*i][col].abs().partial_cmp(&a[*j][col].abs()).unwrap())
                .unwrap();
            if a[pivot][col] == 0.0 {
                return None;
            }
            if pivot != col {
                a.swap(pivot, col);
                b.swap(pivot, col);
                det = -det;
            }
            det *= a[col][col];
            for row in 0..n {
                if row != col {
                    let factor = a[row][col] / a[col][col];
                    for k in 0..n {
                        a[row][k] -= factor * a[col][k];
                    }
                    for k in 0..b[row].len() {
                        b[row][k] -= factor * b[col][k];
                    }
                }
            }
        }
        for row in 0..n {
            for k in 0..b[row].len() {
                b[row][k] /= a[row][row];
            }
        }
        Some((det, b))
    }
}

impl LinearAlgebra<Num> for Dense {
    fn determinant_of(&self, _m: Rows<Num>) -> Option<Num> {
        unreachable!()
    }

    fn inverse_of(&self, _m: Rows<Num>) -> Option<Rows<Num>> {
        unreachable!()
    }

    fn solution_of(&self, _m: Rows<Num>, _b: Entries<Num>) -> Option<Entries<Num>> {
        unreachable!()
    }

    fn determinant(&self, m: &Vec<Vec<Num>>) -> Option<Num> {
        let n = m.len();
        Dense::eliminate(m, vec![vec![]; n]).map(|(det, _)| Num(det))
    }

    fn inverse(&self, m: &Vec<Vec<Num>>) -> Option<Vec<Vec<Num>>> {
        let n = m.len();
        let identity = (0..n)
            .map(|i| (0..n).map(|j| if i == j { 1.0 } else { 0.0 }).collect())
            .collect();
        Dense::eliminate(m, identity)
            .map(|(_, inv)| inv.iter().map(|row| row.iter().map(|x| Num(*x)).collect()).collect())
    }

    fn solve_symmetric(&self, m: &Vec<Vec<Num>>, b: &Vec<Num>) -> Option<Vec<Num>> {
        let rhs = b.iter().map(|x| vec![x.0]).collect();
        Dense::eliminate(m, rhs).map(|(_, x)| x.iter().map(|row| Num(row[0])).collect())
    }
}

fn streams(
    energies: Option<Vec<OperatorValue<Num>>>,
    gradients: Option<Vec<OperatorValue<Num>>>,
    amplitudes: Option<Vec<OperatorValue<Num>>>,
) -> Table<Vec<OperatorValue<Num>>> {
    let mut raw = Table::new();
    if let Some(stream) = energies {
        raw.insert("Energy".to_string(), stream);
    }
    if let Some(stream) = gradients {
        raw.insert("Parameter gradient".to_string(), stream);
    }
    if let Some(stream) = amplitudes {
        raw.insert("Wavefunction value".to_string(), stream);
    }
    raw
}

fn averages(mean_energy: Option<OperatorValue<Num>>) -> Table<OperatorValue<Num>> {
    let mut table = Table::new();
    if let Some(mean) = mean_energy {
        table.insert("Energy".to_string(), mean);
    }
    table
}

/// Two steps, two parameters: the logarithmic derivatives are
/// `[[1, 2], [3, 4]]`, the local energies `1` and `3`.
fn two_steps() -> Table<Vec<OperatorValue<Num>>> {
    streams(
        Some(vec![scalar(1.0), scalar(3.0)]),
        Some(vec![vector(&[2.0, 4.0]), vector(&[6.0, 8.0])]),
        Some(vec![scalar(2.0), scalar(2.0)]),
    )
}

#[test]
fn logarithmic_derivatives_divide_each_gradient_by_the_value() {
    let gradients = vec![vector(&[2.0, 4.0]), vector(&[6.0, 9.0])];
    let amplitudes = vec![scalar(2.0), scalar(3.0)];
    assert_eq!(
        log_derivative_matrix(&gradients, &amplitudes),
        Ok(vec![nums(&[1.0, 2.0]), nums(&[2.0, 3.0])])
    );
}

#[test]
fn logarithmic_derivatives_need_well_formed_streams() {
    let bad = Err(Error::DataAccessError);
    assert_eq!(log_derivative_matrix::<Num>(&vec![], &vec![]), bad);
    assert_eq!(log_derivative_matrix(&vec![vector(&[1.0])], &vec![]), bad);
    assert_eq!(
        log_derivative_matrix(&vec![vector(&[1.0])], &vec![scalar(1.0), scalar(2.0)]),
        bad
    );
    assert_eq!(log_derivative_matrix(&vec![scalar(1.0)], &vec![scalar(1.0)]), bad);
    assert_eq!(log_derivative_matrix(&vec![vector(&[1.0])], &vec![vector(&[1.0])]), bad);
    assert_eq!(
        log_derivative_matrix(
            &vec![vector(&[1.0, 2.0]), vector(&[1.0])],
            &vec![scalar(1.0), scalar(1.0)]
        ),
        bad
    );
    assert_eq!(
        log_derivative_matrix(
            &vec![vector(&[1.0]), vector(&[1.0, 2.0])],
            &vec![scalar(1.0), scalar(1.0)]
        ),
        bad
    );
}

#[test]
fn no_parameters_give_rows_without_entries() {
    assert_eq!(
        log_derivative_matrix(&vec![vector(&[]), vector(&[])], &vec![scalar(1.0), scalar(1.0)]),
        Ok(vec![vec![], vec![]])
    );
}

#[test]
fn scalar_stream_takes_scalars_only() {
    assert_eq!(scalar_stream(&vec![scalar(1.0), scalar(-2.0)]), Some(nums(&[1.0, -2.0])));
    assert_eq!(scalar_stream::<Num>(&vec![]), Some(vec![]));
    assert_eq!(scalar_stream(&vec![scalar(1.0), vector(&[2.0])]), None);
}

#[test]
fn energy_gradient_is_twice_the_mean_of_derivative_times_energy_deviation() {
    let derivatives = vec![nums(&[1.0, 2.0]), nums(&[3.0, 4.0])];
    let energies = nums(&[1.0, 3.0]);
    assert_eq!(energy_gradient(&derivatives, &energies, Num(2.0)), nums(&[2.0, 2.0]));
    let shifted = energy_gradient(&derivatives, &energies, Num(0.0));
    assert_eq!(shifted, nums(&[2.0 * ((1.0 + 9.0) / 2.0), 2.0 * ((2.0 + 12.0) / 2.0)]));
}

#[test]
fn energy_gradient_of_constant_energy_vanishes() {
    let derivatives = vec![nums(&[0.5, -2.0]), nums(&[3.0, 4.0]), nums(&[-1.0, 7.0])];
    let energies = nums(&[1.5, 1.5, 1.5]);
    assert_eq!(energy_gradient(&derivatives, &energies, Num(1.5)), nums(&[0.0, 0.0]));
}

#[test]
fn energy_gradient_from_streams() {
    let raw = two_steps();
    assert_eq!(compute_energy_gradient(&raw, &averages(Some(scalar(2.0)))), Ok(nums(&[2.0, 2.0])));
}

#[test]
fn energy_gradient_needs_every_stream() {
    let e = Some(vec![scalar(1.0)]);
    let g = Some(vec![vector(&[1.0])]);
    let a = Some(vec![scalar(1.0)]);
    let mean = averages(Some(scalar(1.0)));
    let bad = Err(Error::DataAccessError);
    assert_eq!(compute_energy_gradient(&streams(None, g.clone(), a.clone()), &mean), bad);
    assert_eq!(compute_energy_gradient(&streams(e.clone(), None, a.clone()), &mean), bad);
    assert_eq!(compute_energy_gradient(&streams(e.clone(), g.clone(), None), &mean), bad);
    assert_eq!(compute_energy_gradient(&streams(e.clone(), g.clone(), a.clone()), &averages(None)), bad);
    assert_eq!(
        compute_energy_gradient(&streams(e.clone(), g.clone(), a.clone()), &averages(Some(vector(&[1.0])))),
        bad
    );
    assert_eq!(
        compute_energy_gradient(&streams(Some(vec![vector(&[1.0])]), g.clone(), a.clone()), &mean),
        bad
    );
    assert_eq!(
        compute_energy_gradient(&streams(Some(vec![scalar(1.0), scalar(2.0)]), g.clone(), a.clone()), &mean),
        bad
    );
    assert_eq!(compute_energy_gradient(&streams(e, g, a), &mean), Ok(nums(&[0.0])));
}

#[test]
fn column_means_and_covariance() {
    let derivatives = vec![nums(&[1.0, 2.0]), nums(&[3.0, 4.0])];
    let means = column_means(&derivatives);
    assert_eq!(means, nums(&[2.0, 3.0]));
    assert_eq!(covariance_entry(&derivatives, &means, 0, 0), Num(1.0));
    assert_eq!(covariance_entry(&derivatives, &means, 0, 1), Num(1.0));
    assert_eq!(covariance_entry(&derivatives, &means, 1, 1), Num(1.0));
}

#[test]
fn sr_matrix_is_the_covariance_with_a_scaled_diagonal() {
    let derivatives = vec![nums(&[1.0, 2.0]), nums(&[3.0, 4.0])];
    let diagonal = 1.0 * (1.0 + 0.01);
    assert_eq!(
        reconfiguration_matrix(&derivatives),
        vec![nums(&[diagonal, 1.0]), nums(&[1.0, diagonal])]
    );
}

#[test]
fn sr_matrix_is_symmetric() {
    let gradients = vec![
        vector(&[0.3, -1.7, 2.9]),
        vector(&[1.1, 0.4, -0.6]),
        vector(&[-2.3, 0.9, 0.1]),
        vector(&[0.7, 0.7, 1.3]),
    ];
    let amplitudes = vec![scalar(0.9), scalar(-1.3), scalar(2.1), scalar(0.4)];
    let matrix = StochasticReconfiguration::<Num, Dense>::construct_sr_matrix(&gradients, &amplitudes).unwrap();
    assert_eq!(matrix.len(), 3);
    for k in 0..3 {
        assert_eq!(matrix[k].len(), 3);
        for l in 0..3 {
            assert_eq!(matrix[k][l], matrix[l][k]);
        }
    }
}

#[test]
fn sr_diagonal_is_the_covariance_times_one_and_a_hundredth() {
    let gradients = vec![vector(&[0.3, -1.7]), vector(&[1.1, 0.4]), vector(&[-2.3, 0.9])];
    let amplitudes = vec![scalar(0.9), scalar(-1.3), scalar(2.1)];
    let derivatives = log_derivative_matrix(&gradients, &amplitudes).unwrap();
    let means = column_means(&derivatives);
    let matrix = StochasticReconfiguration::<Num, Dense>::construct_sr_matrix(&gradients, &amplitudes).unwrap();
    for k in 0..2 {
        let before = covariance_entry(&derivatives, &means, k, k);
        assert_eq!(matrix[k][k], Num(before.0 * (1.0 + 0.01)));
    }
    assert_eq!(matrix[0][1], covariance_entry(&derivatives, &means, 0, 1));
}

#[test]
fn sr_matrix_needs_well_formed_streams() {
    assert_eq!(StochasticReconfiguration::<Num, Dense>::construct_sr_matrix(&vec![], &vec![]), Err(Error::DataAccessError));
    assert_eq!(
        StochasticReconfiguration::<Num, Dense>::construct_sr_matrix(&vec![scalar(1.0)], &vec![scalar(1.0)]),
        Err(Error::DataAccessError)
    );
    assert_eq!(
        StochasticReconfiguration::<Num, Dense>::construct_sr_matrix(&vec![vector(&[1.0])], &vec![vector(&[1.0])]),
        Err(Error::DataAccessError)
    );
}
