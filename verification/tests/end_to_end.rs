use ndarray_rand::rand_distr::Normal;
use qmc::basis::{
    gaussian, hydrogen_1s, hydrogen_2s, BasisFunction, Gaussian, Hydrogen1s, Hydrogen2s, PointVgl,
};
use qmc::basis_set::{BasisSet, GaussianBasis, Hydrogen1sBasis};
use qmc::error::Error;
use qmc::linalg::{Entries, LinearAlgebra, Rows};
use qmc::metropolis::{MetropolisBox, RandomSource};
use qmc::operator::{Operator, OperatorValue};
use qmc::operators::{ElectronicHamiltonian, ElectronicPotential, IonicPotential, KineticEnergy};
use qmc::orbitals::Orbital;
use qmc::optimize::{MomentumDescent, SteepestDescent};
use qmc::runner::{append, take_step, updated_parameters, Log, Runner};
use qmc::sampler::{MonteCarloSampler, Sampler};
use qmc::scalar::Real;
use qmc::statistics::{block_means, mean, mean_of_range, stream_mean, variance};
use qmc::estimators::scalar_stream;
use qmc::table::Table;
use qmc::vector::Vector3;
use qmc::wavefunction::{Cache, Configuration, Differentiate};
use qmc::wf::SingleDeterminant;
use rand::distributions::{Distribution, Uniform};
use rand::rngs::StdRng;
use rand::{Rng, SeedableRng};
use std::rc::Rc;

#[derive(Clone, Copy, Debug, PartialEq, PartialOrd)]
struct Num(f64);

impl Real for Num {
    fn sum(self, rhs: Self) -> Self {
        Num(self.0 + rhs.0)
    }

    fn difference(self, rhs: Self) -> Self {
        Num(self.0 - rhs.0)
    }

    fn product(self, rhs: Self) -> Self {
        Num(self.0 * rhs.0)
    }

    fn quotient(self, rhs: Self) -> Self {
        Num(self.0 / rhs.0)
    }

    fn negation(self) -> Self {
        Num(-self.0)
    }

    fn square_root(self) -> Self {
        Num(self.0.sqrt())
    }

    fn exponential(self) -> Self {
        Num(exp(self.0))
    }

    fn minimum(self, rhs: Self) -> Self {
        Num(self.0.min(rhs.0))
    }

    fn exceeds(self, rhs: Self) -> bool {
        self.0 > rhs.0
    }

    fn differs_in_sign(self, rhs: Self) -> bool {
        self.0.signum() != rhs.0.signum()
    }

    fn finite(self) -> bool {
        self.0.is_finite()
    }

    fn ratio(numer: i64, denom: i64) -> Self {
        Num(numer as f64 / denom as f64)
    }

    fn count(n: usize) -> Self {
        Num(n as f64)
    }

    fn add(self, rhs: Self) -> Self {
        self.sum(rhs)
    }

    fn sub(self, rhs: Self) -> Self {
        self.difference(rhs)
    }

    fn mul(self, rhs: Self) -> Self {
        self.product(rhs)
    }

    fn div(self, rhs: Self) -> Self {
        self.quotient(rhs)
    }

    fn neg(self) -> Self {
        self.negation()
    }

    fn sqrt(self) -> Self {
        self.square_root()
    }

    fn exp(self) -> Self {
        self.exponential()
    }

    fn min(self, rhs: Self) -> Self {
        self.minimum(rhs)
    }

    fn gt(self, rhs: Self) -> bool {
        self.exceeds(rhs)
    }

    fn sign_differs(self, rhs: Self) -> bool {
        self.differs_in_sign(rhs)
    }

    fn is_finite(self) -> bool {
        self.finite()
    }

    fn from_ratio(numer: i64, denom: i64) -> Self {
        Self::ratio(numer, denom)
    }

    fn from_count(n: usize) -> Self {
        Self::count(n)
    }
}

/// The exponential computed in software: a function of its argument.
fn exp(x: f64) -> f64 {
    libm::exp(x)
}

fn nums(xs: &[f64]) -> Vec<Num> {
    xs.iter().map(|x| Num(*x)).collect()
}

fn scalar(x: f64) -> OperatorValue<Num> {
    OperatorValue::Scalar(Num(x))
}

fn vector(xs: &[f64]) -> OperatorValue<Num> {
    OperatorValue::Vector(nums(xs))
}

fn point(x: f64, y: f64, z: f64) -> Vector3<Num> {
    Vector3::new(Num(x), Num(y), Num(z))
}

/// The standard generator of `rand` as the kernels' source of randomness.
#[derive(Clone, Debug, PartialEq)]
struct Random(StdRng);

impl RandomSource<Num> for Random {
    fn seeded(seed: [u8; 32]) -> Self {
        Random(StdRng::from_seed(seed))
    }

    fn from_seed(seed: [u8; 32]) -> Self {
        Self::seeded(seed)
    }

    fn from_entropy() -> Self {
        Random(StdRng::from_entropy())
    }

    fn uniform(&mut self, low: Num, high: Num) -> Num {
        Num(Uniform::new(low.0, high.0).sample(&mut self.0))
    }

    fn normal(&mut self, mean: Num, std_dev: Num) -> Num {
        Num(Normal::new(mean.0, std_dev.0).unwrap().sample(&mut self.0))
    }

    fn unit(&mut self) -> Num {
        Num(self.0.gen::<f64>())
    }
}

/// Gaussian elimination with partial pivoting, in plain floating point.
#[derive(Clone, Debug, PartialEq)]
struct Dense;

impl Dense {
    fn eliminate(m: &Vec<Vec<Num>>, rhs: Vec<Vec<f64>>) -> Option<(f64, Vec<Vec<f64>>)> {
        let n = m.len();
        if m.iter().any(|row| row.len() != n) || rhs.len() != n {
            return None;
        }
        let mut a: Vec<Vec<f64>> = m.iter().map(|row| row.iter().map(|x| x.0).collect()).collect();
        let mut b = rhs;
        let mut det = 1.0;
        for col in 0..n {
            let pivot = (col..n)
                .max_by(|i, j| a[*i][col].abs().partial_cmp(&a[*j][col].abs()).unwrap())
                .unwrap();
            if a[pivot][col] == 0.0 {
                return None;
            }
            if pivot != col {
                a.swap(pivot, col);
                b.swap(pivot, col);
                det = -det;
            }
            det *= a[col][col];
            for row in 0..n {
                if row != col {
                    let factor = a[row][col] / a[col][col];
                    for k in 0..n {
                        a[row][k] -= factor * a[col][k];
                    }
                    for k in 0..b[row].len() {
                        b[row][k] -= factor * b[col][k];
                    }
                }
            }
        }
        for row in 0..n {
            for k in 0..b[row].len() {
                b[row][k] /= a[row][row];
            }
        }
        Some((det, b))
    }
}

impl LinearAlgebra<Num> for Dense {
    fn determinant_of(&self, _m: Rows<Num>) -> Option<Num> {
        unreachable!()
    }

    fn inverse_of(&self, _m: Rows<Num>) -> Option<Rows<Num>> {
        unreachable!()
    }

    fn solution_of(&self, _m: Rows<Num>, _b: Entries<Num>) -> Option<Entries<Num>> {
        unreachable!()
    }

    fn determinant(&self, m: &Vec<Vec<Num>>) -> Option<Num> {
        let n = m.len();
        Dense::eliminate(m, vec![vec![]; n]).map(|(det, _)| Num(det))
    }

    fn inverse(&self, m: &Vec<Vec<Num>>) -> Option<Vec<Vec<Num>>> {
        let n = m.len();
        let identity = (0..n)
            .map(|i| (0..n).map(|j| if i == j { 1.0 } else { 0.0 }).collect())
            .collect();
        Dense::eliminate(m, identity)
            .map(|(_, inv)| inv.iter().map(|row| row.iter().map(|x| Num(*x)).collect()).collect())
    }

    fn solve_symmetric(&self, m: &Vec<Vec<Num>>, b: &Vec<Num>) -> Option<Vec<Num>> {
        let rhs = b.iter().map(|x| vec![x.0]).collect();
        Dense::eliminate(m, rhs).map(|(_, x)| x.iter().map(|row| Num(row[0])).collect())
    }
}

/// The closed-form orbitals as basis functions.
#[derive(Clone, Debug, PartialEq)]
enum Basis {
    Hydrogen1s,
    Hydrogen2s,
    Gaussian(f64),
    /// `exp(-r^2 / 2)`, with its true laplacian `(r^2 - 3) exp(-r^2 / 2)`.
    Oscillator,
}

impl BasisFunction<Num> for Basis {
    fn evaluated(&self, pos: &Vector3<Num>) -> PointVgl<Num> {
        match self {
            Basis::Hydrogen1s => Hydrogen1s {}.evaluate(pos),
            Basis::Hydrogen2s => Hydrogen2s {}.evaluate(pos),
            Basis::Gaussian(width) => Gaussian { width: Num(*width) }.evaluate(pos),
            Basis::Oscillator => {
                let r2 = pos.dot(*pos).0;
                let value = exp(-r2 / 2.0);
                PointVgl {
                    value: Num(value),
                    gradient: pos.scale(Num(-value)),
                    laplacian: Num((r2 - 3.0) * value),
                }
            }
        }
    }

    fn evaluate(&self, pos: &Vector3<Num>) -> PointVgl<Num> {
        self.evaluated(pos)
    }
}

/// A logger that reports the latest energy.
struct Logger;

impl Log<Num> for Logger {
    fn log(&mut self, data: &Table<Vec<OperatorValue<Num>>>) -> Option<String> {
        let energy = data.get(&"Energy".to_string())?.last()?.get_scalar()?;
        Some(format!("Energy: {}", energy.0))
    }
}

/// A logger that stays silent.
struct Quiet;

impl Log<Num> for Quiet {
    fn log(&mut self, _data: &Table<Vec<OperatorValue<Num>>>) -> Option<String> {
        None
    }
}

/// The Hamiltonian of a harmonic oscillator of the given frequency.
struct HarmonicHamiltonian {
    frequency: f64,
    t: KineticEnergy,
}

impl<T: Differentiate<Num, Configuration<Num>> + Cache<Num>> Operator<Num, T> for HarmonicHamiltonian {
    fn acts(&self, wf: &T, cfg: &Configuration<Num>) -> Result<OperatorValue<Num>, Error> {
        let ke = self.t.act_on(wf, cfg)?;
        let norm2: f64 = cfg.iter().map(|p| p.dot(*p).0).sum();
        let pe = OperatorValue::Scalar(Num(
            0.5 * self.frequency.powi(2) * norm2 * wf.current_value().value.0,
        ));
        ke.add(&pe)
    }

    fn act_on(&self, wf: &T, cfg: &Configuration<Num>) -> Result<OperatorValue<Num>, Error> {
        self.acts(wf, cfg)
    }
}

/// A sampler that fails at its third sweep.
struct Faulty {
    sweeps: usize,
}

impl MonteCarloSampler<Num> for Faulty {
    fn sample(&self) -> Result<Table<OperatorValue<Num>>, Error> {
        let mut values = Table::new();
        values.insert("Sweep".to_string(), scalar(self.sweeps as f64));
        values.insert("Pair".to_string(), vector(&[self.sweeps as f64, 1.0]));
        Ok(values)
    }

    fn move_state(&mut self) -> Result<(), Error> {
        if self.sweeps == 2 {
            return Err(Error::FunctionEvaluationError);
        }
        self.sweeps += 1;
        Ok(())
    }

    fn num_observables(&self) -> usize {
        2
    }

    fn acceptance(&self) -> Num {
        Num(self.sweeps as f64)
    }

    fn observable_names(&self) -> Vec<&String> {
        vec![]
    }
}

/// A sampler whose sweeps fail with a given error.
struct Failing {
    error: Error,
    sweeps: usize,
}

impl MonteCarloSampler<Num> for Failing {
    fn sample(&self) -> Result<Table<OperatorValue<Num>>, Error> {
        Ok(Table::new())
    }

    fn move_state(&mut self) -> Result<(), Error> {
        self.sweeps += 1;
        Err(self.error)
    }

    fn num_observables(&self) -> usize {
        0
    }

    fn acceptance(&self) -> Num {
        Num(0.0)
    }

    fn observable_names(&self) -> Vec<&String> {
        vec![]
    }
}

/// A sampler that plays back two steps: local energies `1` and `3`,
/// parameter gradients `[2, 4]` and `[6, 8]`, wavefunction value `2`.
struct Scripted {
    step: usize,
    with_gradient: bool,
}

impl MonteCarloSampler<Num> for Scripted {
    fn sample(&self) -> Result<Table<OperatorValue<Num>>, Error> {
        let k = (self.step + 1) % 2;
        let mut values = Table::new();
        values.insert("Energy".to_string(), scalar([1.0, 3.0][k]));
        if self.with_gradient {
            values.insert(
                "Parameter gradient".to_string(),
                vector(&[[2.0, 4.0], [6.0, 8.0]][k]),
            );
        }
        values.insert("Wavefunction value".to_string(), scalar(2.0));
        Ok(values)
    }

    fn move_state(&mut self) -> Result<(), Error> {
        self.step += 1;
        Ok(())
    }

    fn num_observables(&self) -> usize {
        3
    }

    fn acceptance(&self) -> Num {
        Num(self.step as f64)
    }

    fn observable_names(&self) -> Vec<&String> {
        vec![]
    }
}

fn energies(data: &Table<Vec<OperatorValue<Num>>>) -> Vec<Num> {
    scalar_stream(data.get(&"Energy".to_string()).unwrap()).unwrap()
}

#[test]
fn harmonic_oscillator_ground_state_has_energy_three_halves() {
    let basis = Rc::new(vec![Basis::Oscillator]);
    let orbital = Orbital::new(nums(&[1.0]), basis.clone());
    let ansatz = SingleDeterminant::new(vec![orbital], Dense);
    let metrop = MetropolisBox::from_rng(Num(1.0), Random::from_seed([0; 32]));
    let hamiltonian = HarmonicHamiltonian { frequency: 1.0, t: KineticEnergy::new() };
    let mut sampler = Sampler::new(ansatz, metrop).unwrap();
    sampler.add_observable("Energy", hamiltonian);
    let mut runner = Runner::new(sampler, Logger);
    let lines = runner.run(1000, 1).unwrap();
    assert_eq!(lines.len(), 1000);
    assert!(lines[999].starts_with("Energy: 1.5"));
    let energy_data = energies(&runner.data);
    assert_eq!(energy_data.len(), 1000);
    let energy = mean(&energy_data);
    let error = variance(&energy_data, energy).sqrt();
    assert_eq!(energy, Num(1.5));
    assert!(error.0 < 1e-15);
    assert_eq!(block_means(&energy_data, 1), energy_data);
    assert!(runner.sampler.acceptance().0 > 0.1 && runner.sampler.acceptance().0 <= 1.0);
    assert_eq!(runner.sampler.attempted, 1000);
}

/// A basis set with fixed coefficients as one basis function.
struct Contracted<B> {
    basis: B,
    centres: usize,
    coeffs: Vec<Vec<Num>>,
}

impl<B: BasisSet<Num>> BasisFunction<Num> for Contracted<B> {
    fn evaluated(&self, pos: &Vector3<Num>) -> PointVgl<Num> {
        assert_eq!(self.coeffs.len(), self.centres);
        self.basis.linear_combination(pos, &self.coeffs)
    }

    fn evaluate(&self, pos: &Vector3<Num>) -> PointVgl<Num> {
        self.evaluated(pos)
    }
}

#[test]
fn harmonic_oscillator_with_a_gaussian_basis() {
    let width = 0.5f64.sqrt();
    let basis = Rc::new(vec![Contracted {
        basis: GaussianBasis::new(vec![point(0.0, 0.0, 0.0)], nums(&[width])),
        centres: 1,
        coeffs: vec![nums(&[1.0])],
    }]);
    let orbital = Orbital::new(nums(&[1.0]), basis.clone());
    let ansatz = SingleDeterminant::new(vec![orbital], Dense);
    let metrop = MetropolisBox::from_rng(Num(1.0), Random::from_seed([0; 32]));
    let hamiltonian = HarmonicHamiltonian { frequency: 1.0, t: KineticEnergy::new() };
    let mut sampler = Sampler::new(ansatz, metrop).unwrap();
    sampler.add_observable("Energy", hamiltonian);
    let mut runner = Runner::new(sampler, Quiet);
    assert_eq!(runner.run(1000, 1), Ok(vec![]));
    let energy_data = energies(&runner.data);
    let energy = mean(&energy_data);
    let error = variance(&energy_data, energy).sqrt();
    assert!((energy.0 - 1.5).abs() < 1e-12);
    assert!(error.0 < 1e-12);
}

#[test]
fn hydrogen_atom_has_energy_minus_one_half() {
    let basis = Rc::new(vec![Contracted {
        basis: Hydrogen1sBasis::new(vec![point(0.0, 0.0, 0.0)], nums(&[1.0])),
        centres: 1,
        coeffs: vec![nums(&[1.0])],
    }]);
    let orbital = Orbital::new(nums(&[1.0]), basis.clone());
    let ansatz = SingleDeterminant::new(vec![orbital], Dense);
    let metrop = MetropolisBox::from_rng(Num(1.0), Random::from_seed([0; 32]));
    let hamiltonian = ElectronicHamiltonian::new(
        KineticEnergy::new(),
        IonicPotential::new(vec![point(0.0, 0.0, 0.0)], vec![1]),
        ElectronicPotential::new(),
    );
    let mut sampler = Sampler::new(ansatz, metrop).unwrap();
    sampler.add_observable("Energy", hamiltonian);
    let mut runner = Runner::new(sampler, Quiet);
    let steps = 1_000_000;
    let block_size = 250;
    assert_eq!(runner.run(steps, block_size), Ok(vec![]));
    let energy_data = energies(&runner.data);
    assert_eq!(energy_data.len(), steps);
    let blocks = block_means(&energy_data, block_size);
    assert_eq!(blocks.len(), steps / block_size);
    let energy = mean(&blocks);
    let error = (variance(&blocks, energy).0 / blocks.len() as f64).sqrt();
    assert!((energy.0 + 0.5).abs() <= 5.0 * error + 1e-9);
    assert!((energy.0 + 0.5).abs() < 1e-6);
    let acceptance = runner.sampler.acceptance().0;
    assert_eq!(runner.sampler.attempted, steps);
    assert!(acceptance > 0.5 && acceptance < 1.0);
}

#[test]
fn runner_records_streams_by_name() {
    let mut runner = Runner::new(Faulty { sweeps: 0 }, Quiet);
    assert_eq!(runner.run(2, 1), Ok(vec![]));
    assert_eq!(runner.data.len(), 2);
    assert_eq!(runner.data.name_at(0), "Sweep");
    assert_eq!(runner.data.name_at(1), "Pair");
    assert_eq!(runner.data.value_at(0), &vec![scalar(1.0), scalar(2.0)]);
    assert_eq!(runner.data.value_at(1), &vec![vector(&[1.0, 1.0]), vector(&[2.0, 1.0])]);
    assert_eq!(runner.run(1, 1), Err(Error::FunctionEvaluationError));
    assert_eq!(runner.data.value_at(0).len(), 2);
    let mut extra = Table::new();
    extra.insert("Pair".to_string(), scalar(9.0));
    extra.insert("New".to_string(), scalar(7.0));
    runner.record(extra);
    assert_eq!(runner.data.len(), 3);
    assert_eq!(runner.data.value_at(1).len(), 3);
    assert_eq!(runner.data.value_at(1)[2], scalar(9.0));
    assert_eq!(runner.data.get(&"New".to_string()), Some(&vec![scalar(7.0)]));
    append(&mut runner.data, "Sweep".to_string(), scalar(3.0));
    assert_eq!(runner.data.value_at(0), &vec![scalar(1.0), scalar(2.0), scalar(3.0)]);
}

#[test]
fn runner_runs_whole_blocks_only() {
    let mut runner = Runner::new(Faulty { sweeps: 0 }, Quiet);
    assert_eq!(runner.run(5, 0), Ok(vec![]));
    assert_eq!(runner.data.len(), 0);
    assert_eq!(runner.run(1, 2), Ok(vec![]));
    assert_eq!(runner.data.len(), 0);
    assert_eq!(runner.run(3, 2), Ok(vec![]));
    assert_eq!(runner.data.value_at(0).len(), 2);
    assert_eq!(runner.sampler.sweeps, 2);
}

#[test]
fn runner_averages_a_stream() {
    let mut runner = Runner::new(Scripted { step: 0, with_gradient: true }, Quiet);
    assert_eq!(runner.average("Energy"), Err(Error::DataAccessError));
    runner.run(2, 2).unwrap();
    assert_eq!(runner.average("Energy"), Ok(scalar(2.0)));
    assert_eq!(runner.average("Wavefunction value"), Ok(scalar(2.0)));
    assert_eq!(runner.average("Parameter gradient"), Err(Error::UnsupportedOperatorCombination));
    assert_eq!(runner.average("Kinetic"), Err(Error::DataAccessError));
}

#[test]
fn the_answers_of_the_sampler_are_taken_as_they_are() {
    let mut runner = Runner::new(Scripted { step: 0, with_gradient: false }, Quiet);
    for error in [Error::FunctionEvaluationError, Error::LinearAlgebraError, Error::DataAccessError] {
        assert_eq!(runner.sample_after(Err(error)), Err(error));
        assert_eq!(runner.take_sample(Err(error)), Err(error));
        assert_eq!(runner.data.len(), 0);
        assert_eq!(runner.sampler.step, 0);
    }
    let mut values = Table::new();
    values.insert("Energy".to_string(), scalar(4.0));
    assert_eq!(runner.take_sample(Ok(values)), Ok(()));
    assert_eq!(runner.data.get(&"Energy".to_string()), Some(&vec![scalar(4.0)]));
    assert_eq!(runner.sample_after(Ok(())), Ok(()));
    assert_eq!(runner.data.get(&"Energy".to_string()), Some(&vec![scalar(4.0), scalar(3.0)]));
    assert_eq!(runner.data.len(), 2);
    assert_eq!(runner.sampler.step, 0);
}

#[test]
fn a_failed_sweep_ends_the_run_with_its_error() {
    for error in [Error::LinearAlgebraError, Error::UnsupportedOperatorCombination] {
        let mut runner = Runner::new(Failing { error, sweeps: 0 }, Quiet);
        assert_eq!(runner.run(4, 2).err(), Some(error));
        assert_eq!(runner.sampler.sweeps, 1);
        assert_eq!(runner.data.len(), 0);
        let mut optimizer = SteepestDescent::new(Num(0.25));
        assert_eq!(runner.optimize_step(&mut optimizer, &nums(&[1.0]), 4, 2), Err(error));
    }
}

#[test]
fn the_answer_of_the_optimizer_is_taken_as_it_is() {
    let pars = nums(&[1.0, 2.0]);
    assert_eq!(take_step(&pars, Ok(nums(&[0.5, -4.0]))), Ok(nums(&[1.5, -2.0])));
    assert_eq!(take_step(&pars, Ok(nums(&[0.5]))), Err(Error::LinearAlgebraError));
    for error in [Error::DataAccessError, Error::LinearAlgebraError, Error::FunctionEvaluationError] {
        assert_eq!(take_step(&pars, Err(error)), Err(error));
    }
}

#[test]
fn an_iteration_is_concluded_from_the_end_of_its_run() {
    let mut runner = Runner::new(Scripted { step: 0, with_gradient: true }, Quiet);
    let mut optimizer = MomentumDescent::new(Num(0.25), Num(0.5), 2);
    let pars = nums(&[1.0, 1.0]);
    for error in [Error::FunctionEvaluationError, Error::LinearAlgebraError] {
        assert_eq!(runner.conclude(Err(error), &mut optimizer, &pars), Err(error));
        assert_eq!(optimizer.momentum, nums(&[0.0, 0.0]));
    }
    assert_eq!(runner.conclude(Ok(vec![]), &mut optimizer, &pars), Err(Error::DataAccessError));
    assert_eq!(optimizer.momentum, nums(&[0.0, 0.0]));
    runner.run(2, 1).unwrap();
    assert_eq!(runner.conclude(Ok(vec![]), &mut optimizer, &pars), Ok(nums(&[0.5, 0.5])));
    assert_eq!(optimizer.momentum, nums(&[-0.5, -0.5]));
    assert_eq!(runner.conclude(Ok(vec![]), &mut optimizer, &nums(&[1.0])), Err(Error::LinearAlgebraError));
}

#[test]
fn averages_hold_the_mean_energy_alone() {
    let mut runner = Runner::new(Scripted { step: 0, with_gradient: true }, Quiet);
    assert_eq!(runner.averages().err(), Some(Error::DataAccessError));
    runner.run(2, 1).unwrap();
    let averages = runner.averages().unwrap();
    assert_eq!(averages.len(), 1);
    assert_eq!(averages.name_at(0), "Energy");
    assert_eq!(averages.value_at(0), &scalar(2.0));
    append(&mut runner.data, "Energy".to_string(), vector(&[1.0]));
    append(&mut runner.data, "Energy".to_string(), vector(&[1.0]));
    assert_eq!(runner.averages().err(), Some(Error::UnsupportedOperatorCombination));
}

#[test]
fn parameters_are_updated_entry_by_entry() {
    assert_eq!(updated_parameters(&nums(&[1.0, 2.0]), &nums(&[0.5, -4.0])), Ok(nums(&[1.5, -2.0])));
    assert_eq!(updated_parameters::<Num>(&vec![], &vec![]), Ok(vec![]));
    assert_eq!(updated_parameters(&nums(&[1.0]), &nums(&[])), Err(Error::LinearAlgebraError));
}

#[test]
fn one_optimization_iteration() {
    let mut runner = Runner::new(Scripted { step: 0, with_gradient: true }, Quiet);
    let mut optimizer = SteepestDescent::new(Num(0.25));
    let pars = nums(&[1.0, 1.0]);
    let next = runner.optimize_step(&mut optimizer, &pars, 2, 1).unwrap();
    assert_eq!(next, nums(&[0.5, 0.5]));
    assert_eq!(runner.data.value_at(0).len(), 2);
    let again = runner.optimize_step(&mut optimizer, &next, 4, 2).unwrap();
    assert_eq!(again, nums(&[0.0, 0.0]));
    assert_eq!(runner.data.value_at(0).len(), 4);
    assert_eq!(runner.sampler.step, 6);
}

#[test]
fn optimization_iteration_reports_failures() {
    let mut optimizer = SteepestDescent::new(Num(0.25));
    let pars = nums(&[1.0, 1.0]);
    let mut silent = Runner::new(Scripted { step: 0, with_gradient: true }, Quiet);
    silent.run(2, 1).unwrap();
    assert_eq!(silent.data.len(), 3);
    assert_eq!(silent.optimize_step(&mut optimizer, &pars, 2, 0), Err(Error::DataAccessError));
    assert_eq!(silent.data.len(), 0);
    assert_eq!(silent.sampler.step, 2);
    assert_eq!(optimizer.step_size, Num(0.25));
    let mut partial = Runner::new(Scripted { step: 0, with_gradient: false }, Quiet);
    assert_eq!(partial.optimize_step(&mut optimizer, &pars, 2, 1), Err(Error::DataAccessError));
    let mut faulty = Runner::new(Faulty { sweeps: 0 }, Quiet);
    assert_eq!(faulty.optimize_step(&mut optimizer, &pars, 3, 1), Err(Error::FunctionEvaluationError));
    let mut short = Runner::new(Scripted { step: 0, with_gradient: true }, Quiet);
    assert_eq!(
        short.optimize_step(&mut optimizer, &nums(&[1.0]), 2, 1),
        Err(Error::LinearAlgebraError)
    );
}

#[test]
fn mean_variance_and_block_means() {
    let values = nums(&[1.0, 2.0, 3.0, 4.0, 10.0]);
    assert_eq!(mean(&values), Num(4.0));
    assert_eq!(variance(&values, Num(4.0)), Num((9.0 + 4.0 + 1.0 + 0.0 + 36.0) / 5.0));
    assert_eq!(mean_of_range(&values, 1, 3), Num(3.0));
    assert_eq!(block_means(&values, 2), nums(&[1.5, 3.5]));
    assert_eq!(block_means(&values, 5), nums(&[4.0]));
    assert_eq!(block_means(&values, 6), nums(&[]));
    assert_eq!(block_means(&values, 0), nums(&[]));
    assert_eq!(block_means(&values, 1), values);
    assert!(mean::<Num>(&vec![]).0.is_nan());
}

#[test]
fn mean_of_a_stream_of_observations() {
    assert_eq!(stream_mean(&vec![scalar(1.0), scalar(2.0)]), Ok(scalar(1.5)));
    assert_eq!(stream_mean(&vec![vector(&[1.0, 4.0])]), Ok(vector(&[1.0, 4.0])));
    assert_eq!(
        stream_mean(&vec![vector(&[1.0]), vector(&[2.0])]),
        Err(Error::UnsupportedOperatorCombination)
    );
}

#[test]
fn basis_functions_wrap_the_closed_forms() {
    let pos = point(0.3, 0.4, 1.2);
    assert_eq!(Basis::Hydrogen1s.evaluate(&pos).value, hydrogen_1s(&pos).0);
    assert_eq!(Basis::Hydrogen2s.evaluate(&pos).laplacian, hydrogen_2s(&pos).1);
    assert_eq!(Basis::Gaussian(0.5).evaluate(&pos).value, gaussian(&pos, Num(0.5)).0);
}
