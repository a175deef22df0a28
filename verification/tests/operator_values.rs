use qmc::error::Error;
use qmc::operator::{broadcast_rows, broadcast_rows_right, OperatorValue};
use qmc::scalar::{Operation, Real};
use qmc::table::Table;
use rand::rngs::StdRng;
use rand::{Rng, SeedableRng};

#[derive(Clone, Copy, Debug, PartialEq, PartialOrd)]
struct Num(f64);

impl Real for Num {
    fn sum(self, rhs: Self) -> Self {
        Num(self.0 + rhs.0)
    }

    fn difference(self, rhs: Self) -> Self {
        Num(self.0 - rhs.0)
    }

    fn product(self, rhs: Self) -> Self {
        Num(self.0 * rhs.0)
    }

    fn quotient(self, rhs: Self) -> Self {
        Num(self.0 / rhs.0)
    }

    fn negation(self) -> Self {
        Num(-self.0)
    }

    fn square_root(self) -> Self {
        Num(self.0.sqrt())
    }

    fn exponential(self) -> Self {
        Num(exp(self.0))
    }

    fn minimum(self, rhs: Self) -> Self {
        Num(self.0.min(rhs.0))
    }

    fn exceeds(self, rhs: Self) -> bool {
        self.0 > rhs.0
    }

    fn differs_in_sign(self, rhs: Self) -> bool {
        self.0.signum() != rhs.0.signum()
    }

    fn finite(self) -> bool {
        self.0.is_finite()
    }

    fn ratio(numer: i64, denom: i64) -> Self {
        Num(numer as f64 / denom as f64)
    }

    fn count(n: usize) -> Self {
        Num(n as f64)
    }

    fn add(self, rhs: Self) -> Self {
        self.sum(rhs)
    }

    fn sub(self, rhs: Self) -> Self {
        self.difference(rhs)
    }

    fn mul(self, rhs: Self) -> Self {
        self.product(rhs)
    }

    fn div(self, rhs: Self) -> Self {
        self.quotient(rhs)
    }

    fn neg(self) -> Self {
        self.negation()
    }

    fn sqrt(self) -> Self {
        self.square_root()
    }

    fn exp(self) -> Self {
        self.exponential()
    }

    fn min(self, rhs: Self) -> Self {
        self.minimum(rhs)
    }

    fn gt(self, rhs: Self) -> bool {
        self.exceeds(rhs)
    }

    fn sign_differs(self, rhs: Self) -> bool {
        self.differs_in_sign(rhs)
    }

    fn is_finite(self) -> bool {
        self.finite()
    }

    fn from_ratio(numer: i64, denom: i64) -> Self {
        Self::ratio(numer, denom)
    }

    fn from_count(n: usize) -> Self {
        Self::count(n)
    }
}

/// The exponential computed in software: a function of its argument.
fn exp(x: f64) -> f64 {
    libm::exp(x)
}

fn nums(xs: &[f64]) -> Vec<Num> {
    xs.iter().map(|x| Num(*x)).collect()
}

fn scalar(x: f64) -> OperatorValue<Num> {
    OperatorValue::Scalar(Num(x))
}

fn vector(xs: &[f64]) -> OperatorValue<Num> {
    OperatorValue::Vector(nums(xs))
}

fn matrix(rows: &[&[f64]]) -> OperatorValue<Num> {
    OperatorValue::Matrix(rows.iter().map(|row| nums(row)).collect())
}

/// A normal number: neither zero, subnormal, infinite nor not a number.
fn normal(source: &mut StdRng) -> f64 {
    let sign = source.gen::<u64>() & (1 << 63);
    let exponent = source.gen_range(1..2047u64) << 52;
    let fraction = source.gen::<u64>() & ((1 << 52) - 1);
    f64::from_bits(sign | exponent | fraction)
}

#[test]
fn add_op_values() {
    let mut source = StdRng::from_seed([7; 32]);
    for _ in 0..1000 {
        let x = normal(&mut source);
        let y = normal(&mut source);
        assert!(x.is_normal() && y.is_normal());
        let first = scalar(x);
        let second = scalar(y);
        assert_eq!(
            x + y,
            match first.add(&second) {
                Ok(OperatorValue::Scalar(value)) => value.0,
                _ => f64::NAN,
            }
        );
    }
}

#[test]
fn scalar_arithmetic_is_elementwise() {
    let a = scalar(6.0);
    let b = scalar(1.5);
    assert_eq!(a.sub(&b), Ok(scalar(4.5)));
    assert_eq!(a.mul(&b), Ok(scalar(9.0)));
    assert_eq!(a.div(&b), Ok(scalar(4.0)));
    assert_eq!(a.combine(Operation::Sub, &b), Ok(scalar(4.5)));
}

#[test]
fn add_then_subtract_gives_back_the_first() {
    for (x, y) in [(1.5, 2.25), (-8.0, 0.5), (1024.0, -3.0)] {
        let sum = scalar(x).add(&scalar(y)).unwrap();
        assert_eq!(sum.sub(&scalar(y)), Ok(scalar(x)));
    }
}

#[test]
fn multiply_then_divide_gives_back_the_first() {
    for (x, y) in [(1.5, 2.0), (-8.0, 0.5), (3.0, -4.0)] {
        let product = scalar(x).mul(&scalar(y)).unwrap();
        assert_eq!(product.div(&scalar(y)), Ok(scalar(x)));
    }
}

#[test]
fn scalar_is_broadcast_over_a_vector() {
    let s = scalar(2.0);
    let v = vector(&[1.0, 3.0, -4.0]);
    assert_eq!(s.add(&v), Ok(vector(&[3.0, 5.0, -2.0])));
    assert_eq!(s.sub(&v), Ok(vector(&[1.0, -1.0, 6.0])));
    assert_eq!(s.mul(&v), Ok(vector(&[2.0, 6.0, -8.0])));
    assert_eq!(s.div(&v), Ok(vector(&[2.0, 2.0 / 3.0, -0.5])));
}

#[test]
fn each_operand_keeps_its_side() {
    let s = scalar(2.0);
    let v = vector(&[1.0, 4.0]);
    assert_eq!(v.sub(&s), Ok(vector(&[-1.0, 2.0])));
    assert_eq!(s.sub(&v), Ok(vector(&[1.0, -2.0])));
    assert_eq!(v.div(&s), Ok(vector(&[0.5, 2.0])));
    assert_eq!(s.div(&v), Ok(vector(&[2.0, 0.5])));
    assert_eq!(v.add(&s), s.add(&v));
    assert_eq!(v.mul(&s), s.mul(&v));
    assert_eq!(vector(&[3.0, 5.0]).sub(&scalar(1.0)), Ok(vector(&[2.0, 4.0])));
    assert_eq!(vector(&[2.0, 4.0]).div(&scalar(2.0)), Ok(vector(&[1.0, 2.0])));
    assert_eq!(v.div(&s), Ok(v.divided_by(Num(2.0))));
}

#[test]
fn adding_and_subtracting_a_scalar_gives_back_the_vector() {
    let a = vector(&[3.0, 5.0, -0.5]);
    let b = scalar(1.0);
    assert_eq!(a.add(&b).unwrap().sub(&b), Ok(a.clone()));
    assert_eq!(a.mul(&scalar(4.0)).unwrap().div(&scalar(4.0)), Ok(a));
}

#[test]
fn scalar_is_broadcast_over_a_matrix() {
    let s = scalar(10.0);
    let m = matrix(&[&[1.0, 2.0], &[4.0, 5.0]]);
    assert_eq!(s.sub(&m), Ok(matrix(&[&[9.0, 8.0], &[6.0, 5.0]])));
    assert_eq!(m.sub(&s), Ok(matrix(&[&[-9.0, -8.0], &[-6.0, -5.0]])));
    assert_eq!(m.div(&scalar(2.0)), Ok(matrix(&[&[0.5, 1.0], &[2.0, 2.5]])));
    assert_eq!(m.div(&scalar(2.0)), Ok(m.divided_by(Num(2.0))));
    assert_eq!(s.div(&m), Ok(matrix(&[&[10.0, 5.0], &[2.5, 2.0]])));
}

#[test]
fn vector_with_vector_is_unsupported() {
    let a = vector(&[1.0, 2.0]);
    let b = vector(&[3.0, 4.0]);
    assert_eq!(a.add(&b), Err(Error::UnsupportedOperatorCombination));
    assert_eq!(a.sub(&b), Err(Error::UnsupportedOperatorCombination));
    assert_eq!(a.mul(&b), Err(Error::UnsupportedOperatorCombination));
    assert_eq!(a.div(&b), Err(Error::UnsupportedOperatorCombination));
}

#[test]
fn matrix_with_matrix_is_unsupported() {
    let a = matrix(&[&[1.0]]);
    let b = matrix(&[&[2.0]]);
    assert_eq!(a.add(&b), Err(Error::UnsupportedOperatorCombination));
    assert_eq!(a.mul(&vector(&[1.0])), Err(Error::UnsupportedOperatorCombination));
    assert_eq!(vector(&[1.0]).div(&a), Err(Error::UnsupportedOperatorCombination));
}

#[test]
fn sum_of_nothing_is_the_scalar_zero() {
    assert_eq!(OperatorValue::<Num>::sum(&vec![]), Ok(scalar(0.0)));
}

#[test]
fn sum_folds_by_addition_from_zero() {
    let values = vec![scalar(1.0), scalar(2.0), scalar(3.5)];
    assert_eq!(OperatorValue::sum(&values), Ok(scalar(6.5)));
    assert_eq!(OperatorValue::sum(&vec![vector(&[1.0, 2.0])]), Ok(vector(&[1.0, 2.0])));
    assert_eq!(
        OperatorValue::sum(&vec![scalar(1.0), vector(&[1.0, 2.0]), scalar(3.0)]),
        Ok(vector(&[5.0, 6.0]))
    );
}

#[test]
fn sum_of_two_vectors_is_unsupported() {
    let values = vec![vector(&[1.0]), vector(&[2.0]), scalar(1.0)];
    assert_eq!(OperatorValue::sum(&values), Err(Error::UnsupportedOperatorCombination));
}

#[test]
fn getters_give_the_content_of_the_matching_kind_only() {
    let s = scalar(1.5);
    let v = vector(&[1.0, 2.0]);
    let m = matrix(&[&[1.0, 2.0]]);
    assert_eq!(s.get_scalar(), Some(&Num(1.5)));
    assert_eq!(s.get_vector(), None);
    assert_eq!(s.get_matrix(), None);
    assert_eq!(v.get_scalar(), None);
    assert_eq!(v.get_vector(), Some(&nums(&[1.0, 2.0])));
    assert_eq!(v.get_matrix(), None);
    assert_eq!(m.get_scalar(), None);
    assert_eq!(m.get_vector(), None);
    assert_eq!(m.get_matrix(), Some(&vec![nums(&[1.0, 2.0])]));
}

#[test]
fn divided_by_divides_every_entry() {
    assert_eq!(scalar(3.0).divided_by(Num(2.0)), scalar(1.5));
    assert_eq!(vector(&[3.0, -1.0]).divided_by(Num(2.0)), vector(&[1.5, -0.5]));
    assert_eq!(
        matrix(&[&[2.0], &[4.0, 8.0]]).divided_by(Num(4.0)),
        matrix(&[&[0.5], &[1.0, 2.0]])
    );
}

#[test]
fn table_keeps_insertion_order_and_replaces_in_place() {
    let mut table: Table<Num> = Table::new();
    assert_eq!(table.len(), 0);
    table.insert("Energy".to_string(), Num(1.0));
    table.insert("Kinetic".to_string(), Num(2.0));
    table.insert("Energy".to_string(), Num(3.0));
    assert_eq!(table.len(), 2);
    assert_eq!(table.name_at(0), "Energy");
    assert_eq!(table.name_at(1), "Kinetic");
    assert_eq!(table.value_at(0), &Num(3.0));
    assert_eq!(table.get(&"Kinetic".to_string()), Some(&Num(2.0)));
    assert_eq!(table.get(&"Potential".to_string()), None);
    assert_eq!(table.position(&"Kinetic".to_string()), Some(1));
    assert_eq!(table.position(&"Potential".to_string()), None);
}

#[test]
fn table_exchanges_a_value_in_place() {
    let mut table: Table<Vec<Num>> = Table::new();
    table.insert("first".to_string(), nums(&[1.0]));
    table.insert("second".to_string(), nums(&[2.0, 3.0]));
    let mut held = nums(&[9.0]);
    table.exchange(1, &mut held);
    assert_eq!(held, nums(&[2.0, 3.0]));
    assert_eq!(table.value_at(1), &nums(&[9.0]));
    assert_eq!(table.value_at(0), &nums(&[1.0]));
    assert_eq!(table.name_at(1), "second");
    assert_eq!(table.len(), 2);
}

#[test]
fn broadcast_over_rows_keeps_the_shape() {
    let rows = vec![nums(&[1.0, 2.0]), nums(&[]), nums(&[4.0])];
    assert_eq!(
        broadcast_rows(Operation::Div, Num(8.0), &rows),
        vec![nums(&[8.0, 4.0]), nums(&[]), nums(&[2.0])]
    );
    assert_eq!(
        broadcast_rows_right(Operation::Div, &rows, Num(8.0)),
        vec![nums(&[0.125, 0.25]), nums(&[]), nums(&[0.5])]
    );
    assert_eq!(broadcast_rows::<Num>(Operation::Add, Num(1.0), &vec![]), Vec::<Vec<Num>>::new());
}
