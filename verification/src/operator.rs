//! Values that operators produce, and their arithmetic.
//!
//! A value is a scalar, a vector or a matrix. Arithmetic is defined between
//! two scalars and between a scalar and a vector or matrix; in the mixed case
//! the scalar is broadcast over the entries, and each operand stays on the
//! side it was given on: a vector minus a scalar takes the scalar from every
//! entry. Two vectors or two matrices cannot be combined: that is reported
//! as [`Error::UnsupportedOperatorCombination`].
use vstd::prelude::*;
use crate::error::Error;
use crate::linalg::rows_of;
use crate::scalar::{Operation, Real, applied, apply, zero};
use crate::vector::{broadcast, broadcast_over, broadcast_right, broadcast_under};
use crate::wavefunction::Configuration;

verus! {

/// [`broadcast_over`] on every row of `rows`.
pub open spec fn broadcast_over_rows<R: Real>(op: Operation, scalar: R, rows: Seq<Seq<R>>) -> Seq<
    Seq<R>,
> {
    Seq::new(rows.len(), |i: int| broadcast_over(op, scalar, rows[i]))
}

/// What an operator evaluates to at one configuration.
#[derive(Clone, Debug, PartialEq)]
pub enum OperatorValue<R: Real> {
    Scalar(R),
    Vector(Vec<R>),
    Matrix(Vec<Vec<R>>),
}

/// The mathematical content of an [`OperatorValue`].
pub enum Value<R> {
    Scalar(R),
    Vector(Seq<R>),
    Matrix(Seq<Seq<R>>),
}

impl<R: Real> View for OperatorValue<R> {
    type V = Value<R>;

    open spec fn view(&self) -> Value<R> {
        match self {
            OperatorValue::Scalar(x) => Value::Scalar(*x),
            OperatorValue::Vector(v) => Value::Vector(v@),
            OperatorValue::Matrix(m) => Value::Matrix(rows_of(m@)),
        }
    }
}

/// An observable: something that acts on a wavefunction at a configuration
/// and gives a value. The sampler takes any implementation.
///
/// Acting is pure: `acts` names the result, and an implementation promises
/// only that `act_on` returns the named value.
pub trait Operator<R: Real, T> {
    /// The operator applied to `wf` at `cfg`.
    spec fn acts(&self, wf: &T, cfg: &Configuration<R>) -> Result<OperatorValue<R>, Error>;

    fn act_on(&self, wf: &T, cfg: &Configuration<R>) -> (out: Result<OperatorValue<R>, Error>)
        ensures
            match out {
                Ok(value) => self.acts(wf, cfg) is Ok && value@ == self.acts(wf, cfg)->Ok_0@,
                Err(e) => self.acts(wf, cfg) == Err::<OperatorValue<R>, Error>(e),
            },
    ;
}

/// `op` applied to each entry of each row of `rows` on the left and
/// `scalar` on the right.
pub open spec fn broadcast_under_rows<R: Real>(op: Operation, rows: Seq<Seq<R>>, scalar: R) -> Seq<
    Seq<R>,
> {
    Seq::new(rows.len(), |i: int| broadcast_under(op, rows[i], scalar))
}

/// The outcome of `op` on two values: defined between two scalars and between
/// a scalar and a vector or matrix, entry by entry, each operand on its own
/// side.
pub open spec fn combined<R: Real>(op: Operation, lhs: Value<R>, rhs: Value<R>) -> Result<
    Value<R>,
    Error,
> {
    match (lhs, rhs) {
        (Value::Scalar(a), Value::Scalar(b)) => Ok(Value::Scalar(applied(op, a, b))),
        (Value::Scalar(a), Value::Vector(v)) => Ok(Value::Vector(broadcast_over(op, a, v))),
        (Value::Scalar(a), Value::Matrix(m)) => Ok(Value::Matrix(broadcast_over_rows(op, a, m))),
        (Value::Vector(v), Value::Scalar(b)) => Ok(Value::Vector(broadcast_under(op, v, b))),
        (Value::Matrix(m), Value::Scalar(b)) => Ok(Value::Matrix(broadcast_under_rows(op, m, b))),
        _ => Err(Error::UnsupportedOperatorCombination),
    }
}

/// A value with every entry divided by `divisor`.
pub open spec fn divided<R: Real>(value: Value<R>, divisor: R) -> Value<R> {
    match value {
        Value::Scalar(x) => Value::Scalar(x.quotient(divisor)),
        Value::Vector(v) => Value::Vector(broadcast_under(Operation::Div, v, divisor)),
        Value::Matrix(m) => Value::Matrix(broadcast_under_rows(Operation::Div, m, divisor)),
    }
}

/// The sum of a sequence of values: starting from the scalar zero, each value
/// in turn is added on the right; the first failure ends it.
pub open spec fn summed<R: Real>(values: Seq<Value<R>>) -> Result<Value<R>, Error>
    decreases values.len(),
{
    if values.len() == 0 {
        Ok(Value::Scalar(zero::<R>()))
    } else {
        match summed(values.drop_last()) {
            Ok(acc) => combined(Operation::Add, acc, values.last()),
            Err(e) => Err(e),
        }
    }
}

/// The views of a sequence of values.
pub open spec fn views_of<R: Real>(values: Seq<OperatorValue<R>>) -> Seq<Value<R>> {
    Seq::new(values.len(), |i: int| values[i]@)
}

/// [`broadcast`] on every row of `rows`.
pub fn broadcast_rows<R: Real>(op: Operation, scalar: R, rows: &Vec<Vec<R>>) -> (out: Vec<Vec<R>>)
    ensures
        rows_of(out@) == broadcast_over_rows(op, scalar, rows_of(rows@)),
{
    let mut out: Vec<Vec<R>> = Vec::new();
    let mut i: usize = 0;
    while i < rows.len()
        invariant
            i <= rows.len(),
            out.len() == i,
            forall|j: int| 0 <= j < i ==> out[j]@ == broadcast_over(op, scalar, rows[j]@),
        decreases rows.len() - i,
    {
        out.push(broadcast(op, scalar, &rows[i]));
        i += 1;
    }
    proof {
        assert(rows_of(out@) =~= broadcast_over_rows(op, scalar, rows_of(rows@)));
    }
    out
}

/// [`broadcast_right`] on every row of `rows`.
pub fn broadcast_rows_right<R: Real>(op: Operation, rows: &Vec<Vec<R>>, scalar: R) -> (out: Vec<
    Vec<R>,
>)
    ensures
        rows_of(out@) == broadcast_under_rows(op, rows_of(rows@), scalar),
{
    let mut out: Vec<Vec<R>> = Vec::new();
    let mut i: usize = 0;
    while i < rows.len()
        invariant
            i <= rows.len(),
            out.len() == i,
            forall|j: int| 0 <= j < i ==> out[j]@ == broadcast_under(op, rows[j]@, scalar),
        decreases rows.len() - i,
    {
        out.push(broadcast_right(op, &rows[i], scalar));
        i += 1;
    }
    proof {
        assert(rows_of(out@) =~= broadcast_under_rows(op, rows_of(rows@), scalar));
    }
    out
}

impl<R: Real> OperatorValue<R> {
    /// The number inside a scalar value; nothing for a vector or matrix.
    pub fn get_scalar(&self) -> (out: Option<&R>)
        ensures
            match self@ {
                Value::Scalar(x) => out == Some(&x),
                _ => out is None,
            },
    {
        match self {
            OperatorValue::Scalar(value) => Some(value),
            _ => None,
        }
    }

    /// The entries of a vector value; nothing for a scalar or matrix.
    pub fn get_vector(&self) -> (out: Option<&Vec<R>>)
        ensures
            match self@ {
                Value::Vector(v) => out is Some && out->0@ == v,
                _ => out is None,
            },
    {
        match self {
            OperatorValue::Vector(value) => Some(value),
            _ => None,
        }
    }

    /// The rows of a matrix value; nothing for a scalar or vector.
    pub fn get_matrix(&self) -> (out: Option<&Vec<Vec<R>>>)
        ensures
            match self@ {
                Value::Matrix(m) => out is Some && rows_of(out->0@) == m,
                _ => out is None,
            },
    {
        match self {
            OperatorValue::Matrix(value) => Some(value),
            _ => None,
        }
    }

    /// Every entry divided by `divisor`.
    pub fn divided_by(&self, divisor: R) -> (out: Self)
        ensures
            out@ == divided(self@, divisor),
    {
        match self {
            OperatorValue::Scalar(x) => OperatorValue::Scalar(x.div(divisor)),
            OperatorValue::Vector(v) => OperatorValue::Vector(
                broadcast_right(Operation::Div, v, divisor),
            ),
            OperatorValue::Matrix(m) => OperatorValue::Matrix(
                broadcast_rows_right(Operation::Div, m, divisor),
            ),
        }
    }

    /// `op` on `self` and `other`.
    pub fn combine(&self, op: Operation, other: &Self) -> (out: Result<Self, Error>)
        ensures
            match out {
                Ok(value) => combined(op, self@, other@) == Ok::<Value<R>, Error>(value@),
                Err(e) => combined(op, self@, other@) == Err::<Value<R>, Error>(e),
            },
    {
        match self {
            OperatorValue::Scalar(a) => match other {
                OperatorValue::Scalar(b) => Ok(OperatorValue::Scalar(apply(op, *a, *b))),
                OperatorValue::Vector(v) => Ok(OperatorValue::Vector(broadcast(op, *a, v))),
                OperatorValue::Matrix(m) => Ok(OperatorValue::Matrix(broadcast_rows(op, *a, m))),
            },
            OperatorValue::Vector(v) => match other {
                OperatorValue::Scalar(b) => Ok(OperatorValue::Vector(broadcast_right(op, v, *b))),
                _ => Err(Error::UnsupportedOperatorCombination),
            },
            OperatorValue::Matrix(m) => match other {
                OperatorValue::Scalar(b) => Ok(
                    OperatorValue::Matrix(broadcast_rows_right(op, m, *b)),
                ),
                _ => Err(Error::UnsupportedOperatorCombination),
            },
        }
    }

    /// `self + other`.
    pub fn add(&self, other: &Self) -> (out: Result<Self, Error>)
        ensures
            match out {
                Ok(value) => combined(Operation::Add, self@, other@) == Ok::<Value<R>, Error>(
                    value@,
                ),
                Err(e) => combined(Operation::Add, self@, other@) == Err::<Value<R>, Error>(e),
            },
    {
        self.combine(Operation::Add, other)
    }

    /// `self - other`.
    pub fn sub(&self, other: &Self) -> (out: Result<Self, Error>)
        ensures
            match out {
                Ok(value) => combined(Operation::Sub, self@, other@) == Ok::<Value<R>, Error>(
                    value@,
                ),
                Err(e) => combined(Operation::Sub, self@, other@) == Err::<Value<R>, Error>(e),
            },
    {
        self.combine(Operation::Sub, other)
    }

    /// `self * other`.
    pub fn mul(&self, other: &Self) -> (out: Result<Self, Error>)
        ensures
            match out {
                Ok(value) => combined(Operation::Mul, self@, other@) == Ok::<Value<R>, Error>(
                    value@,
                ),
                Err(e) => combined(Operation::Mul, self@, other@) == Err::<Value<R>, Error>(e),
            },
    {
        self.combine(Operation::Mul, other)
    }

    /// `self / other`.
    pub fn div(&self, other: &Self) -> (out: Result<Self, Error>)
        ensures
            match out {
                Ok(value) => combined(Operation::Div, self@, other@) == Ok::<Value<R>, Error>(
                    value@,
                ),
                Err(e) => combined(Operation::Div, self@, other@) == Err::<Value<R>, Error>(e),
            },
    {
        self.combine(Operation::Div, other)
    }

    /// The sum of `values`, starting from the scalar zero.
    pub fn sum(values: &Vec<Self>) -> (out: Result<Self, Error>)
        ensures
            match out {
                Ok(value) => summed(views_of(values@)) == Ok::<Value<R>, Error>(value@),
                Err(e) => summed(views_of(values@)) == Err::<Value<R>, Error>(e),
            },
    {
        let mut acc = OperatorValue::Scalar(R::from_ratio(0, 1));
        let mut i: usize = 0;
        while i < values.len()
            invariant
                i <= values.len(),
                summed(views_of(values@).take(i as int)) == Ok::<Value<R>, Error>(acc@),
            decreases values.len() - i,
        {
            proof {
                let all = views_of(values@);
                assert(all.take(i + 1).drop_last() == all.take(i as int));
                assert(all.take(i + 1).last() == values[i as int]@);
            }
            match acc.add(&values[i]) {
                Ok(next) => {
                    acc = next;
                },
                Err(e) => {
                    proof {
                        lemma_summed_failure_persists(views_of(values@), i + 1);
                    }
                    return Err(e);
                },
            }
            i += 1;
        }
        proof {
            assert(views_of(values@).take(values.len() as int) == views_of(values@));
        }
        Ok(acc)
    }
}

/// Whether `holds` is true of every entry of `a`.
pub open spec fn every_entry<R: Real>(a: Value<R>, holds: spec_fn(R) -> bool) -> bool {
    match a {
        Value::Scalar(x) => holds(x),
        Value::Vector(v) => forall|i: int| 0 <= i < v.len() ==> holds(#[trigger] v[i]),
        Value::Matrix(m) => forall|i: int, j: int|
            0 <= i < m.len() && 0 <= j < m[i].len() ==> holds(#[trigger] m[i][j]),
    }
}

/// Whether `a` and `b` have one shape and `near` holds between each entry of
/// `a` and the entry of `b` at its place.
pub open spec fn entrywise<R: Real>(near: spec_fn(R, R) -> bool, a: Value<R>, b: Value<R>) -> bool {
    match (a, b) {
        (Value::Scalar(x), Value::Scalar(y)) => near(x, y),
        (Value::Vector(v), Value::Vector(w)) => {
            &&& v.len() == w.len()
            &&& forall|i: int| 0 <= i < v.len() ==> near(#[trigger] v[i], w[i])
        },
        (Value::Matrix(m), Value::Matrix(n)) => {
            &&& m.len() == n.len()
            &&& forall|i: int| 0 <= i < m.len() ==> (#[trigger] m[i]).len() == n[i].len()
            &&& forall|i: int, j: int|
                0 <= i < m.len() && 0 <= j < m[i].len() ==> near(#[trigger] m[i][j], n[i][j])
        },
        _ => false,
    }
}

/// `a` after `forward` and then `backward`, each with the scalar `y` on the
/// right.
pub open spec fn there_and_back<R: Real>(
    forward: Operation,
    backward: Operation,
    a: Value<R>,
    y: R,
) -> Result<Value<R>, Error> {
    match combined(forward, a, Value::Scalar(y)) {
        Ok(there) => combined(backward, there, Value::Scalar(y)),
        Err(e) => Err(e),
    }
}

/// What holds of numbers when one operation is undone by another holds of
/// values: where `near` relates `(x forward y) backward y` to `x` for every
/// entry `x` of `a`, the value `(a forward y) backward y` is defined, has the
/// shape of `a`, and `near` relates each of its entries to the entry of `a`
/// at its place.
proof fn lemma_there_and_back<R: Real>(
    near: spec_fn(R, R) -> bool,
    forward: Operation,
    backward: Operation,
    a: Value<R>,
    y: R,
)
    requires
        every_entry(a, |x: R| near(applied(backward, applied(forward, x, y), y), x)),
    ensures
        there_and_back(forward, backward, a, y) is Ok,
        entrywise(near, there_and_back(forward, backward, a, y)->Ok_0, a),
{
    let holds = |x: R| near(applied(backward, applied(forward, x, y), y), x);
    match a {
        Value::Scalar(x) => {
            assert(holds(x));
        },
        Value::Vector(v) => {
            let back = there_and_back(forward, backward, a, y)->Ok_0->Vector_0;
            assert forall|i: int| 0 <= i < back.len() implies near(#[trigger] back[i], v[i]) by {
                assert(holds(v[i]));
            }
        },
        Value::Matrix(m) => {
            let back = there_and_back(forward, backward, a, y)->Ok_0->Matrix_0;
            assert forall|i: int, j: int| 0 <= i < back.len() && 0 <= j < back[i].len() implies near(
                #[trigger] back[i][j],
                m[i][j],
            ) by {
                assert(holds(m[i][j]));
            }
        },
    }
}

/// Subtracting a scalar undoes adding it, as far as it does for numbers:
/// where `near` relates `(x + y) - y` to `x` for every entry `x` of `a`, the
/// value `(a + y) - y` is defined, has the shape of `a`, and `near` relates
/// each of its entries to the entry of `a` at its place.
pub proof fn lemma_sub_undoes_add<R: Real>(near: spec_fn(R, R) -> bool, a: Value<R>, y: R)
    requires
        every_entry(a, |x: R| near(x.sum(y).difference(y), x)),
    ensures
        there_and_back(Operation::Add, Operation::Sub, a, y) is Ok,
        entrywise(near, there_and_back(Operation::Add, Operation::Sub, a, y)->Ok_0, a),
{
    let given = |x: R| near(x.sum(y).difference(y), x);
    let wanted = |x: R|
        near(applied(Operation::Sub, applied(Operation::Add, x, y), y), x);
    assert forall|x: R| #[trigger] given(x) implies wanted(x) by {}
    lemma_every_entry_implied(a, given, wanted);
    lemma_there_and_back(near, Operation::Add, Operation::Sub, a, y);
}

/// Dividing by a scalar undoes multiplying by it, as far as it does for
/// numbers: where `near` relates `(x * y) / y` to `x` for every entry `x` of
/// `a`, the value `(a * y) / y` is defined, has the shape of `a`, and `near`
/// relates each of its entries to the entry of `a` at its place.
pub proof fn lemma_div_undoes_mul<R: Real>(near: spec_fn(R, R) -> bool, a: Value<R>, y: R)
    requires
        every_entry(a, |x: R| near(x.product(y).quotient(y), x)),
    ensures
        there_and_back(Operation::Mul, Operation::Div, a, y) is Ok,
        entrywise(near, there_and_back(Operation::Mul, Operation::Div, a, y)->Ok_0, a),
{
    let given = |x: R| near(x.product(y).quotient(y), x);
    let wanted = |x: R|
        near(applied(Operation::Div, applied(Operation::Mul, x, y), y), x);
    assert forall|x: R| #[trigger] given(x) implies wanted(x) by {}
    lemma_every_entry_implied(a, given, wanted);
    lemma_there_and_back(near, Operation::Mul, Operation::Div, a, y);
}

/// What follows from a condition that holds of every entry holds of every
/// entry.
proof fn lemma_every_entry_implied<R: Real>(
    a: Value<R>,
    given: spec_fn(R) -> bool,
    wanted: spec_fn(R) -> bool,
)
    requires
        every_entry(a, given),
        forall|x: R| #[trigger] given(x) ==> wanted(x),
    ensures
        every_entry(a, wanted),
{
    match a {
        Value::Scalar(x) => {},
        Value::Vector(v) => {
            assert forall|i: int| 0 <= i < v.len() implies wanted(#[trigger] v[i]) by {
                assert(given(v[i]));
            }
        },
        Value::Matrix(m) => {
            assert forall|i: int, j: int| 0 <= i < m.len() && 0 <= j < m[i].len() implies wanted(
                #[trigger] m[i][j],
            ) by {
                assert(given(m[i][j]));
            }
        },
    }
}

/// Once a prefix of `values` fails to sum, every longer prefix fails the same
/// way.
pub proof fn lemma_summed_failure_persists<R: Real>(values: Seq<Value<R>>, n: int)
    requires
        0 <= n <= values.len(),
        summed(values.take(n)) is Err,
    ensures
        summed(values) == summed(values.take(n)),
    decreases values.len() - n,
{
    if n == values.len() {
        assert(values.take(n) == values);
    } else {
        assert(values.take(n + 1).drop_last() == values.take(n));
        lemma_summed_failure_persists(values, n + 1);
    }
}

} // verus!
