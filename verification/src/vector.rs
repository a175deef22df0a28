//! Positions in space and dense vectors of numbers.
//!
//! A configuration is a `Vec<Vector3<R>>`, one position per particle; a
//! many-body gradient has the same shape. Parameter vectors are `Vec<R>`.
use vstd::prelude::*;
use crate::scalar::{Operation, Real, applied, apply, zero};

verus! {

/// A point or displacement in three-dimensional space.
#[derive(Clone, Copy, Debug, PartialEq)]
pub struct Vector3<R: Real> {
    pub x: R,
    pub y: R,
    pub z: R,
}

impl<R: Real> Vector3<R> {
    /// Componentwise sum.
    pub open spec fn plus(self, rhs: Self) -> Self {
        Vector3 { x: self.x.sum(rhs.x), y: self.y.sum(rhs.y), z: self.z.sum(rhs.z) }
    }

    /// Componentwise difference.
    pub open spec fn minus(self, rhs: Self) -> Self {
        Vector3 {
            x: self.x.difference(rhs.x),
            y: self.y.difference(rhs.y),
            z: self.z.difference(rhs.z),
        }
    }

    /// Every component multiplied by `factor`.
    pub open spec fn scaled(self, factor: R) -> Self {
        Vector3 {
            x: self.x.product(factor),
            y: self.y.product(factor),
            z: self.z.product(factor),
        }
    }

    /// Every component divided by `divisor`.
    pub open spec fn shrunk(self, divisor: R) -> Self {
        Vector3 {
            x: self.x.quotient(divisor),
            y: self.y.quotient(divisor),
            z: self.z.quotient(divisor),
        }
    }

    /// The inner product `x*x' + y*y' + z*z'`, summed from the left.
    pub open spec fn inner(self, rhs: Self) -> R {
        self.x.product(rhs.x).sum(self.y.product(rhs.y)).sum(self.z.product(rhs.z))
    }

    /// The Euclidean length.
    pub open spec fn length(self) -> R {
        self.inner(self).square_root()
    }

    pub fn new(x: R, y: R, z: R) -> (out: Self)
        ensures
            out == (Vector3 { x, y, z }),
    {
        Vector3 { x, y, z }
    }

    pub fn add(self, rhs: Self) -> (out: Self)
        ensures
            out == self.plus(rhs),
    {
        Vector3 { x: self.x.add(rhs.x), y: self.y.add(rhs.y), z: self.z.add(rhs.z) }
    }

    pub fn sub(self, rhs: Self) -> (out: Self)
        ensures
            out == self.minus(rhs),
    {
        Vector3 { x: self.x.sub(rhs.x), y: self.y.sub(rhs.y), z: self.z.sub(rhs.z) }
    }

    pub fn scale(self, factor: R) -> (out: Self)
        ensures
            out == self.scaled(factor),
    {
        Vector3 { x: self.x.mul(factor), y: self.y.mul(factor), z: self.z.mul(factor) }
    }

    pub fn shrink(self, divisor: R) -> (out: Self)
        ensures
            out == self.shrunk(divisor),
    {
        Vector3 { x: self.x.div(divisor), y: self.y.div(divisor), z: self.z.div(divisor) }
    }

    pub fn dot(self, rhs: Self) -> (out: R)
        ensures
            out == self.inner(rhs),
    {
        self.x.mul(rhs.x).add(self.y.mul(rhs.y)).add(self.z.mul(rhs.z))
    }

    pub fn norm(self) -> (out: R)
        ensures
            out == self.length(),
    {
        self.dot(self).sqrt()
    }
}

/// A position is its own mathematical content.
impl<R: Real> View for Vector3<R> {
    type V = Vector3<R>;

    open spec fn view(&self) -> Vector3<R> {
        *self
    }
}

/// The inner product of `a` and `b`, accumulated from the left, starting at
/// zero. Meant for sequences of one length.
pub open spec fn inner<R: Real>(a: Seq<R>, b: Seq<R>) -> R
    decreases a.len(),
{
    if a.len() == 0 || b.len() == 0 {
        zero::<R>()
    } else {
        inner(a.drop_last(), b.drop_last()).sum(a.last().product(b.last()))
    }
}

/// `op` applied to `scalar` on the left and each entry of `entries` on the
/// right.
pub open spec fn broadcast_over<R: Real>(op: Operation, scalar: R, entries: Seq<R>) -> Seq<R> {
    Seq::new(entries.len(), |i: int| applied(op, scalar, entries[i]))
}

/// `op` applied to each entry of `entries` on the left and `scalar` on the
/// right.
pub open spec fn broadcast_under<R: Real>(op: Operation, entries: Seq<R>, scalar: R) -> Seq<R> {
    Seq::new(entries.len(), |i: int| applied(op, entries[i], scalar))
}

/// `op` applied entry by entry to two sequences of one length.
pub open spec fn zipped<R: Real>(op: Operation, a: Seq<R>, b: Seq<R>) -> Seq<R> {
    Seq::new(a.len(), |i: int| applied(op, a[i], b[i]))
}

/// Every entry negated.
pub open spec fn negated<R: Real>(entries: Seq<R>) -> Seq<R> {
    Seq::new(entries.len(), |i: int| entries[i].negation())
}

/// A copy of `xs`.
pub fn duplicate<R: Real>(xs: &Vec<R>) -> (out: Vec<R>)
    ensures
        out@ == xs@,
{
    let mut out: Vec<R> = Vec::new();
    let mut i: usize = 0;
    while i < xs.len()
        invariant
            i <= xs.len(),
            out@ == xs@.take(i as int),
        decreases xs.len() - i,
    {
        out.push(xs[i]);
        proof {
            assert(xs@.take(i + 1) == xs@.take(i as int).push(xs@[i as int]));
        }
        i += 1;
    }
    proof {
        assert(xs@.take(xs.len() as int) == xs@);
    }
    out
}

/// A copy of the configuration `cfg`.
pub fn duplicate_positions<R: Real>(cfg: &Vec<Vector3<R>>) -> (out: Vec<Vector3<R>>)
    ensures
        out@ == cfg@,
{
    let mut out: Vec<Vector3<R>> = Vec::new();
    let mut i: usize = 0;
    while i < cfg.len()
        invariant
            i <= cfg.len(),
            out@ == cfg@.take(i as int),
        decreases cfg.len() - i,
    {
        out.push(cfg[i]);
        proof {
            assert(cfg@.take(i + 1) == cfg@.take(i as int).push(cfg@[i as int]));
        }
        i += 1;
    }
    proof {
        assert(cfg@.take(cfg.len() as int) == cfg@);
    }
    out
}

/// The inner product of two vectors of one length.
pub fn dot<R: Real>(a: &Vec<R>, b: &Vec<R>) -> (out: R)
    requires
        a.len() == b.len(),
    ensures
        out == inner(a@, b@),
{
    let mut acc = R::from_ratio(0, 1);
    let mut i: usize = 0;
    while i < a.len()
        invariant
            i <= a.len(),
            a.len() == b.len(),
            acc == inner(a@.take(i as int), b@.take(i as int)),
        decreases a.len() - i,
    {
        proof {
            assert(a@.take(i + 1).drop_last() == a@.take(i as int));
            assert(b@.take(i + 1).drop_last() == b@.take(i as int));
        }
        acc = acc.add(a[i].mul(b[i]));
        i += 1;
    }
    proof {
        assert(a@.take(a.len() as int) == a@);
        assert(b@.take(b.len() as int) == b@);
    }
    acc
}

/// `op` with `scalar` on the left, on each entry of `entries`.
pub fn broadcast<R: Real>(op: Operation, scalar: R, entries: &Vec<R>) -> (out: Vec<R>)
    ensures
        out@ == broadcast_over(op, scalar, entries@),
{
    let mut out: Vec<R> = Vec::new();
    let mut i: usize = 0;
    while i < entries.len()
        invariant
            i <= entries.len(),
            out.len() == i,
            forall|j: int| 0 <= j < i ==> out[j] == applied(op, scalar, entries[j]),
        decreases entries.len() - i,
    {
        out.push(apply(op, scalar, entries[i]));
        i += 1;
    }
    proof {
        assert(out@ =~= broadcast_over(op, scalar, entries@));
    }
    out
}

/// `op` with each entry of `entries` on the left and `scalar` on the right.
pub fn broadcast_right<R: Real>(op: Operation, entries: &Vec<R>, scalar: R) -> (out: Vec<R>)
    ensures
        out@ == broadcast_under(op, entries@, scalar),
{
    let mut out: Vec<R> = Vec::new();
    let mut i: usize = 0;
    while i < entries.len()
        invariant
            i <= entries.len(),
            out.len() == i,
            forall|j: int| 0 <= j < i ==> out[j] == applied(op, entries[j], scalar),
        decreases entries.len() - i,
    {
        out.push(apply(op, entries[i], scalar));
        i += 1;
    }
    proof {
        assert(out@ =~= broadcast_under(op, entries@, scalar));
    }
    out
}

/// `op` entry by entry on two vectors of one length.
pub fn zip_with<R: Real>(op: Operation, a: &Vec<R>, b: &Vec<R>) -> (out: Vec<R>)
    requires
        a.len() == b.len(),
    ensures
        out@ == zipped(op, a@, b@),
{
    let mut out: Vec<R> = Vec::new();
    let mut i: usize = 0;
    while i < a.len()
        invariant
            i <= a.len(),
            a.len() == b.len(),
            out.len() == i,
            forall|j: int| 0 <= j < i ==> out[j] == applied(op, a[j], b[j]),
        decreases a.len() - i,
    {
        out.push(apply(op, a[i], b[i]));
        i += 1;
    }
    proof {
        assert(out@ =~= zipped(op, a@, b@));
    }
    out
}

/// Every entry negated.
pub fn negate<R: Real>(entries: &Vec<R>) -> (out: Vec<R>)
    ensures
        out@ == negated(entries@),
{
    let mut out: Vec<R> = Vec::new();
    let mut i: usize = 0;
    while i < entries.len()
        invariant
            i <= entries.len(),
            out.len() == i,
            forall|j: int| 0 <= j < i ==> out[j] == entries[j].negation(),
        decreases entries.len() - i,
    {
        out.push(entries[i].neg());
        i += 1;
    }
    proof {
        assert(out@ =~= negated(entries@));
    }
    out
}

/// A vector of `len` entries, each `value`.
pub fn filled<R: Real>(len: usize, value: R) -> (out: Vec<R>)
    ensures
        out@ == Seq::new(len as nat, |i: int| value),
{
    let mut out: Vec<R> = Vec::new();
    let mut i: usize = 0;
    while i < len
        invariant
            i <= len,
            out.len() == i,
            forall|j: int| 0 <= j < i ==> out[j] == value,
        decreases len - i,
    {
        out.push(value);
        i += 1;
    }
    proof {
        assert(out@ =~= Seq::new(len as nat, |i: int| value));
    }
    out
}

} // verus!
