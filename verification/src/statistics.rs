//! Statistics of a stream of numbers: mean, variance, and the means of
//! consecutive blocks, which estimate the error of correlated samples.
use vstd::prelude::*;
use vstd::arithmetic::div_mod::lemma_fundamental_div_mod_converse;
use crate::error::Error;
use crate::operator::{OperatorValue, Value, divided, summed, views_of};
use crate::scalar::{Real, square, zero};

verus! {

/// The sum of the `count` entries of `xs` from position `start`,
/// accumulated from zero in their order.
pub open spec fn range_total<R: Real>(xs: Seq<R>, start: int, count: nat) -> R
    decreases count,
{
    if count == 0 {
        zero::<R>()
    } else {
        range_total(xs, start, (count - 1) as nat).sum(xs[start + count - 1])
    }
}

/// The mean of the `count` entries of `xs` from position `start`.
pub open spec fn range_mean<R: Real>(xs: Seq<R>, start: int, count: nat) -> R {
    range_total(xs, start, count).quotient(R::count(count as usize))
}

/// The mean of `xs`: the sum divided by the number of entries.
pub open spec fn mean_of<R: Real>(xs: Seq<R>) -> R {
    range_mean(xs, 0, xs.len())
}

/// The sum of the squared deviations of the first `upto` entries from
/// `center`, accumulated from zero.
pub open spec fn deviation_total<R: Real>(xs: Seq<R>, center: R, upto: nat) -> R
    decreases upto,
{
    if upto == 0 {
        zero::<R>()
    } else {
        deviation_total(xs, center, (upto - 1) as nat).sum(
            square(xs[upto - 1].difference(center)),
        )
    }
}

/// The variance of `xs` about `center`: the mean squared deviation.
pub open spec fn variance_of<R: Real>(xs: Seq<R>, center: R) -> R {
    deviation_total(xs, center, xs.len()).quotient(R::count(xs.len() as usize))
}

/// How many whole blocks of `block_size` entries fit into `len` entries;
/// none for blocks of no entries.
pub open spec fn block_count(len: nat, block_size: nat) -> nat {
    if block_size == 0 {
        0
    } else {
        len / block_size
    }
}

/// The means of the whole blocks of `block_size` consecutive entries.
pub open spec fn block_means_of<R: Real>(xs: Seq<R>, block_size: nat) -> Seq<R> {
    Seq::new(
        block_count(xs.len(), block_size),
        |b: int| range_mean(xs, b * block_size, block_size),
    )
}

/// The mean of the `count` entries of `values` from position `start`.
pub fn mean_of_range<R: Real>(values: &Vec<R>, start: usize, count: usize) -> (out: R)
    requires
        start + count <= values.len(),
    ensures
        out == range_mean(values@, start as int, count as nat),
{
    let mut acc = R::from_ratio(0, 1);
    let mut i: usize = 0;
    while i < count
        invariant
            i <= count,
            start + count <= values.len(),
            acc == range_total(values@, start as int, i as nat),
        decreases count - i,
    {
        acc = acc.add(values[start + i]);
        i += 1;
    }
    acc.div(R::from_count(count))
}

/// The mean of `values`.
pub fn mean<R: Real>(values: &Vec<R>) -> (out: R)
    ensures
        out == mean_of(values@),
{
    mean_of_range(values, 0, values.len())
}

/// The variance of `values` about `center`.
pub fn variance<R: Real>(values: &Vec<R>, center: R) -> (out: R)
    ensures
        out == variance_of(values@, center),
{
    let mut acc = R::from_ratio(0, 1);
    let mut i: usize = 0;
    while i < values.len()
        invariant
            i <= values.len(),
            acc == deviation_total(values@, center, i as nat),
        decreases values.len() - i,
    {
        let deviation = values[i].sub(center);
        acc = acc.add(deviation.mul(deviation));
        i += 1;
    }
    acc.div(R::from_count(values.len()))
}

/// The means of the whole blocks of `block_size` consecutive entries of
/// `values`; entries after the last whole block are left out.
pub fn block_means<R: Real>(values: &Vec<R>, block_size: usize) -> (out: Vec<R>)
    ensures
        out@ == block_means_of(values@, block_size as nat),
{
    let mut means: Vec<R> = Vec::new();
    if block_size == 0 {
        proof {
            assert(means@ =~= block_means_of(values@, 0));
        }
        return means;
    }
    let len = values.len();
    let mut start: usize = 0;
    proof {
        assert(0 * block_size == 0) by (nonlinear_arith);
    }
    while len - start >= block_size
        invariant
            block_size > 0,
            len == values.len(),
            start <= len,
            start == means.len() * block_size,
            forall|b: int|
                0 <= b < means.len() ==> means[b] == range_mean(
                    values@,
                    b * block_size,
                    block_size as nat,
                ),
        decreases len - start,
    {
        let ghost blocks = means.len() as int;
        means.push(mean_of_range(values, start, block_size));
        proof {
            assert((blocks + 1) * block_size == blocks * block_size + block_size)
                by (nonlinear_arith);
        }
        start = start + block_size;
    }
    proof {
        lemma_fundamental_div_mod_converse(
            len as int,
            block_size as int,
            means.len() as int,
            (len - start) as int,
        );
        assert(means@ =~= block_means_of(values@, block_size as nat));
    }
    means
}

/// The mean of a stream of observations: their sum divided by their
/// number, or the failure that summing them ends in.
pub open spec fn stream_mean_of<R: Real>(values: Seq<Value<R>>) -> Result<Value<R>, Error> {
    match summed(values) {
        Ok(sum) => Ok(divided(sum, R::count(values.len() as usize))),
        Err(e) => Err(e),
    }
}

/// The mean of a stream of observations. A stream of two or more vectors
/// or matrices has no sum, and so no mean.
pub fn stream_mean<R: Real>(values: &Vec<OperatorValue<R>>) -> (out: Result<OperatorValue<R>, Error>)
    ensures
        match out {
            Ok(mean) => stream_mean_of(views_of(values@)) == Ok::<Value<R>, Error>(mean@),
            Err(e) => stream_mean_of(views_of(values@)) == Err::<Value<R>, Error>(e),
        },
{
    match OperatorValue::sum(values) {
        Ok(sum) => Ok(sum.divided_by(R::from_count(values.len()))),
        Err(e) => Err(e),
    }
}

} // verus!
