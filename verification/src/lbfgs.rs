//! The online limited-memory quasi-Newton optimizer.
//!
//! The optimizer keeps a bounded window of curvature pairs: `s`, a change of
//! the parameters, and `y`, the change of the gradient that went with it. The
//! search direction comes from the two-loop recursion over that window, scaled
//! in between by the average of `s.y / y.y` over the window, or by `1e-10`
//! before the first iteration has finished. It points downhill: with nothing
//! stored it is the negated gradient, damped. Each iteration steps along the
//! direction that the window gives as it stands, and then lets one pair in.
use std::collections::VecDeque;
use vstd::prelude::*;
use crate::error::Error;
use crate::estimators::{compute_energy_gradient, gradient_data_ok, sampled_energy_gradient};
use crate::linalg::rows_of;
use crate::operator::OperatorValue;
use crate::optimize::Optimizer;
use crate::scalar::{Operation, Real, zero};
use crate::table::Table;
use crate::vector::{
    broadcast,
    broadcast_over,
    broadcast_right,
    broadcast_under,
    dot,
    duplicate,
    filled,
    inner,
    negate,
    negated,
    zip_with,
    zipped,
};

verus! {

/// The state of the optimizer as mathematics.
pub struct LbfgsState<R> {
    pub step_size: R,
    pub history: usize,
    pub grad_prev: Seq<R>,
    pub pars_prev: Seq<R>,
    pub s: Seq<Seq<R>>,
    pub y: Seq<Seq<R>>,
    pub iter: usize,
}

/// The window after `item` has entered it: a window that already holds
/// `history` items or more first loses its oldest.
pub open spec fn windowed<T>(window: Seq<T>, history: usize, item: T) -> Seq<T> {
    if window.len() >= history && window.len() > 0 {
        window.drop_first().push(item)
    } else {
        window.push(item)
    }
}

/// Whether every vector of both windows has `n` entries, and the windows hold
/// equally many.
pub open spec fn window_fits<R>(s: Seq<Seq<R>>, y: Seq<Seq<R>>, n: int) -> bool {
    &&& s.len() == y.len()
    &&& forall|i: int| 0 <= i < s.len() ==> (#[trigger] s[i]).len() == n
    &&& forall|i: int| 0 <= i < y.len() ==> (#[trigger] y[i]).len() == n
}

/// The first loop of the recursion after `done` pairs, newest first: the
/// direction so far, and the coefficients `alpha` in the order in which they
/// were found. It starts from `-g`; each pair takes `alpha * y` from the
/// direction, with `alpha = s.p / s.y`.
pub open spec fn first_pass<R: Real>(s: Seq<Seq<R>>, y: Seq<Seq<R>>, g: Seq<R>, done: nat) -> (
    Seq<R>,
    Seq<R>,
)
    decreases done,
{
    if done == 0 {
        (negated(g), Seq::<R>::empty())
    } else {
        let before = first_pass(s, y, g, (done - 1) as nat);
        let i = s.len() - done;
        let alpha = inner(s[i], before.0).quotient(inner(s[i], y[i]));
        (
            zipped(Operation::Sub, before.0, broadcast_over(Operation::Mul, alpha, y[i])),
            before.1.push(alpha),
        )
    }
}

/// The sum over the first `upto` pairs of `s.y / y.y`, accumulated from zero.
pub open spec fn curvature_total<R: Real>(s: Seq<Seq<R>>, y: Seq<Seq<R>>, upto: nat) -> R
    decreases upto,
{
    if upto == 0 {
        zero::<R>()
    } else {
        curvature_total(s, y, (upto - 1) as nat).sum(
            inner(s[upto - 1], y[upto - 1]).quotient(inner(y[upto - 1], y[upto - 1])),
        )
    }
}

/// The smaller of the iteration count and the window's bound.
pub open spec fn window_count(iter: usize, history: usize) -> usize {
    if iter <= history {
        iter
    } else {
        history
    }
}

/// The factor on the direction between the two loops.
pub open spec fn direction_scale<R: Real>(
    s: Seq<Seq<R>>,
    y: Seq<Seq<R>>,
    iter: usize,
    history: usize,
) -> R {
    if iter == 0 {
        R::ratio(1, 10_000_000_000)
    } else {
        curvature_total(s, y, s.len()).quotient(R::count(window_count(iter, history)))
    }
}

/// The second loop of the recursion after `done` pairs, oldest first,
/// starting from `start`: each pair adds `(alpha - y.p / y.s) * s` to the
/// direction, with the coefficient that the first loop found for that pair.
pub open spec fn second_pass<R: Real>(
    s: Seq<Seq<R>>,
    y: Seq<Seq<R>>,
    alphas: Seq<R>,
    start: Seq<R>,
    done: nat,
) -> Seq<R>
    decreases done,
{
    if done == 0 {
        start
    } else {
        let before = second_pass(s, y, alphas, start, (done - 1) as nat);
        let i = done - 1;
        let alpha = alphas[alphas.len() - done];
        let coefficient = alpha.difference(inner(y[i], before).quotient(inner(y[i], s[i])));
        zipped(Operation::Add, before, broadcast_over(Operation::Mul, coefficient, s[i]))
    }
}

/// The search direction for the gradient `g`.
pub open spec fn direction<R: Real>(
    s: Seq<Seq<R>>,
    y: Seq<Seq<R>>,
    g: Seq<R>,
    iter: usize,
    history: usize,
) -> Seq<R> {
    let first = first_pass(s, y, g, s.len());
    second_pass(
        s,
        y,
        first.1,
        broadcast_under(Operation::Mul, first.0, direction_scale(s, y, iter, history)),
        s.len(),
    )
}

/// With no curvature pair stored, the direction is the negated gradient times
/// the scale, and before the first iteration that scale is `1e-10`: a damped
/// gradient-descent direction.
pub proof fn lemma_empty_history_is_damped_descent<R: Real>(
    g: Seq<R>,
    iter: usize,
    history: usize,
)
    ensures
        direction(Seq::<Seq<R>>::empty(), Seq::<Seq<R>>::empty(), g, iter, history)
            == broadcast_under(
            Operation::Mul,
            negated(g),
            direction_scale(Seq::<Seq<R>>::empty(), Seq::<Seq<R>>::empty(), iter, history),
        ),
        direction_scale(Seq::<Seq<R>>::empty(), Seq::<Seq<R>>::empty(), 0, history) == R::ratio(
            1,
            10_000_000_000,
        ),
        forall|k: int|
            0 <= k < g.len() ==> (#[trigger] direction(
                Seq::<Seq<R>>::empty(),
                Seq::<Seq<R>>::empty(),
                g,
                0,
                history,
            )[k]) == g[k].negation().product(R::ratio(1, 10_000_000_000)),
{
}

impl<R: Real> LbfgsState<R> {
    /// Whether a gradient and parameters of `n` entries can be taken in.
    pub open spec fn fits(self, n: int) -> bool {
        &&& self.grad_prev.len() == n
        &&& self.pars_prev.len() == n
        &&& window_fits(self.s, self.y, n)
    }

    /// The state after the pair for `pars` and `grad` has entered the
    /// windows.
    pub open spec fn with_pair(self, pars: Seq<R>, grad: Seq<R>) -> Self {
        LbfgsState {
            s: windowed(self.s, self.history, zipped(Operation::Sub, pars, self.pars_prev)),
            y: windowed(self.y, self.history, zipped(Operation::Sub, grad, self.grad_prev)),
            ..self
        }
    }

    /// The parameter change of one iteration with the energy gradient `g`:
    /// `step_size` times the search direction that the windows give as they
    /// stand before the iteration. The search direction points downhill: for
    /// empty windows it is `-g` times the scale.
    pub open spec fn update(self, g: Seq<R>) -> Seq<R> {
        broadcast_over(
            Operation::Mul,
            self.step_size,
            direction(self.s, self.y, g, self.iter, self.history),
        )
    }

    /// The state after one iteration at `pars` with the energy gradient `g`:
    /// the pair for `pars` and `g` has entered the windows, once; `g` and
    /// `pars` are remembered, and the iteration count has gone up by one,
    /// unless it was at its largest value.
    pub open spec fn advanced(self, pars: Seq<R>, g: Seq<R>) -> Self {
        let entered = self.with_pair(pars, g);
        LbfgsState {
            grad_prev: g,
            pars_prev: pars,
            iter: if self.iter < usize::MAX {
                (self.iter + 1) as usize
            } else {
                self.iter
            },
            ..entered
        }
    }
}

/// The first iteration of an optimizer with nothing stored is a damped
/// gradient-descent step: `step_size` times `-g` times `1e-10`, entry by
/// entry.
pub proof fn lemma_first_step_is_damped_descent<R: Real>(state: LbfgsState<R>, g: Seq<R>)
    requires
        state.s.len() == 0,
        state.y.len() == 0,
        state.iter == 0,
    ensures
        state.update(g) == broadcast_over(
            Operation::Mul,
            state.step_size,
            broadcast_under(Operation::Mul, negated(g), R::ratio(1, 10_000_000_000)),
        ),
        state.update(g).len() == g.len(),
        forall|k: int|
            0 <= k < g.len() ==> (#[trigger] state.update(g)[k]) == state.step_size.product(
                g[k].negation().product(R::ratio(1, 10_000_000_000)),
            ),
{
    assert(state.s =~= Seq::<Seq<R>>::empty());
    assert(state.y =~= Seq::<Seq<R>>::empty());
    lemma_empty_history_is_damped_descent(g, 0, state.history);
}

/// The window never grows past its bound, or past one item where the bound
/// is zero.
pub proof fn lemma_window_bounded<T>(window: Seq<T>, history: usize, item: T)
    requires
        window.len() <= history || window.len() <= 1,
    ensures
        windowed(window, history, item).len() <= history || windowed(window, history, item).len()
            <= 1,
        windowed(window, history, item).last() == item,
{
}

/// The online limited-memory quasi-Newton optimizer.
#[derive(Clone)]
pub struct OnlineLbfgs<R: Real> {
    pub step_size: R,
    pub history: usize,
    pub grad_prev: Vec<R>,
    pub pars_prev: Vec<R>,
    pub s: VecDeque<Vec<R>>,
    pub y: VecDeque<Vec<R>>,
    pub iter: usize,
}

impl<R: Real> View for OnlineLbfgs<R> {
    type V = LbfgsState<R>;

    open spec fn view(&self) -> LbfgsState<R> {
        LbfgsState {
            step_size: self.step_size,
            history: self.history,
            grad_prev: self.grad_prev@,
            pars_prev: self.pars_prev@,
            s: rows_of(self.s@),
            y: rows_of(self.y@),
            iter: self.iter,
        }
    }
}

/// Lets `item` into `window`, dropping the oldest item of a full window.
fn enter<R: Real>(window: &mut VecDeque<Vec<R>>, history: usize, item: Vec<R>)
    ensures
        rows_of(final(window)@) == windowed(rows_of(old(window)@), history, item@),
{
    if window.len() >= history {
        let _ = window.pop_front();
    }
    window.push_back(item);
    proof {
        assert(rows_of(window@) =~= windowed(rows_of(old(window)@), history, item@));
    }
}

/// Whether every vector of `window` has `n` entries.
fn all_of_length<R: Real>(window: &VecDeque<Vec<R>>, n: usize) -> (out: bool)
    ensures
        out == (forall|i: int| 0 <= i < window@.len() ==> (#[trigger] rows_of(window@)[i]).len() == n),
{
    let mut i: usize = 0;
    while i < window.len()
        invariant
            i <= window.len(),
            forall|j: int| 0 <= j < i ==> (#[trigger] rows_of(window@)[j]).len() == n,
        decreases window.len() - i,
    {
        if window[i].len() != n {
            assert(rows_of(window@)[i as int].len() != n);
            return false;
        }
        i += 1;
    }
    true
}

impl<R: Real> OnlineLbfgs<R> {
    /// An optimizer for `nparm` parameters with a window of `history` pairs.
    /// The remembered gradient and parameters start at `1e-5` each.
    pub fn new(step_size: R, history: usize, nparm: usize) -> (out: Self)
        ensures
            out@.step_size == step_size,
            out@.history == history,
            out@.grad_prev == Seq::new(nparm as nat, |i: int| R::ratio(1, 100_000)),
            out@.pars_prev == Seq::new(nparm as nat, |i: int| R::ratio(1, 100_000)),
            out@.s == Seq::<Seq<R>>::empty(),
            out@.y == Seq::<Seq<R>>::empty(),
            out@.iter == 0,
            out@.fits(nparm as int),
    {
        let out = Self {
            step_size,
            history,
            grad_prev: filled(nparm, R::from_ratio(1, 100_000)),
            pars_prev: filled(nparm, R::from_ratio(1, 100_000)),
            s: VecDeque::new(),
            y: VecDeque::new(),
            iter: 0,
        };
        proof {
            assert(out@.s =~= Seq::<Seq<R>>::empty());
            assert(out@.y =~= Seq::<Seq<R>>::empty());
        }
        out
    }

    /// Whether a gradient and parameters of `n` entries can be taken in.
    pub fn fits(&self, n: usize) -> (out: bool)
        ensures
            out == self@.fits(n as int),
    {
        self.grad_prev.len() == n && self.pars_prev.len() == n && self.s.len() == self.y.len()
            && all_of_length(&self.s, n) && all_of_length(&self.y, n)
    }

    /// The search direction for `gradient`; a
    /// [`Error::LinearAlgebraError`] if a stored vector has not the
    /// gradient's length.
    pub fn initial_direction(&self, gradient: &Vec<R>) -> (out: Result<Vec<R>, Error>)
        ensures
            out is Ok == window_fits(self@.s, self@.y, gradient.len() as int),
            out is Err ==> out == Err::<Vec<R>, Error>(Error::LinearAlgebraError),
            out is Ok ==> out->Ok_0@ == direction(
                self@.s,
                self@.y,
                gradient@,
                self.iter,
                self.history,
            ),
    {
        let n = gradient.len();
        if !(self.s.len() == self.y.len() && all_of_length(&self.s, n) && all_of_length(
            &self.y,
            n,
        )) {
            return Err(Error::LinearAlgebraError);
        }
        Ok(self.two_loop_recursion(gradient))
    }

    /// The search direction for `gradient`, where every stored vector has
    /// the gradient's length.
    pub fn two_loop_recursion(&self, gradient: &Vec<R>) -> (out: Vec<R>)
        requires
            window_fits(self@.s, self@.y, gradient.len() as int),
        ensures
            out@ == direction(self@.s, self@.y, gradient@, self.iter, self.history),
    {
        let n = gradient.len();
        let ghost s = rows_of(self.s@);
        let ghost y = rows_of(self.y@);
        let pairs = self.s.len();
        let mut p = negate(gradient);
        let mut alphas: Vec<R> = Vec::new();
        let mut done: usize = 0;
        while done < pairs
            invariant
                done <= pairs,
                pairs == self.s@.len(),
                s == rows_of(self.s@),
                y == rows_of(self.y@),
                window_fits(s, y, n as int),
                n == gradient.len(),
                p.len() == n,
                alphas.len() == done,
                (p@, alphas@) == first_pass(s, y, gradient@, done as nat),
            decreases pairs - done,
        {
            let i = pairs - 1 - done;
            assert(s[i as int].len() == n && y[i as int].len() == n);
            let alpha = dot(&self.s[i], &p).div(dot(&self.s[i], &self.y[i]));
            let removed = broadcast(Operation::Mul, alpha, &self.y[i]);
            p = zip_with(Operation::Sub, &p, &removed);
            alphas.push(alpha);
            done += 1;
        }
        let scale = if self.iter == 0 {
            R::from_ratio(1, 10_000_000_000)
        } else {
            let mut acc = R::from_ratio(0, 1);
            let mut i: usize = 0;
            while i < pairs
                invariant
                    i <= pairs,
                    pairs == self.s@.len(),
                    s == rows_of(self.s@),
                    y == rows_of(self.y@),
                    window_fits(s, y, n as int),
                    acc == curvature_total(s, y, i as nat),
                decreases pairs - i,
            {
                assert(s[i as int].len() == n && y[i as int].len() == n);
                acc = acc.add(
                    dot(&self.s[i], &self.y[i]).div(dot(&self.y[i], &self.y[i])),
                );
                i += 1;
            }
            let count = if self.iter <= self.history {
                self.iter
            } else {
                self.history
            };
            acc.div(R::from_count(count))
        };
        let ghost start = broadcast_under(Operation::Mul, p@, scale);
        let mut q = broadcast_right(Operation::Mul, &p, scale);
        let mut i: usize = 0;
        while i < pairs
            invariant
                i <= pairs,
                pairs == self.s@.len(),
                s == rows_of(self.s@),
                y == rows_of(self.y@),
                window_fits(s, y, n as int),
                alphas.len() == pairs,
                q.len() == n,
                q@ == second_pass(s, y, alphas@, start, i as nat),
            decreases pairs - i,
        {
            assert(s[i as int].len() == n && y[i as int].len() == n);
            let alpha = alphas[pairs - 1 - i];
            let coefficient = alpha.sub(dot(&self.y[i], &q).div(dot(&self.y[i], &self.s[i])));
            let added = broadcast(Operation::Mul, coefficient, &self.s[i]);
            q = zip_with(Operation::Add, &q, &added);
            i += 1;
        }
        q
    }

    /// Lets the pair for `pars` and `grad` into the windows; a
    /// [`Error::LinearAlgebraError`], and no change, if either has not the
    /// length of what was remembered.
    pub fn update_curvature_pairs(&mut self, pars: &Vec<R>, grad: &Vec<R>) -> (out: Result<
        (),
        Error,
    >)
        ensures
            out is Ok == (pars.len() == old(self).pars_prev.len() && grad.len() == old(
                self,
            ).grad_prev.len()),
            out is Ok ==> final(self)@ == old(self)@.with_pair(pars@, grad@),
            out is Err ==> out == Err::<(), Error>(Error::LinearAlgebraError) && *final(self)
                == *old(self),
    {
        if pars.len() != self.pars_prev.len() || grad.len() != self.grad_prev.len() {
            return Err(Error::LinearAlgebraError);
        }
        let s = zip_with(Operation::Sub, pars, &self.pars_prev);
        let y = zip_with(Operation::Sub, grad, &self.grad_prev);
        enter(&mut self.s, self.history, s);
        enter(&mut self.y, self.history, y);
        Ok(())
    }

    /// One iteration at `pars` with the energy gradient `gradient`; a
    /// [`Error::LinearAlgebraError`], and no change, unless `pars`,
    /// `gradient` and everything stored have one length.
    pub fn step(&mut self, pars: &Vec<R>, gradient: &Vec<R>) -> (out: Result<Vec<R>, Error>)
        ensures
            out is Ok == (pars.len() == gradient.len() && old(self)@.fits(gradient.len() as int)),
            out is Ok ==> out->Ok_0@ == old(self)@.update(gradient@) && final(self)@ == old(
                self,
            )@.advanced(pars@, gradient@),
            out is Err ==> out == Err::<Vec<R>, Error>(Error::LinearAlgebraError) && *final(self)
                == *old(self),
    {
        if pars.len() != gradient.len() || !self.fits(gradient.len()) {
            return Err(Error::LinearAlgebraError);
        }
        let p = self.two_loop_recursion(gradient);
        let out = broadcast(Operation::Mul, self.step_size, &p);
        let entered = self.update_curvature_pairs(pars, gradient);
        assert(entered is Ok);
        self.grad_prev = duplicate(gradient);
        self.pars_prev = duplicate(pars);
        if self.iter < usize::MAX {
            self.iter = self.iter + 1;
        }
        Ok(out)
    }
}

impl<R: Real> Optimizer<R> for OnlineLbfgs<R> {
    fn compute_parameter_update(
        &mut self,
        pars: &Vec<R>,
        averages: &Table<OperatorValue<R>>,
        raw_data: &Table<Vec<OperatorValue<R>>>,
    ) -> (out: Result<Vec<R>, Error>)
        ensures
            !gradient_data_ok(raw_data, averages) ==> out == Err::<Vec<R>, Error>(
                Error::DataAccessError,
            ) && *final(self) == *old(self),
            gradient_data_ok(raw_data, averages) ==> {
                let g = sampled_energy_gradient(raw_data, averages);
                &&& out is Ok == (pars.len() == g.len() && old(self)@.fits(g.len() as int))
                &&& out is Ok ==> out->Ok_0@ == old(self)@.update(g) && final(self)@ == old(
                    self,
                )@.advanced(pars@, g)
                &&& out is Err ==> out == Err::<Vec<R>, Error>(Error::LinearAlgebraError)
                    && *final(self) == *old(self)
            },
    {
        match compute_energy_gradient(raw_data, averages) {
            Ok(gradient) => self.step(pars, &gradient),
            Err(e) => Err(e),
        }
    }
}

} // verus!
