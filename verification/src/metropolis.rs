//! Metropolis kernels: how a single-particle move is proposed and decided.
//!
//! Two kernels are here. The box kernel displaces one particle uniformly
//! within a cube and accepts with probability `min(1, psi'^2 / psi^2)`. The
//! drift-diffusion kernel displaces along the drift velocity `grad psi / psi`
//! with Gaussian noise, accepts by the Metropolis-Hastings ratio with the
//! Green's-function weights of both directions, and never accepts a move that
//! changes the sign of the wavefunction.
//!
//! Randomness comes from a [`RandomSource`] that each kernel owns. What a
//! kernel does with given variates is a function of its own here, with an
//! exact contract; the methods that draw state what holds whatever was drawn.
use vstd::prelude::*;
use crate::error::Error;
use crate::scalar::{Real, between, one, square, zero};
use crate::vector::{Vector3, duplicate_positions};
use crate::wavefunction::{Configuration, Differentiate, Function};

verus! {

/// Whether variates can be drawn uniformly between `low` and `high`: `high`
/// exceeds `low`, and the span between them is finite.
pub open spec fn drawable<R: Real>(low: R, high: R) -> bool {
    high.exceeds(low) && high.difference(low).finite()
}

/// Whether every component of `v` lies between `low` and `high`.
pub open spec fn within<R: Real>(low: R, high: R, v: Vector3<R>) -> bool {
    between(low, high, v.x) && between(low, high, v.y) && between(low, high, v.z)
}

/// A seedable source of pseudorandom numbers.
///
/// Of a variate only its range is promised: a uniform variate is not below
/// the lower end and is below the upper end. Nothing is promised of a normal
/// variate. Seeding is a function of the seed.
pub trait RandomSource<R: Real>: Sized {
    /// The source that `seed` gives.
    spec fn seeded(seed: [u8; 32]) -> Self;

    fn from_seed(seed: [u8; 32]) -> (out: Self)
        ensures
            out == Self::seeded(seed),
    ;

    /// A source seeded from the environment.
    fn from_entropy() -> Self;

    /// A variate uniform between `low` and `high`, `high` left out.
    fn uniform(&mut self, low: R, high: R) -> (out: R)
        requires
            drawable(low, high),
        ensures
            between(low, high, out),
    ;

    /// A variate of the normal distribution with the given mean and a
    /// finite standard deviation.
    fn normal(&mut self, mean: R, std_dev: R) -> R
        requires
            std_dev.finite(),
    ;

    /// A variate uniform between zero and one, one left out.
    fn unit(&mut self) -> (out: R)
        ensures
            between(zero::<R>(), one::<R>(), out),
    ;
}

/// Whether variates can be drawn uniformly between `low` and `high`.
pub fn can_draw<R: Real>(low: R, high: R) -> (out: bool)
    ensures
        out == drawable(low, high),
{
    high.gt(low) && high.sub(low).is_finite()
}

/// `cfg` with particle `idx` at `position`, all others where they were.
pub open spec fn moved<R: Real>(cfg: Seq<Vector3<R>>, idx: int, position: Vector3<R>) -> Seq<
    Vector3<R>,
> {
    cfg.update(idx, position)
}

/// Whether `candidate` differs from `cfg` in the position of particle `idx`
/// at most.
pub open spec fn single_particle_move<R: Real>(
    cfg: Seq<Vector3<R>>,
    idx: int,
    candidate: Seq<Vector3<R>>,
) -> bool {
    &&& candidate.len() == cfg.len()
    &&& forall|j: int| 0 <= j < cfg.len() && j != idx ==> candidate[j] == cfg[j]
}

/// A Metropolis kernel for wavefunctions of type `T`.
pub trait Metropolis<R: Real, T> {
    /// The kernel's source of randomness.
    type Rng: RandomSource<R>;

    /// Proposes a move of particle `idx`: a configuration that differs from
    /// `cfg` in that particle's position at most.
    fn propose_move(&mut self, wf: &T, cfg: &Configuration<R>, idx: usize) -> (out: Result<
        Configuration<R>,
        Error,
    >)
        requires
            idx < cfg.len(),
        ensures
            out is Ok ==> single_particle_move(cfg@, idx as int, out->Ok_0@),
    ;

    /// Decides whether the move from `cfg` to `cfg_prop` is accepted.
    fn accept_move(&mut self, wf: &T, cfg: &Configuration<R>, cfg_prop: &Configuration<R>) -> (out:
        Result<bool, Error>)
        requires
            cfg_prop.len() == cfg.len(),
    ;

    /// Proposes a move of particle `idx` and decides on it: the new
    /// configuration where it was accepted, nothing where it was rejected.
    fn move_state(&mut self, wf: &T, cfg: &Configuration<R>, idx: usize) -> (out: Result<
        Option<Configuration<R>>,
        Error,
    >)
        requires
            idx < cfg.len(),
        ensures
            out matches Ok(Some(candidate)) ==> single_particle_move(
                cfg@,
                idx as int,
                candidate@,
            ),
    ;

    /// Replaces the source of randomness by the one that `s` seeds.
    fn reseed_rng(&mut self, s: [u8; 32]);

    /// The kernel's source of randomness, as it stands.
    spec fn source(&self) -> Self::Rng;

    /// Whether `other` is this kernel but for its source of randomness.
    spec fn same_kernel(&self, other: &Self) -> bool;

    /// The kernel's source of randomness, to draw from or to replace. What
    /// is done to it is done to the kernel's own; nothing else of the kernel
    /// changes.
    fn rng_mut(&mut self) -> (out: &mut Self::Rng)
        ensures
            *out == old(self).source(),
            final(self).source() == *final(out),
            old(self).same_kernel(final(self)),
    ;
}

/// `cfg` with particle `idx` displaced by `displacement`.
pub fn displaced<R: Real>(cfg: &Configuration<R>, idx: usize, displacement: Vector3<R>) -> (out:
    Configuration<R>)
    requires
        idx < cfg.len(),
    ensures
        out@ == moved(cfg@, idx as int, cfg[idx as int].plus(displacement)),
{
    let mut out = duplicate_positions(cfg);
    let position = cfg[idx].add(displacement);
    out[idx] = position;
    out
}

/// The acceptance probability of the box kernel: `min(new^2 / old^2, 1)`.
pub open spec fn box_acceptance<R: Real>(new_value: R, old_value: R) -> R {
    square(new_value).quotient(square(old_value)).minimum(one::<R>())
}

/// Whether the box kernel accepts a move from a configuration of value
/// `old_value` to one of value `new_value`, given the variate `draw`.
pub fn box_decision<R: Real>(new_value: R, old_value: R, draw: R) -> (out: bool)
    ensures
        out == box_acceptance(new_value, old_value).exceeds(draw),
{
    let acceptance = new_value.mul(new_value).div(old_value.mul(old_value)).min(
        R::from_ratio(1, 1),
    );
    acceptance.gt(draw)
}

/// What the box kernel decides on a move from `cfg` to `candidate` with the
/// variate `draw`: the wavefunction is evaluated at `candidate`, then at
/// `cfg`; the first failure is the outcome, else the move is accepted where
/// the acceptance probability exceeds the variate.
pub open spec fn box_verdict<R: Real, T: Function<R, Configuration<R>>>(
    wf: &T,
    cfg: &Configuration<R>,
    candidate: &Configuration<R>,
    draw: R,
) -> Result<bool, Error> {
    match wf.value_at(candidate) {
        Err(e) => Err(e),
        Ok(new_value) => match wf.value_at(cfg) {
            Err(e) => Err(e),
            Ok(old_value) => Ok(box_acceptance(new_value, old_value).exceeds(draw)),
        },
    }
}

/// What a move comes to for a given decision: the candidate where it was
/// accepted, nothing where it was rejected, the failure where deciding
/// failed.
pub open spec fn outcome_of<R: Real>(
    verdict: Result<bool, Error>,
    candidate: Configuration<R>,
) -> Result<Option<Configuration<R>>, Error> {
    match verdict {
        Ok(true) => Ok(Some(candidate)),
        Ok(false) => Ok(None),
        Err(e) => Err(e),
    }
}

/// The lower end of one component of the box kernel's displacement:
/// `-(1/2) box_side`.
pub open spec fn box_low<R: Real>(box_side: R) -> R {
    R::ratio(-1i64, 2).product(box_side)
}

/// The upper end of one component of the box kernel's displacement:
/// `(1/2) box_side`.
pub open spec fn box_high<R: Real>(box_side: R) -> R {
    R::ratio(1, 2).product(box_side)
}

/// Whether `candidate` is what the box kernel proposes for particle `idx`
/// at `cfg` when it draws `displacement`: every component of the
/// displacement lies within the box, and particle `idx` is displaced by it.
pub open spec fn box_proposal<R: Real>(
    cfg: Seq<Vector3<R>>,
    idx: int,
    box_side: R,
    displacement: Vector3<R>,
    candidate: Seq<Vector3<R>>,
) -> bool {
    &&& within(box_low(box_side), box_high(box_side), displacement)
    &&& candidate == moved(cfg, idx, cfg[idx].plus(displacement))
}

/// Whether `out` is what the box kernel decides on the move to `candidate`
/// when it draws `draw`: where it comes to deciding, the variate lies
/// between zero and one.
pub open spec fn box_decided<R: Real, T: Function<R, Configuration<R>>>(
    wf: &T,
    cfg: &Configuration<R>,
    candidate: &Configuration<R>,
    draw: R,
    out: Result<bool, Error>,
) -> bool {
    &&& out is Ok ==> between(zero::<R>(), one::<R>(), draw)
    &&& out == box_verdict(wf, cfg, candidate, draw)
}

/// Whether `out` is what the box kernel gives for particle `idx` at `cfg`
/// when it draws `displacement` and `draw`, with `candidate` the proposal.
pub open spec fn box_step<R: Real, T: Function<R, Configuration<R>>>(
    wf: &T,
    cfg: &Configuration<R>,
    idx: int,
    box_side: R,
    candidate: Configuration<R>,
    displacement: Vector3<R>,
    draw: R,
    out: Result<Option<Configuration<R>>, Error>,
) -> bool {
    &&& box_proposal(cfg@, idx, box_side, displacement, candidate@)
    &&& box_verdict(wf, cfg, &candidate, draw) is Ok ==> between(zero::<R>(), one::<R>(), draw)
    &&& out == outcome_of(box_verdict(wf, cfg, &candidate, draw), candidate)
}

/// The simplest Metropolis kernel: the proposal moves one particle by a
/// displacement uniform in a cube of side `box_side` centred at zero. A
/// kernel whose cube has no extent, or no finite one, cannot draw: its
/// proposals fail with [`Error::FunctionEvaluationError`].
#[derive(Clone)]
pub struct MetropolisBox<R: Real, G: RandomSource<R>> {
    pub box_side: R,
    pub rng: G,
}

impl<R: Real, G: RandomSource<R>> MetropolisBox<R, G> {
    pub fn from_rng(box_side: R, rng: G) -> (out: Self)
        ensures
            out.box_side == box_side,
            out.rng == rng,
    {
        Self { box_side, rng }
    }

    /// A kernel with a source seeded from the environment.
    pub fn new(box_side: R) -> (out: Self)
        ensures
            out.box_side == box_side,
    {
        Self { box_side, rng: G::from_entropy() }
    }

    /// `cfg` with particle `idx` displaced by three variates drawn between
    /// `-(1/2) box_side` and `(1/2) box_side`; a
    /// [`Error::FunctionEvaluationError`], and nothing drawn, where no
    /// variate can be drawn between the two.
    pub fn displace(&mut self, cfg: &Configuration<R>, idx: usize) -> (out: Result<
        Configuration<R>,
        Error,
    >)
        requires
            idx < cfg.len(),
        ensures
            final(self).box_side == old(self).box_side,
            out is Ok == drawable(box_low(old(self).box_side), box_high(old(self).box_side)),
            out is Err ==> out->Err_0 == Error::FunctionEvaluationError && *final(self) == *old(
                self,
            ),
            out is Ok ==> exists|displacement: Vector3<R>| #[trigger]
                box_proposal(cfg@, idx as int, old(self).box_side, displacement, out->Ok_0@),
    {
        let low = R::from_ratio(-1, 2).mul(self.box_side);
        let high = R::from_ratio(1, 2).mul(self.box_side);
        if !can_draw(low, high) {
            return Err(Error::FunctionEvaluationError);
        }
        let x = self.rng.uniform(low, high);
        let y = self.rng.uniform(low, high);
        let z = self.rng.uniform(low, high);
        let displacement = Vector3::new(x, y, z);
        let candidate = displaced(cfg, idx, displacement);
        let out: Result<Configuration<R>, Error> = Ok(candidate);
        proof {
            assert(box_proposal(cfg@, idx as int, old(self).box_side, displacement, out->Ok_0@));
        }
        out
    }
}

impl<R: Real, G: RandomSource<R>, T: Function<R, Configuration<R>>> Metropolis<R, T> for MetropolisBox<
    R,
    G,
> {
    type Rng = G;

    fn propose_move(&mut self, wf: &T, cfg: &Configuration<R>, idx: usize) -> (out: Result<
        Configuration<R>,
        Error,
    >)
        ensures
            final(self).box_side == old(self).box_side,
            out is Ok == drawable(box_low(old(self).box_side), box_high(old(self).box_side)),
            out is Err ==> out->Err_0 == Error::FunctionEvaluationError && *final(self) == *old(
                self,
            ),
            out is Ok ==> exists|displacement: Vector3<R>| #[trigger]
                box_proposal(cfg@, idx as int, old(self).box_side, displacement, out->Ok_0@),
    {
        self.displace(cfg, idx)
    }

    fn accept_move(&mut self, wf: &T, cfg: &Configuration<R>, cfg_prop: &Configuration<R>) -> (out:
        Result<bool, Error>)
        ensures
            final(self).box_side == old(self).box_side,
            out is Err ==> *final(self) == *old(self),
            exists|draw: R| #[trigger] box_decided(wf, cfg, cfg_prop, draw, out),
    {
        let new_value = match wf.value(cfg_prop) {
            Ok(v) => v,
            Err(e) => {
                assert(box_decided(wf, cfg, cfg_prop, zero::<R>(), Err::<bool, Error>(e)));
                return Err(e);
            },
        };
        let old_value = match wf.value(cfg) {
            Ok(v) => v,
            Err(e) => {
                assert(box_decided(wf, cfg, cfg_prop, zero::<R>(), Err::<bool, Error>(e)));
                return Err(e);
            },
        };
        let draw = self.rng.unit();
        let accepted = box_decision(new_value, old_value, draw);
        assert(box_decided(wf, cfg, cfg_prop, draw, Ok::<bool, Error>(accepted)));
        Ok(accepted)
    }

    fn move_state(&mut self, wf: &T, cfg: &Configuration<R>, idx: usize) -> (out: Result<
        Option<Configuration<R>>,
        Error,
    >)
        ensures
            final(self).box_side == old(self).box_side,
            !drawable(box_low(old(self).box_side), box_high(old(self).box_side)) ==> out == Err::<
                Option<Configuration<R>>,
                Error,
            >(Error::FunctionEvaluationError) && *final(self) == *old(self),
            drawable(box_low(old(self).box_side), box_high(old(self).box_side)) ==> exists|
                candidate: Configuration<R>,
                displacement: Vector3<R>,
                draw: R,
            | #[trigger]
                box_step(
                    wf,
                    cfg,
                    idx as int,
                    old(self).box_side,
                    candidate,
                    displacement,
                    draw,
                    out,
                ),
    {
        let cfg_proposed = match self.displace(cfg, idx) {
            Ok(c) => c,
            Err(e) => {
                return Err(e);
            },
        };
        let ghost displacement = choose|d: Vector3<R>| #[trigger]
            box_proposal(cfg@, idx as int, old(self).box_side, d, cfg_proposed@);
        let verdict = self.accept_move(wf, cfg, &cfg_proposed);
        let ghost draw = choose|draw: R| #[trigger]
            box_decided(wf, cfg, &cfg_proposed, draw, verdict);
        let ghost candidate = cfg_proposed;
        let out = match verdict {
            Ok(true) => Ok(Some(cfg_proposed)),
            Ok(false) => Ok(None),
            Err(e) => Err(e),
        };
        assert(box_step(
            wf,
            cfg,
            idx as int,
            old(self).box_side,
            candidate,
            displacement,
            draw,
            out,
        ));
        out
    }

    fn reseed_rng(&mut self, s: [u8; 32])
        ensures
            final(self).box_side == old(self).box_side,
            final(self).rng == G::seeded(s),
    {
        self.rng = G::from_seed(s);
    }

    open spec fn source(&self) -> G {
        self.rng
    }

    open spec fn same_kernel(&self, other: &Self) -> bool {
        other.box_side == self.box_side
    }

    fn rng_mut(&mut self) -> &mut G {
        &mut self.rng
    }
}

/// A move whose acceptance probability is one is accepted whatever the
/// kernel draws: no variate between zero and one rejects it.
pub proof fn lemma_certain_move_is_accepted<R: Real, T: Function<R, Configuration<R>>>(
    wf: &T,
    cfg: &Configuration<R>,
    candidate: &Configuration<R>,
    draw: R,
    out: Result<bool, Error>,
)
    requires
        box_decided(wf, cfg, candidate, draw, out),
        wf.value_at(candidate) is Ok,
        wf.value_at(cfg) is Ok,
        box_acceptance(wf.value_at(candidate)->Ok_0, wf.value_at(cfg)->Ok_0) == one::<R>(),
    ensures
        out == Ok::<bool, Error>(true),
{
}

/// A step of the box kernel whose proposal has the acceptance probability
/// one always moves: the outcome is the proposal, which differs from `cfg`
/// in particle `idx` alone, by a displacement within the box.
pub proof fn lemma_certain_step_moves<R: Real, T: Function<R, Configuration<R>>>(
    wf: &T,
    cfg: &Configuration<R>,
    idx: int,
    box_side: R,
    candidate: Configuration<R>,
    displacement: Vector3<R>,
    draw: R,
    out: Result<Option<Configuration<R>>, Error>,
)
    requires
        0 <= idx < cfg.len(),
        box_step(wf, cfg, idx, box_side, candidate, displacement, draw, out),
        wf.value_at(&candidate) is Ok,
        wf.value_at(cfg) is Ok,
        box_acceptance(wf.value_at(&candidate)->Ok_0, wf.value_at(cfg)->Ok_0) == one::<R>(),
    ensures
        out == Ok::<Option<Configuration<R>>, Error>(Some(candidate)),
        single_particle_move(cfg@, idx, candidate@),
        candidate@[idx] == cfg@[idx].plus(displacement),
        within(box_low(box_side), box_high(box_side), displacement),
{
}

/// Every row of `gradient` divided by `value`: the drift velocity.
pub open spec fn drift_velocity<R: Real>(gradient: Seq<Vector3<R>>, value: R) -> Seq<Vector3<R>> {
    Seq::new(gradient.len(), |i: int| gradient[i].shrunk(value))
}

/// The sum of the squares of all components of the first `upto` rows of
/// `(from - to) - drift * time_step`, accumulated from zero, row by row and
/// `x`, `y`, `z` within a row.
pub open spec fn residual_total<R: Real>(
    from: Seq<Vector3<R>>,
    to: Seq<Vector3<R>>,
    drift: Seq<Vector3<R>>,
    time_step: R,
    upto: nat,
) -> R
    decreases upto,
{
    if upto == 0 {
        zero::<R>()
    } else {
        let r = from[upto - 1].minus(to[upto - 1]).minus(drift[upto - 1].scaled(time_step));
        residual_total(from, to, drift, time_step, (upto - 1) as nat).sum(square(r.x)).sum(
            square(r.y),
        ).sum(square(r.z))
    }
}

/// The Green's-function weight `exp(-|(from - to) - drift * time_step|^2 / (2 time_step))`,
/// with the norm taken as a square root and squared again.
pub open spec fn green_weight<R: Real>(
    from: Seq<Vector3<R>>,
    to: Seq<Vector3<R>>,
    drift: Seq<Vector3<R>>,
    time_step: R,
) -> R {
    square(residual_total(from, to, drift, time_step, from.len()).square_root()).negation().quotient(
        R::ratio(2, 1).product(time_step),
    ).exponential()
}

/// The acceptance probability of the drift-diffusion kernel for a move from
/// `cfg` to `cfg_prop`, with value and gradient of the wavefunction at both:
/// `min(t_high * new^2 / (t_low * old^2), 1)`, where `t_high` weighs the way
/// back under the drift at `cfg_prop` and `t_low` the way there under the
/// drift at `cfg`.
pub open spec fn diffusion_acceptance<R: Real>(
    cfg: Seq<Vector3<R>>,
    cfg_prop: Seq<Vector3<R>>,
    new_value: R,
    new_gradient: Seq<Vector3<R>>,
    old_value: R,
    old_gradient: Seq<Vector3<R>>,
    time_step: R,
) -> R {
    let t_high = green_weight(cfg, cfg_prop, drift_velocity(new_gradient, new_value), time_step);
    let t_low = green_weight(cfg_prop, cfg, drift_velocity(old_gradient, old_value), time_step);
    t_high.product(square(new_value)).quotient(t_low.product(square(old_value))).minimum(
        one::<R>(),
    )
}

/// The weight [`green_weight`] for the gradient and value at the end the
/// drift is taken at.
pub fn green<R: Real>(
    from: &Configuration<R>,
    to: &Configuration<R>,
    gradient: &Configuration<R>,
    value: R,
    time_step: R,
) -> (out: R)
    requires
        to.len() == from.len(),
        gradient.len() == from.len(),
    ensures
        out == green_weight(from@, to@, drift_velocity(gradient@, value), time_step),
{
    let ghost drift = drift_velocity(gradient@, value);
    let mut acc = R::from_ratio(0, 1);
    let mut i: usize = 0;
    while i < from.len()
        invariant
            i <= from.len(),
            to.len() == from.len(),
            gradient.len() == from.len(),
            drift == drift_velocity(gradient@, value),
            acc == residual_total(from@, to@, drift, time_step, i as nat),
        decreases from.len() - i,
    {
        let r = from[i].sub(to[i]).sub(gradient[i].shrink(value).scale(time_step));
        acc = acc.add(r.x.mul(r.x)).add(r.y.mul(r.y)).add(r.z.mul(r.z));
        i += 1;
    }
    let norm = acc.sqrt();
    norm.mul(norm).neg().div(R::from_ratio(2, 1).mul(time_step)).exp()
}

/// Whether the drift-diffusion kernel accepts a move from `cfg` to
/// `cfg_prop`, given value and gradient of the wavefunction at both and the
/// variate `draw`: never where the sign of the value changes, else where the
/// acceptance probability exceeds the variate.
pub fn diffusion_decision<R: Real>(
    cfg: &Configuration<R>,
    cfg_prop: &Configuration<R>,
    new_value: R,
    new_gradient: &Configuration<R>,
    old_value: R,
    old_gradient: &Configuration<R>,
    time_step: R,
    draw: R,
) -> (out: bool)
    requires
        cfg_prop.len() == cfg.len(),
        new_gradient.len() == cfg.len(),
        old_gradient.len() == cfg.len(),
    ensures
        new_value.differs_in_sign(old_value) ==> !out,
        !new_value.differs_in_sign(old_value) ==> out == diffusion_acceptance(
            cfg@,
            cfg_prop@,
            new_value,
            new_gradient@,
            old_value,
            old_gradient@,
            time_step,
        ).exceeds(draw),
{
    if new_value.sign_differs(old_value) {
        return false;
    }
    let t_high = green(cfg, cfg_prop, new_gradient, new_value, time_step);
    let t_low = green(cfg_prop, cfg, old_gradient, old_value, time_step);
    let acceptance = t_high.mul(new_value.mul(new_value)).div(
        t_low.mul(old_value.mul(old_value)),
    ).min(R::from_ratio(1, 1));
    acceptance.gt(draw)
}

/// The drift-diffusion kernel: the proposal moves one particle by the drift
/// velocity times `time_step`, plus Gaussian noise of variance `time_step`.
#[derive(Clone)]
pub struct MetropolisDiffuse<R: Real, G: RandomSource<R>> {
    pub time_step: R,
    pub fixed_node: bool,
    pub rng: G,
}

impl<R: Real, G: RandomSource<R>> MetropolisDiffuse<R, G> {
    pub fn from_rng(time_step: R, rng: G) -> (out: Self)
        ensures
            out.time_step == time_step,
            !out.fixed_node,
            out.rng == rng,
    {
        Self { time_step, fixed_node: false, rng }
    }

    /// The same kernel, marked as keeping the nodes of the wavefunction
    /// fixed.
    pub fn fix_nodes(self) -> (out: Self)
        ensures
            out.time_step == self.time_step,
            out.fixed_node,
            out.rng == self.rng,
    {
        let mut out = self;
        out.fixed_node = true;
        out
    }

    /// A kernel with a source seeded from the environment.
    pub fn new(time_step: R) -> (out: Self)
        ensures
            out.time_step == time_step,
            !out.fixed_node,
    {
        Self { time_step, fixed_node: false, rng: G::from_entropy() }
    }

    /// Whether nothing but the source of randomness differs between two
    /// states of the kernel.
    pub open spec fn same_settings(self, other: Self) -> bool {
        self.time_step == other.time_step && self.fixed_node == other.fixed_node
    }
}

/// The evaluations that the drift-diffusion kernel makes before it decides,
/// in their order: value and gradient at the proposed configuration, then at
/// the present one. The first failure is the outcome; a gradient that has not
/// one row per particle is a [`Error::FunctionEvaluationError`].
pub open spec fn diffusion_evaluations<R: Real, T: Function<R, Configuration<R>> + Differentiate<
    R,
    Configuration<R>,
>>(wf: &T, cfg: &Configuration<R>, cfg_prop: &Configuration<R>) -> Result<
    (R, Seq<Vector3<R>>, R, Seq<Vector3<R>>),
    Error,
> {
    match wf.value_at(cfg_prop) {
        Err(e) => Err(e),
        Ok(new_value) => match wf.gradient_at(cfg_prop) {
            Err(e) => Err(e),
            Ok(new_gradient) => if new_gradient@.len() != cfg_prop@.len() {
                Err(Error::FunctionEvaluationError)
            } else {
                match wf.value_at(cfg) {
                    Err(e) => Err(e),
                    Ok(old_value) => match wf.gradient_at(cfg) {
                        Err(e) => Err(e),
                        Ok(old_gradient) => if old_gradient@.len() != cfg@.len() {
                            Err(Error::FunctionEvaluationError)
                        } else {
                            Ok((new_value, new_gradient@, old_value, old_gradient@))
                        },
                    },
                }
            },
        },
    }
}

/// The evaluations that the drift-diffusion kernel makes before it proposes
/// a move: value, then gradient at `cfg`. The first failure is the outcome; a
/// gradient that has not one row per particle is a
/// [`Error::FunctionEvaluationError`].
pub open spec fn drift_evaluations<R: Real, T: Function<R, Configuration<R>> + Differentiate<
    R,
    Configuration<R>,
>>(wf: &T, cfg: &Configuration<R>) -> Result<(R, Seq<Vector3<R>>), Error> {
    match wf.value_at(cfg) {
        Err(e) => Err(e),
        Ok(value) => match wf.gradient_at(cfg) {
            Err(e) => Err(e),
            Ok(gradient) => if gradient@.len() != cfg@.len() {
                Err(Error::FunctionEvaluationError)
            } else {
                Ok((value, gradient@))
            },
        },
    }
}

/// Where the drift-diffusion kernel puts a particle that stood at
/// `position`: `(position + drift * time_step) + noise`.
pub open spec fn diffused<R: Real>(
    position: Vector3<R>,
    drift: Vector3<R>,
    time_step: R,
    noise: Vector3<R>,
) -> Vector3<R> {
    position.plus(drift.scaled(time_step)).plus(noise)
}

/// The configuration that the drift-diffusion kernel proposes from `cfg`
/// for particle `idx`, with the value and gradient at `cfg` and the noise
/// that was drawn.
pub open spec fn diffusion_proposal<R: Real>(
    cfg: Seq<Vector3<R>>,
    idx: int,
    value: R,
    gradient: Seq<Vector3<R>>,
    time_step: R,
    noise: Vector3<R>,
) -> Seq<Vector3<R>> {
    moved(cfg, idx, diffused(cfg[idx], gradient[idx].shrunk(value), time_step, noise))
}

/// Whether the acceptance probability for the evaluations `found` (value
/// and gradient at the proposed, then at the present configuration) exceeds
/// the variate `draw`.
pub open spec fn diffusion_accepts<R: Real>(
    cfg: Seq<Vector3<R>>,
    cfg_prop: Seq<Vector3<R>>,
    found: (R, Seq<Vector3<R>>, R, Seq<Vector3<R>>),
    time_step: R,
    draw: R,
) -> bool {
    diffusion_acceptance(cfg, cfg_prop, found.0, found.1, found.2, found.3, time_step).exceeds(
        draw,
    )
}

/// The standard deviation of the drift-diffusion kernel's noise: the square
/// root of the time step, so that the variance is the time step.
pub open spec fn noise_deviation<R: Real>(time_step: R) -> R {
    time_step.square_root()
}

/// Mean and standard deviation of each component of the drift-diffusion
/// kernel's noise: zero, and the square root of the time step.
pub fn noise_parameters<R: Real>(time_step: R) -> (out: (R, R))
    ensures
        out == (zero::<R>(), noise_deviation(time_step)),
{
    (R::from_ratio(0, 1), time_step.sqrt())
}

/// What the drift-diffusion kernel has in hand when it draws its noise:
/// value and gradient at `cfg`, as [`drift_evaluations`] gives them. Where
/// the noise has no finite deviation, nothing can be drawn: that is a
/// [`Error::FunctionEvaluationError`].
pub open spec fn proposal_inputs<R: Real, T: Function<R, Configuration<R>> + Differentiate<
    R,
    Configuration<R>,
>>(wf: &T, cfg: &Configuration<R>, time_step: R) -> Result<(R, Seq<Vector3<R>>), Error> {
    match drift_evaluations(wf, cfg) {
        Err(e) => Err(e),
        Ok(found) => if noise_deviation(time_step).finite() {
            Ok(found)
        } else {
            Err(Error::FunctionEvaluationError)
        },
    }
}

/// Whether the drift-diffusion kernel draws a variate to decide on the move
/// to `candidate`: it does where every evaluation succeeds and the sign of
/// the wavefunction stays.
pub open spec fn diffusion_draws<R: Real, T: Function<R, Configuration<R>> + Differentiate<
    R,
    Configuration<R>,
>>(wf: &T, cfg: &Configuration<R>, candidate: &Configuration<R>) -> bool {
    diffusion_evaluations(wf, cfg, candidate) matches Ok(found) && !found.0.differs_in_sign(
        found.2,
    )
}

/// What the drift-diffusion kernel decides on a move from `cfg` to
/// `candidate` with the variate `draw`: a failed evaluation is the outcome;
/// a move that changes the sign of the wavefunction is rejected; any other
/// is accepted where the acceptance probability exceeds the variate.
pub open spec fn diffusion_verdict<R: Real, T: Function<R, Configuration<R>> + Differentiate<
    R,
    Configuration<R>,
>>(wf: &T, cfg: &Configuration<R>, candidate: &Configuration<R>, time_step: R, draw: R) -> Result<
    bool,
    Error,
> {
    match diffusion_evaluations(wf, cfg, candidate) {
        Err(e) => Err(e),
        Ok(found) => Ok(
            !found.0.differs_in_sign(found.2) && diffusion_accepts(
                cfg@,
                candidate@,
                found,
                time_step,
                draw,
            ),
        ),
    }
}

/// Whether `out` is what the drift-diffusion kernel decides on the move to
/// `candidate` when it draws `draw`: where it draws, the variate lies
/// between zero and one.
pub open spec fn diffusion_decided<R: Real, T: Function<R, Configuration<R>> + Differentiate<
    R,
    Configuration<R>,
>>(
    wf: &T,
    cfg: &Configuration<R>,
    candidate: &Configuration<R>,
    time_step: R,
    draw: R,
    out: Result<bool, Error>,
) -> bool {
    &&& diffusion_draws(wf, cfg, candidate) ==> between(zero::<R>(), one::<R>(), draw)
    &&& out == diffusion_verdict(wf, cfg, candidate, time_step, draw)
}

/// Whether `out` is what the drift-diffusion kernel gives for particle
/// `idx` at `cfg` when it draws `noise` and `draw`, with `candidate` the
/// proposal: a failure before the noise is drawn ends it.
pub open spec fn diffusion_step<R: Real, T: Function<R, Configuration<R>> + Differentiate<
    R,
    Configuration<R>,
>>(
    wf: &T,
    cfg: &Configuration<R>,
    idx: int,
    time_step: R,
    candidate: Configuration<R>,
    noise: Vector3<R>,
    draw: R,
    out: Result<Option<Configuration<R>>, Error>,
) -> bool {
    match proposal_inputs(wf, cfg, time_step) {
        Err(e) => out == Err::<Option<Configuration<R>>, Error>(e),
        Ok(found) => {
            &&& candidate@ == diffusion_proposal(cfg@, idx, found.0, found.1, time_step, noise)
            &&& diffusion_draws(wf, cfg, &candidate) ==> between(zero::<R>(), one::<R>(), draw)
            &&& out == outcome_of(
                diffusion_verdict(wf, cfg, &candidate, time_step, draw),
                candidate,
            )
        },
    }
}

impl<R: Real, G: RandomSource<R>, T: Function<R, Configuration<R>> + Differentiate<
    R,
    Configuration<R>,
>> Metropolis<R, T> for MetropolisDiffuse<R, G> {
    type Rng = G;

    fn propose_move(&mut self, wf: &T, cfg: &Configuration<R>, idx: usize) -> (out: Result<
        Configuration<R>,
        Error,
    >)
        ensures
            old(self).same_settings(*final(self)),
            proposal_inputs(wf, cfg, old(self).time_step) matches Err(e) ==> out == Err::<
                Configuration<R>,
                Error,
            >(e) && *final(self) == *old(self),
            proposal_inputs(wf, cfg, old(self).time_step) matches Ok(found) ==> out is Ok && exists|
                noise: Vector3<R>,
            |
                out->Ok_0@ == #[trigger] diffusion_proposal(
                    cfg@,
                    idx as int,
                    found.0,
                    found.1,
                    old(self).time_step,
                    noise,
                ),
    {
        let value = match wf.value(cfg) {
            Ok(v) => v,
            Err(e) => {
                return Err(e);
            },
        };
        let gradient = match wf.gradient(cfg) {
            Ok(g) => g,
            Err(e) => {
                return Err(e);
            },
        };
        if gradient.len() != cfg.len() {
            return Err(Error::FunctionEvaluationError);
        }
        let drift = gradient[idx].shrink(value);
        let (mean, spread) = noise_parameters(self.time_step);
        if !spread.is_finite() {
            return Err(Error::FunctionEvaluationError);
        }
        let x = self.rng.normal(mean, spread);
        let y = self.rng.normal(mean, spread);
        let z = self.rng.normal(mean, spread);
        let noise = Vector3::new(x, y, z);
        let mut out = duplicate_positions(cfg);
        let position = cfg[idx].add(drift.scale(self.time_step)).add(noise);
        out[idx] = position;
        proof {
            assert(position == diffused(
                cfg[idx as int],
                gradient[idx as int].shrunk(value),
                self.time_step,
                noise,
            ));
            assert(out@ == moved(cfg@, idx as int, position));
            assert(drift_evaluations(wf, cfg) == Ok::<(R, Seq<Vector3<R>>), Error>(
                (value, gradient@),
            ));
            assert(self.time_step == old(self).time_step);
            let found = proposal_inputs(wf, cfg, old(self).time_step)->Ok_0;
            assert(found.0 == value && found.1 == gradient@);
            assert(out@ == diffusion_proposal(
                cfg@,
                idx as int,
                found.0,
                found.1,
                old(self).time_step,
                noise,
            ));
        }
        Ok(out)
    }

    fn accept_move(&mut self, wf: &T, cfg: &Configuration<R>, cfg_prop: &Configuration<R>) -> (out:
        Result<bool, Error>)
        ensures
            old(self).same_settings(*final(self)),
            out is Err ==> *final(self) == *old(self),
            diffusion_evaluations(wf, cfg, cfg_prop) matches Ok(found)
                && found.0.differs_in_sign(found.2) ==> out == Ok::<bool, Error>(false)
                && *final(self) == *old(self),
            exists|draw: R| #[trigger]
                diffusion_decided(wf, cfg, cfg_prop, old(self).time_step, draw, out),
    {
        let ghost unused = zero::<R>();
        let ghost step = self.time_step;
        let new_value = match wf.value(cfg_prop) {
            Ok(v) => v,
            Err(e) => {
                assert(diffusion_decided(wf, cfg, cfg_prop, step, unused, Err::<bool, Error>(e)));
                return Err(e);
            },
        };
        let new_gradient = match wf.gradient(cfg_prop) {
            Ok(g) => g,
            Err(e) => {
                assert(diffusion_decided(wf, cfg, cfg_prop, step, unused, Err::<bool, Error>(e)));
                return Err(e);
            },
        };
        if new_gradient.len() != cfg_prop.len() {
            assert(diffusion_decided(wf, cfg, cfg_prop, step, unused, Err::<bool, Error>(
                Error::FunctionEvaluationError,
            )));
            return Err(Error::FunctionEvaluationError);
        }
        let old_value = match wf.value(cfg) {
            Ok(v) => v,
            Err(e) => {
                assert(diffusion_decided(wf, cfg, cfg_prop, step, unused, Err::<bool, Error>(e)));
                return Err(e);
            },
        };
        let old_gradient = match wf.gradient(cfg) {
            Ok(g) => g,
            Err(e) => {
                assert(diffusion_decided(wf, cfg, cfg_prop, step, unused, Err::<bool, Error>(e)));
                return Err(e);
            },
        };
        if old_gradient.len() != cfg.len() {
            assert(diffusion_decided(wf, cfg, cfg_prop, step, unused, Err::<bool, Error>(
                Error::FunctionEvaluationError,
            )));
            return Err(Error::FunctionEvaluationError);
        }
        proof {
            assert(diffusion_evaluations(wf, cfg, cfg_prop) == Ok::<
                (R, Seq<Vector3<R>>, R, Seq<Vector3<R>>),
                Error,
            >((new_value, new_gradient@, old_value, old_gradient@)));
        }
        if new_value.sign_differs(old_value) {
            assert(diffusion_decided(wf, cfg, cfg_prop, step, unused, Ok::<bool, Error>(false)));
            return Ok(false);
        }
        let draw = self.rng.unit();
        let accepted = diffusion_decision(
            cfg,
            cfg_prop,
            new_value,
            &new_gradient,
            old_value,
            &old_gradient,
            self.time_step,
            draw,
        );
        assert(diffusion_decided(wf, cfg, cfg_prop, step, draw, Ok::<bool, Error>(accepted)));
        Ok(accepted)
    }

    fn move_state(&mut self, wf: &T, cfg: &Configuration<R>, idx: usize) -> (out: Result<
        Option<Configuration<R>>,
        Error,
    >)
        ensures
            old(self).same_settings(*final(self)),
            exists|candidate: Configuration<R>, noise: Vector3<R>, draw: R| #[trigger]
                diffusion_step(
                    wf,
                    cfg,
                    idx as int,
                    old(self).time_step,
                    candidate,
                    noise,
                    draw,
                    out,
                ),
    {
        let ghost step = self.time_step;
        let cfg_proposed = match self.propose_move(wf, cfg, idx) {
            Ok(c) => c,
            Err(e) => {
                assert(diffusion_step(
                    wf,
                    cfg,
                    idx as int,
                    step,
                    *cfg,
                    Vector3 { x: zero::<R>(), y: zero::<R>(), z: zero::<R>() },
                    zero::<R>(),
                    Err::<Option<Configuration<R>>, Error>(e),
                ));
                return Err(e);
            },
        };
        let ghost found = proposal_inputs(wf, cfg, step)->Ok_0;
        let ghost noise = choose|noise: Vector3<R>|
            cfg_proposed@ == #[trigger] diffusion_proposal(
                cfg@,
                idx as int,
                found.0,
                found.1,
                step,
                noise,
            );
        let verdict = self.accept_move(wf, cfg, &cfg_proposed);
        let ghost draw = choose|draw: R| #[trigger]
            diffusion_decided(wf, cfg, &cfg_proposed, step, draw, verdict);
        let ghost candidate = cfg_proposed;
        let out = match verdict {
            Ok(true) => Ok(Some(cfg_proposed)),
            Ok(false) => Ok(None),
            Err(e) => Err(e),
        };
        assert(diffusion_step(wf, cfg, idx as int, step, candidate, noise, draw, out));
        out
    }

    fn reseed_rng(&mut self, s: [u8; 32])
        ensures
            old(self).same_settings(*final(self)),
            final(self).rng == G::seeded(s),
    {
        self.rng = G::from_seed(s);
    }

    open spec fn source(&self) -> G {
        self.rng
    }

    open spec fn same_kernel(&self, other: &Self) -> bool {
        self.same_settings(*other)
    }

    fn rng_mut(&mut self) -> &mut G {
        &mut self.rng
    }
}

} // verus!
