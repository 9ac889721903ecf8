//! _Simulated annealing_.
//!
//! Acceptance follows the Metropolis rule: an improving candidate is always
//! accepted; otherwise the acceptance probability is `exp(-delta /
//! temperature)` with `delta` the solution-quality gap. Probabilities are
//! handled in binary fixed point (32 fractional bits), with `exp` realized
//! as a monotone base-two approximation, so the whole acceptance decision is
//! an exact mathematical function of the draw, the gap, and the
//! temperature.
use vstd::prelude::*;

use crate::rng::{Rng, RngModel, rng_peek, rng_step};
use crate::selectors::OperatorSelector;
use crate::termination::TerminationCriteria;
use crate::{Evaluate, ImprovingHeuristic, ProposalEvaluation, StochasticOperator};

verus! {

/// Probability one in Q32 fixed point.
pub open spec fn one_q32() -> int {
    0x100000000
}

proof fn lemma_pow2_in_u32_range(k: nat)
    requires
        k <= 31,
    ensures
        1 <= vstd::arithmetic::power2::pow2(k) <= 0x80000000,
{
    vstd::arithmetic::power2::lemma_pow2_pos(k);
    if k < 31 {
        vstd::arithmetic::power2::lemma_pow2_strictly_increases(k, 31);
    }
    vstd::arithmetic::power2::lemma2_to64();
}

/// The probability, in Q32 fixed point, with which a non-improving
/// candidate is accepted: an integer approximation of
/// `exp(-delta / temperature)`.
///
/// `delta` is the worsening gap, the candidate's score minus the
/// incumbent's: positive for a strictly worse candidate, and zero for a
/// tie, where `exp(0) = 1` accepts unconditionally. A negative gap means
/// the candidate improved; that branch also yields probability one, as the
/// defensive guard of the Metropolis rule (the improvement check accepts
/// such candidates before any probability is consulted). The temperature is
/// given in milli-units. The approximation computes `x = delta/T` in Q16,
/// scales by `log2(e)` to get `y`, and returns
/// `(1 - frac(y)/2) * 2^(-floor(y))`, which is exact at `y = 0`, vanishes
/// from `y >= 32`, and decreases monotonically in between.
pub open spec fn acceptance_weight(delta: int, temperature_milli: int) -> int {
    if delta <= 0 {
        one_q32()
    } else if temperature_milli <= 0 {
        0int
    } else {
        let x = (delta * 65536000) / temperature_milli;
        let y = (x * 94548) / 65536;
        if y >= 2097152 {
            0int
        } else {
            let k = y / 65536;
            let f = y % 65536;
            let mant = 0x100000000 - f * 0x8000;
            mant / (vstd::arithmetic::power2::pow2(k as nat) as int)
        }
    }
}

/// A candidate that is no worse than the incumbent is accepted with
/// probability one: a tie has `exp(0) = 1`, and a negative gap (an
/// improving candidate) takes the defensive guard branch of the Metropolis
/// rule, unreachable in the search loop because the improvement check comes
/// first.
pub proof fn lemma_acceptance_weight_guard(delta: int, temperature_milli: int)
    requires
        delta <= 0,
    ensures
        acceptance_weight(delta, temperature_milli) == one_q32(),
{
}

/// As the temperature grows without bound relative to the gap, the
/// acceptance probability reaches one.
pub proof fn lemma_acceptance_weight_hot(delta: int, temperature_milli: int)
    requires
        delta > 0,
        temperature_milli > delta * 65536000,
    ensures
        acceptance_weight(delta, temperature_milli) == one_q32(),
{
    vstd::arithmetic::div_mod::lemma_basic_div(delta * 65536000, temperature_milli);
    assert((delta * 65536000) / temperature_milli == 0);
    vstd::arithmetic::power2::lemma2_to64();
    vstd::arithmetic::div_mod::lemma_div_basics(0x100000000int);
}

/// As the temperature approaches zero with a positive gap, the acceptance
/// probability reaches zero: it is zero whenever the temperature (in
/// milli-units) does not exceed the gap (in whole units).
pub proof fn lemma_acceptance_weight_cold(delta: int, temperature_milli: int)
    requires
        0 < temperature_milli <= delta,
    ensures
        acceptance_weight(delta, temperature_milli) == 0,
{
    let x = (delta * 65536000) / temperature_milli;
    assert(x >= 65536000) by {
        assert(delta * 65536000 >= temperature_milli * 65536000) by (nonlinear_arith)
            requires
                0 < temperature_milli <= delta,
        ;
        vstd::arithmetic::div_mod::lemma_div_is_ordered(
            temperature_milli * 65536000,
            delta * 65536000,
            temperature_milli,
        );
        vstd::arithmetic::div_mod::lemma_div_multiples_vanish(65536000, temperature_milli);
    }
    let y = (x * 94548) / 65536;
    assert(y >= 2097152) by {
        assert(x * 94548 >= 65536000 * 94548) by (nonlinear_arith)
            requires
                x >= 65536000,
        ;
        vstd::arithmetic::div_mod::lemma_div_is_ordered(65536000int * 94548, x * 94548, 65536);
    }
}

/// The acceptance probability is a probability: it never exceeds one.
pub proof fn lemma_acceptance_weight_bounds(delta: int, temperature_milli: int)
    ensures
        0 <= acceptance_weight(delta, temperature_milli) <= one_q32(),
{
    if delta > 0 && temperature_milli > 0 {
        let x = (delta * 65536000) / temperature_milli;
        let y = (x * 94548) / 65536;
        if y < 2097152 {
            let k = y / 65536;
            let f = y % 65536;
            let mant = 0x100000000 - f * 0x8000;
            let p = vstd::arithmetic::power2::pow2(k as nat) as int;
            assert(0 <= x) by {
                vstd::arithmetic::div_mod::lemma_div_pos_is_pos(delta * 65536000, temperature_milli);
                assert(delta * 65536000 >= 0) by (nonlinear_arith)
                    requires
                        delta > 0,
                ;
            }
            assert(0 <= y) by {
                vstd::arithmetic::div_mod::lemma_div_pos_is_pos(x * 94548, 65536);
                assert(x * 94548 >= 0) by (nonlinear_arith)
                    requires
                        x >= 0,
                ;
            }
            assert(0 <= f < 65536);
            assert(0 <= k <= 31);
            lemma_pow2_in_u32_range(k as nat);
            assert(0x80000000 < mant <= 0x100000000);
            vstd::arithmetic::div_mod::lemma_div_pos_is_pos(mant, p);
            assert(mant / p <= mant) by {
                vstd::arithmetic::div_mod::lemma_div_nonincreasing(mant, p);
            }
        }
    }
}

/// The acceptance probability never grows with the gap: a candidate that is
/// worse by more is accepted with at most the probability of one that is
/// worse by less, at any fixed temperature.
pub proof fn lemma_acceptance_weight_antitone(d1: int, d2: int, temperature_milli: int)
    requires
        d1 <= d2,
    ensures
        acceptance_weight(d1, temperature_milli) >= acceptance_weight(d2, temperature_milli),
{
    lemma_acceptance_weight_bounds(d1, temperature_milli);
    lemma_acceptance_weight_bounds(d2, temperature_milli);
    let t = temperature_milli;
    if d1 <= 0 {
        lemma_acceptance_weight_guard(d1, t);
    } else if t <= 0 {
    } else {
        let x1 = (d1 * 65536000) / t;
        let x2 = (d2 * 65536000) / t;
        let y1 = (x1 * 94548) / 65536;
        let y2 = (x2 * 94548) / 65536;
        assert(x1 <= x2) by {
            assert(d1 * 65536000 <= d2 * 65536000) by (nonlinear_arith)
                requires
                    d1 <= d2,
            ;
            vstd::arithmetic::div_mod::lemma_div_is_ordered(d1 * 65536000, d2 * 65536000, t);
        }
        assert(y1 <= y2) by {
            assert(x1 * 94548 <= x2 * 94548) by (nonlinear_arith)
                requires
                    x1 <= x2,
            ;
            vstd::arithmetic::div_mod::lemma_div_is_ordered(x1 * 94548, x2 * 94548, 65536);
        }
        assert(0 <= x1) by {
            vstd::arithmetic::div_mod::lemma_div_pos_is_pos(d1 * 65536000, t);
            assert(d1 * 65536000 >= 0) by (nonlinear_arith)
                requires
                    d1 > 0,
            ;
        }
        assert(0 <= y1) by {
            vstd::arithmetic::div_mod::lemma_div_pos_is_pos(x1 * 94548, 65536);
            assert(x1 * 94548 >= 0) by (nonlinear_arith)
                requires
                    x1 >= 0,
            ;
        }
        if y2 < 2097152 {
            let k1 = y1 / 65536;
            let f1 = y1 % 65536;
            let k2 = y2 / 65536;
            let f2 = y2 % 65536;
            let mant1 = 0x100000000 - f1 * 0x8000;
            let mant2 = 0x100000000 - f2 * 0x8000;
            let p1 = vstd::arithmetic::power2::pow2(k1 as nat) as int;
            let p2 = vstd::arithmetic::power2::pow2(k2 as nat) as int;
            assert(0 <= k1 <= k2 <= 31) by {
                vstd::arithmetic::div_mod::lemma_div_is_ordered(y1, y2, 65536);
                vstd::arithmetic::div_mod::lemma_div_pos_is_pos(y1, 65536);
            }
            lemma_pow2_in_u32_range(k1 as nat);
            lemma_pow2_in_u32_range(k2 as nat);
            if k1 == k2 {
                assert(f1 <= f2) by {
                    vstd::arithmetic::div_mod::lemma_fundamental_div_mod(y1, 65536);
                    vstd::arithmetic::div_mod::lemma_fundamental_div_mod(y2, 65536);
                }
                vstd::arithmetic::div_mod::lemma_div_is_ordered(mant2, mant1, p1);
            } else {
                // The smaller exponent wins: the numerator of the smaller
                // gap stays above 2^31, so its quotient stays above
                // 2^(31-k1), which bounds the other side's 2^(32-k2).
                vstd::arithmetic::power2::lemma_pow2_subtracts(k1 as nat, 31);
                vstd::arithmetic::power2::lemma_pow2_subtracts(k2 as nat, 32);
                vstd::arithmetic::power2::lemma2_to64();
                let lo = vstd::arithmetic::power2::pow2((31 - k1) as nat) as int;
                let hi = vstd::arithmetic::power2::pow2((32 - k2) as nat) as int;
                assert(mant1 / p1 >= 0x80000000int / p1) by {
                    vstd::arithmetic::div_mod::lemma_div_is_ordered(0x80000000int, mant1, p1);
                }
                assert(0x80000000int / p1 == lo) by {
                    assert(0x80000000int == vstd::arithmetic::power2::pow2(31) as int);
                }
                assert(mant2 / p2 <= 0x100000000int / p2) by {
                    vstd::arithmetic::div_mod::lemma_div_is_ordered(mant2, 0x100000000int, p2);
                }
                assert(0x100000000int / p2 == hi) by {
                    assert(0x100000000int == vstd::arithmetic::power2::pow2(32) as int);
                }
                assert(hi <= lo) by {
                    if 32 - k2 < 31 - k1 {
                        vstd::arithmetic::power2::lemma_pow2_strictly_increases(
                            (32 - k2) as nat,
                            (31 - k1) as nat,
                        );
                    }
                }
            }
        }
    }
}

/// The acceptance probability, computed exactly as specified by
/// [`acceptance_weight`]: probability one is `1 << 32`.
pub fn metropolis_weight(delta: i128, temperature_milli: u64) -> (r: u64)
    requires
        delta <= u64::MAX as i128,
    ensures
        r as int == acceptance_weight(delta as int, temperature_milli as int),
{
    if delta <= 0 {
        0x100000000u64
    } else if temperature_milli == 0 {
        0u64
    } else {
        let x = ((delta as u128) * 65536000) / (temperature_milli as u128);
        proof {
            assert((delta as u128) * 65536000 == delta * 65536000) by (nonlinear_arith)
                requires
                    0 < delta <= u64::MAX as i128,
            ;
            assert(x * 94548 <= ((delta as u128) * 65536000) * 94548) by (nonlinear_arith)
                requires
                    x <= (delta as u128) * 65536000,
            ;
            assert(((delta as u128) * 65536000) * 94548 < 0x100000000000000000000000000000000int)
                by (nonlinear_arith)
                requires
                    (delta as u128) <= u64::MAX,
            ;
        }
        let y = (x * 94548) / 65536;
        if y >= 2097152 {
            0u64
        } else {
            let k = (y / 65536) as u64;
            let f = (y % 65536) as u64;
            let mant = 0x100000000u64 - f * 0x8000;
            let mut p: u64 = 1;
            let mut j: u64 = 0;
            proof {
                vstd::arithmetic::power2::lemma2_to64();
            }
            while j < k
                invariant
                    j <= k,
                    k < 32,
                    p == vstd::arithmetic::power2::pow2(j as nat),
                decreases k - j,
            {
                proof {
                    lemma_pow2_in_u32_range(j as nat);
                    vstd::arithmetic::power2::lemma_pow2_unfold((j + 1) as nat);
                }
                p = p * 2;
                j = j + 1;
            }
            proof {
                lemma_pow2_in_u32_range(k as nat);
            }
            mant / p
        }
    }
}

/// Cool the system according to a schedule.
///
/// The temperature is reported in milli-units; `cool` advances the schedule
/// by one step, pinned to the `cooled` transition.
pub trait CoolingSchedule: Sized {
    /// The current temperature, in milli-units.
    spec fn temperature_spec(&self) -> int;

    /// The schedule after one cooling step.
    spec fn cooled(&self) -> Self;

    /// Return the current temperature in milli-units.
    fn temperature(&self) -> (r: u64)
        ensures
            r as int == self.temperature_spec(),
    ;

    /// Advance the schedule by one step.
    fn cool(&mut self)
        ensures
            *final(self) == old(self).cooled(),
    ;
}

/// Cool, every iteration, using a constant factor: the temperature retains
/// `1000 - decay` thousandths per step.
pub struct FactorSchedule {
    temperature_milli: u64,
    cooling_factor: u64,
}

impl FactorSchedule {
    #[verifier::type_invariant]
    spec fn wf(self) -> bool {
        self.cooling_factor <= 1000
    }

    /// The decay per step, in thousandths.
    pub closed spec fn spec_factor(&self) -> int {
        self.cooling_factor as int
    }

    /// `temperature` is given in whole units, `decay` in thousandths (50
    /// cools by five percent each step).
    pub fn new(temperature: u64, decay: u64) -> (r: Self)
        requires
            temperature <= u64::MAX / 1000,
            decay <= 1000,
        ensures
            r.temperature_spec() == temperature * 1000,
            r.spec_factor() == decay,
    {
        Self { temperature_milli: temperature * 1000, cooling_factor: decay }
    }
}

impl CoolingSchedule for FactorSchedule {
    closed spec fn temperature_spec(&self) -> int {
        self.temperature_milli as int
    }

    closed spec fn cooled(&self) -> Self {
        FactorSchedule {
            temperature_milli: ((self.temperature_milli * (1000 - self.cooling_factor as int))
                / 1000) as u64,
            cooling_factor: self.cooling_factor,
        }
    }

    fn temperature(&self) -> (r: u64) {
        self.temperature_milli
    }

    fn cool(&mut self) {
        proof {
            use_type_invariant(&*self);
        }
        let t = self.temperature_milli as u128;
        let keep = (1000 - self.cooling_factor) as u128;
        proof {
            assert(t * keep <= t * 1000) by (nonlinear_arith)
                requires
                    keep <= 1000,
                    0 <= t,
            ;
            assert((t * keep) / 1000 <= u64::MAX) by {
                vstd::arithmetic::div_mod::lemma_div_is_ordered(t * keep, t * 1000, 1000);
                vstd::arithmetic::div_mod::lemma_div_multiples_vanish(t as int, 1000);
            }
        }
        self.temperature_milli = ((t * keep) / 1000) as u64;
    }
}

/// One cooling step of a factor schedule scales the temperature to
/// `temperature * (1000 - decay) / 1000` (milli-units, integer division)
/// and keeps the decay.
pub proof fn lemma_factor_schedule_cools(s: FactorSchedule)
    requires
        s.spec_factor() <= 1000,
    ensures
        s.cooled().temperature_spec() == (s.temperature_spec() * (1000 - s.spec_factor())) / 1000,
        s.cooled().spec_factor() == s.spec_factor(),
{
    let t = s.temperature_spec();
    let keep = 1000 - s.spec_factor();
    assert(0 <= t * keep <= t * 1000) by (nonlinear_arith)
        requires
            0 <= keep <= 1000,
            t >= 0,
    ;
    assert((t * keep) / 1000 <= t) by {
        vstd::arithmetic::div_mod::lemma_div_is_ordered(t * keep, t * 1000, 1000);
        vstd::arithmetic::div_mod::lemma_div_multiples_vanish(t, 1000);
    }
    assert((t * keep) / 1000 >= 0) by {
        vstd::arithmetic::div_mod::lemma_div_pos_is_pos(t * keep, 1000);
    }
}

/// The schedule after `k` cooling steps.
pub open spec fn schedule_after(s: FactorSchedule, k: nat) -> FactorSchedule
    decreases k,
{
    if k == 0 {
        s
    } else {
        schedule_after(s, (k - 1) as nat).cooled()
    }
}

/// The temperature after `k` multiplicative decay steps from `t0`, with
/// the decay in thousandths.
pub open spec fn factor_temperature_after(t0: int, decay: int, k: nat) -> int
    decreases k,
{
    if k == 0 {
        t0
    } else {
        (factor_temperature_after(t0, decay, (k - 1) as nat) * (1000 - decay)) / 1000
    }
}

/// After `k` cooling steps a factor schedule's temperature follows the
/// geometric law [`factor_temperature_after`] and its decay is unchanged.
pub proof fn lemma_factor_schedule_after(s: FactorSchedule, k: nat)
    requires
        s.spec_factor() <= 1000,
    ensures
        schedule_after(s, k).temperature_spec() == factor_temperature_after(
            s.temperature_spec(),
            s.spec_factor(),
            k,
        ),
        schedule_after(s, k).spec_factor() == s.spec_factor(),
    decreases k,
{
    if k > 0 {
        lemma_factor_schedule_after(s, (k - 1) as nat);
        lemma_factor_schedule_cools(schedule_after(s, (k - 1) as nat));
    }
}

/// The state of a simulated annealing run: the operator pool, the selector
/// and terminator states, the randomness source for shakes and acceptance
/// draws, and the cooling schedule.
pub struct SaModel<Op, SelM, TermM, C> {
    pub pool: Seq<Op>,
    pub selector: SelM,
    pub terminator: TermM,
    pub rng: RngModel,
    pub schedule: C,
}

/// Simulated Annealing implementation.
///
/// Feedback about each round is forwarded to the selector, so that an
/// adaptive selector learns which operator performs well.
pub struct SimulatedAnnealing<Sel, T, C> {
    selector: Sel,
    terminator: T,
    rng: Rng,
    cooling_schedule: C,
}

/// Builder design pattern for [`SimulatedAnnealing`].
pub struct SABuilder<Sel, T, C> {
    selector: Option<Sel>,
    terminator: Option<T>,
    rng: Option<Rng>,
    cooling_schedule: Option<C>,
}

impl<Sel, T, C> SABuilder<Sel, T, C> {
    /// The selector set so far.
    pub closed spec fn spec_selector(&self) -> Option<Sel> {
        self.selector
    }

    /// The terminator set so far.
    pub closed spec fn spec_terminator(&self) -> Option<T> {
        self.terminator
    }

    /// The randomness source set so far.
    pub closed spec fn spec_rng(&self) -> Option<Rng> {
        self.rng
    }

    /// The cooling schedule set so far.
    pub closed spec fn spec_schedule(&self) -> Option<C> {
        self.cooling_schedule
    }

    /// Set the operator selector.
    pub fn selector(self, selector: Sel) -> (r: Self)
        ensures
            r.spec_selector() == Some(selector),
            r.spec_terminator() == self.spec_terminator(),
            r.spec_rng() == self.spec_rng(),
            r.spec_schedule() == self.spec_schedule(),
    {
        Self { selector: Some(selector), ..self }
    }

    /// Set the termination criteria.
    pub fn terminator(self, terminator: T) -> (r: Self)
        ensures
            r.spec_selector() == self.spec_selector(),
            r.spec_terminator() == Some(terminator),
            r.spec_rng() == self.spec_rng(),
            r.spec_schedule() == self.spec_schedule(),
    {
        Self { terminator: Some(terminator), ..self }
    }

    /// Set the source of randomness for shakes and acceptance draws.
    pub fn rng(self, rng: Rng) -> (r: Self)
        ensures
            r.spec_selector() == self.spec_selector(),
            r.spec_terminator() == self.spec_terminator(),
            r.spec_rng() == Some(rng),
            r.spec_schedule() == self.spec_schedule(),
    {
        Self { rng: Some(rng), ..self }
    }

    /// Set the cooling schedule.
    pub fn cooling_schedule(self, cooling_schedule: C) -> (r: Self)
        ensures
            r.spec_selector() == self.spec_selector(),
            r.spec_terminator() == self.spec_terminator(),
            r.spec_rng() == self.spec_rng(),
            r.spec_schedule() == Some(cooling_schedule),
    {
        Self { cooling_schedule: Some(cooling_schedule), ..self }
    }

    /// Build the configured simulated annealing heuristic. Leaving any
    /// component unset is a configuration error, rejected at construction
    /// time.
    pub fn build(self) -> (r: SimulatedAnnealing<Sel, T, C>)
        requires
            self.spec_selector() is Some,
            self.spec_terminator() is Some,
            self.spec_rng() is Some,
            self.spec_schedule() is Some,
        ensures
            r.spec_selector() == self.spec_selector().unwrap(),
            r.spec_terminator() == self.spec_terminator().unwrap(),
            r.spec_rng() == self.spec_rng().unwrap(),
            r.spec_schedule() == self.spec_schedule().unwrap(),
    {
        match (self.selector, self.terminator, self.rng, self.cooling_schedule) {
            (Some(selector), Some(terminator), Some(rng), Some(cooling_schedule)) => {
                SimulatedAnnealing { selector, terminator, rng, cooling_schedule }
            },
            _ => vstd::pervasive::unreached(),
        }
    }
}

impl<Sel, T, C> SimulatedAnnealing<Sel, T, C> {
    /// The operator selector.
    pub closed spec fn spec_selector(&self) -> Sel {
        self.selector
    }

    /// The termination criteria.
    pub closed spec fn spec_terminator(&self) -> T {
        self.terminator
    }

    /// The randomness source.
    pub closed spec fn spec_rng(&self) -> Rng {
        self.rng
    }

    /// The cooling schedule.
    pub closed spec fn spec_schedule(&self) -> C {
        self.cooling_schedule
    }

    /// Return a builder to simplify the specification.
    pub fn builder() -> (r: SABuilder<Sel, T, C>)
        ensures
            r.spec_selector() is None,
            r.spec_terminator() is None,
            r.spec_rng() is None,
            r.spec_schedule() is None,
    {
        SABuilder { selector: None, terminator: None, rng: None, cooling_schedule: None }
    }
}

impl<S, Sel, T, C> ImprovingHeuristic<S> for SimulatedAnnealing<Sel, T, C> where
    S: Evaluate,
    Sel: OperatorSelector,
    Sel::Op: StochasticOperator<S>,
    T: TerminationCriteria<S>,
    C: CoolingSchedule,
 {
    type Model = SaModel<Sel::Op, Sel::Model, T::Model, C>;

    open spec fn model(&self) -> Self::Model {
        SaModel {
            pool: self.spec_selector().pool(),
            selector: self.spec_selector().model(),
            terminator: self.spec_terminator().model(),
            rng: self.spec_rng().model(),
            schedule: self.spec_schedule(),
        }
    }

    open spec fn deterministic(&self) -> bool {
        self.spec_terminator().deterministic()
    }

    open spec fn ready(&self) -> bool {
        self.spec_selector().pool().len() > 0
    }

    /// Select an operator and draw a random neighbor.
    open spec fn propose_spec(m: Self::Model, incumbent: S) -> (Self::Model, S) {
        let (sel2, idx) = Sel::select_spec(m.selector, incumbent.score());
        let (candidate, rng2) = m.pool[idx].shake_spec(incumbent, m.rng);
        (
            SaModel {
                pool: m.pool,
                selector: sel2,
                terminator: m.terminator,
                rng: rng2,
                schedule: m.schedule,
            },
            candidate,
        )
    }

    /// Accept an improving candidate unconditionally; otherwise accept iff
    /// the fresh uniform draw, reduced to Q32, does not exceed
    /// [`acceptance_weight`] of the worsening gap (candidate minus
    /// incumbent, nonnegative here) and the pre-cooling temperature. The
    /// draw is consumed and the schedule cooled either way.
    open spec fn accept_spec(m: Self::Model, candidate: S, incumbent: S) -> (Self::Model, bool) {
        let draw_q32 = (rng_peek(m.rng) as int) / 0x100000000;
        let improving = candidate.score() < incumbent.score();
        let delta = candidate.score() - incumbent.score();
        let accepted = improving || draw_q32 <= acceptance_weight(
            delta,
            m.schedule.temperature_spec(),
        );
        (
            SaModel {
                pool: m.pool,
                selector: m.selector,
                terminator: m.terminator,
                rng: rng_step(m.rng),
                schedule: m.schedule.cooled(),
            },
            accepted,
        )
    }

    open spec fn terminate_spec(m: Self::Model, incumbent: S) -> (Self::Model, bool) {
        (
            SaModel {
                pool: m.pool,
                selector: m.selector,
                terminator: T::step_spec(m.terminator, incumbent),
                rng: m.rng,
                schedule: m.schedule,
            },
            T::verdict_spec(m.terminator, incumbent),
        )
    }

    open spec fn improved_spec(m: Self::Model) -> Self::Model {
        SaModel {
            pool: m.pool,
            selector: Sel::feedback_spec(m.selector, ProposalEvaluation::ImprovedBest),
            terminator: m.terminator,
            rng: m.rng,
            schedule: m.schedule,
        }
    }

    open spec fn accepted_spec(m: Self::Model) -> Self::Model {
        SaModel {
            pool: m.pool,
            selector: Sel::feedback_spec(m.selector, ProposalEvaluation::Accept),
            terminator: m.terminator,
            rng: m.rng,
            schedule: m.schedule,
        }
    }

    open spec fn rejected_spec(m: Self::Model) -> Self::Model {
        SaModel {
            pool: m.pool,
            selector: Sel::feedback_spec(m.selector, ProposalEvaluation::Reject),
            terminator: m.terminator,
            rng: m.rng,
            schedule: m.schedule,
        }
    }

    /// Select an operator and draw a random neighbor.
    fn propose_candidate(&mut self, incumbent: S) -> (r: S) {
        let objective = incumbent.evaluate();
        let idx = self.selector.select(objective);
        let operator = self.selector.operator_at(idx);
        operator.shake(incumbent, &mut self.rng)
    }

    /// Accept iff the candidate is better than the incumbent, or otherwise
    /// with a probability equal to the acceptance probability
    /// `exp(-delta / temperature)` of the worsening gap, decided by one
    /// fresh uniform draw against the pre-cooling temperature; then cool by
    /// one step.
    fn accept_candidate(&mut self, candidate: &S, incumbent: &S) -> (r: bool) {
        let draw = self.rng.next_u64();
        let draw_q32 = draw / 0x100000000;
        let objective_candidate = candidate.evaluate();
        let objective_incumbent = incumbent.evaluate();
        let improving = objective_candidate < objective_incumbent;
        let delta = (objective_candidate as i128) - (objective_incumbent as i128);
        let temperature = self.cooling_schedule.temperature();
        let weight = metropolis_weight(delta, temperature);
        let accepted = improving || draw_q32 <= weight;
        self.cooling_schedule.cool();
        accepted
    }

    /// Test whether the termination criteria are fulfilled.
    fn should_terminate(&mut self, incumbent: &S) -> (r: bool) {
        self.terminator.terminate(incumbent)
    }

    fn callback_candidate_improved_best(&mut self, candidate: &S, incumbent: &S) {
        self.selector.feedback(ProposalEvaluation::ImprovedBest);
    }

    fn callback_candidate_accepted(&mut self, candidate: &S, incumbent: &S) {
        self.selector.feedback(ProposalEvaluation::Accept);
    }

    fn callback_candidate_rejected(&mut self, candidate: &S, incumbent: &S) {
        self.selector.feedback(ProposalEvaluation::Reject);
    }
}

/// The acceptance boundary of simulated annealing: a candidate is accepted
/// exactly when it improves on the incumbent, or when the fresh uniform
/// draw, as a Q32 fraction, does not exceed [`acceptance_weight`] of the
/// worsening gap (candidate minus incumbent) and the current temperature.
/// With a positive gap the probability falls to zero as the temperature
/// does, so a cold system rejects worsening candidates.
pub proof fn lemma_sa_acceptance_boundary<S, Sel, T, C>(
    m: SaModel<Sel::Op, Sel::Model, T::Model, C>,
    candidate: S,
    incumbent: S,
) where
    S: Evaluate,
    Sel: OperatorSelector,
    Sel::Op: StochasticOperator<S>,
    T: TerminationCriteria<S>,
    C: CoolingSchedule,

    ensures
        <SimulatedAnnealing<Sel, T, C> as ImprovingHeuristic<S>>::accept_spec(
            m,
            candidate,
            incumbent,
        ).1 == (candidate.score() < incumbent.score() || (rng_peek(m.rng) as int) / 0x100000000
            <= acceptance_weight(
            candidate.score() - incumbent.score(),
            m.schedule.temperature_spec(),
        )),
{
}

impl<Sel, T, C> SimulatedAnnealing<Sel, T, C> {
    /// Run the search from `initial` and return the best solution observed;
    /// see [`crate::optimize`].
    pub fn optimize<S>(self, initial: S) -> (r: S) where
        S: Evaluate,
        Sel: OperatorSelector,
        Sel::Op: StochasticOperator<S>,
        T: TerminationCriteria<S>,
        C: CoolingSchedule,

        requires
            <Self as ImprovingHeuristic<S>>::ready(&self),
        ensures
            r.score() <= initial.score(),
            <Self as ImprovingHeuristic<S>>::deterministic(&self) ==> r == crate::run_result::<
                S,
                Self,
            >(<Self as ImprovingHeuristic<S>>::model(&self), initial, initial, u64::MAX as nat),
    {
        crate::optimize(self, initial)
    }

    /// Run the search and measure how long it took; see
    /// [`crate::optimize_timed`].
    pub fn optimize_timed<S>(self, solution: S) -> (r: crate::Outcome<S>) where
        S: Evaluate,
        Sel: OperatorSelector,
        Sel::Op: StochasticOperator<S>,
        T: TerminationCriteria<S>,
        C: CoolingSchedule,

        requires
            <Self as ImprovingHeuristic<S>>::ready(&self),
        ensures
            r.spec_solution().score() <= solution.score(),
            <Self as ImprovingHeuristic<S>>::deterministic(&self) ==> r.spec_solution()
                == crate::run_result::<S, Self>(
                <Self as ImprovingHeuristic<S>>::model(&self),
                solution,
                solution,
                u64::MAX as nat,
            ),
    {
        crate::optimize_timed(self, solution)
    }
}

} // verus!
