//! Select the next operator to be used.
//!
//! A selector owns a pool of operators and, once per round, picks the index
//! of the operator to apply next. Three policies are provided: sequential
//! (restart from the first operator on any improvement, otherwise escalate),
//! uniformly random, and adaptive (weights learned from feedback).
//!
//! Every selector has a ghost model and its transitions are pinned to
//! mathematical functions of that model, so that runs over them are
//! reproducible functions of their configuration.
use vstd::prelude::*;

use crate::ProposalEvaluation;
use crate::rng::{Rng, RngModel, rng_peek, rng_step};

verus! {

/// Give the next operator based on certain rules.
///
/// `select` picks an index into the pool (and may consume randomness or
/// mutate selection state); `feedback` reports how the round using the last
/// selected operator went.
pub trait OperatorSelector: Sized {
    /// The type of the operators in the pool.
    type Op;

    /// The mathematical state of this selector.
    type Model;

    /// The current state.
    spec fn model(&self) -> Self::Model;

    /// The pool of operators this selector chooses from.
    spec fn pool(&self) -> Seq<Self::Op>;

    /// The mathematical transition of `select`: next state and chosen index.
    spec fn select_spec(m: Self::Model, objective: int) -> (Self::Model, int);

    /// The mathematical transition of `feedback`.
    spec fn feedback_spec(m: Self::Model, status: ProposalEvaluation) -> Self::Model;

    /// Select the next operator given the incumbent's objective value.
    fn select(&mut self, objective: i64) -> (idx: usize)
        requires
            old(self).pool().len() > 0,
        ensures
            final(self).pool() == old(self).pool(),
            idx < old(self).pool().len(),
            (final(self).model(), idx as int) == Self::select_spec(
                old(self).model(),
                objective as int,
            ),
    ;

    /// Give feedback on the last selected operator.
    fn feedback(&mut self, status: ProposalEvaluation)
        ensures
            final(self).pool() == old(self).pool(),
            final(self).model() == Self::feedback_spec(old(self).model(), status),
    ;

    /// The operator at the given index of the pool.
    fn operator_at(&self, index: usize) -> (op: &Self::Op)
        requires
            index < self.pool().len(),
        ensures
            *op == self.pool()[index as int],
    ;
}

/// The state of a [`SequentialSelector`]: pool size, cursor, and the best
/// objective seen so far (`None` until the first call).
pub struct SequentialModel {
    pub len: nat,
    pub cursor: nat,
    pub best: Option<int>,
}

/// Whether `objective` improves on the best objective seen so far.
pub open spec fn improves(best: Option<int>, objective: int) -> bool {
    match best {
        Option::None => true,
        Option::Some(b) => objective < b,
    }
}

/// The cursor after escalating to the next operator, wrapping around.
pub open spec fn cursor_advance(len: nat, cursor: nat) -> nat {
    if cursor + 1 >= len {
        0
    } else {
        cursor + 1
    }
}

/// The transition of a sequential selector: on improvement remember the new
/// best and restart from the first operator, otherwise escalate by one.
pub open spec fn sequential_select(m: SequentialModel, objective: int) -> (SequentialModel, int) {
    if improves(m.best, objective) {
        (SequentialModel { len: m.len, cursor: 0nat, best: Some(objective) }, 0int)
    } else {
        let c = cursor_advance(m.len, m.cursor);
        (SequentialModel { len: m.len, cursor: c, best: m.best }, c as int)
    }
}

/// Select operators in a consecutive manner.
///
/// Iterate through all operators, consecutively, starting from the first
/// one. When an improvement is made, the iteration is restarted from the
/// beginning.
pub struct SequentialSelector<O> {
    operators: Vec<O>,
    operator_index: usize,
    objective_best: Option<i64>,
}

impl<O> SequentialSelector<O> {
    /// The pool of operators added so far.
    pub closed spec fn pool_view(&self) -> Seq<O> {
        self.operators@
    }

    /// The current state.
    pub closed spec fn smodel(&self) -> SequentialModel {
        SequentialModel {
            len: self.operators@.len(),
            cursor: self.operator_index as nat,
            best: match self.objective_best {
                Option::None => None,
                Option::Some(b) => Some(b as int),
            },
        }
    }

    pub fn new() -> (r: Self)
        ensures
            r.smodel() == (SequentialModel { len: 0nat, cursor: 0nat, best: None::<int> }),
            r.pool() == Seq::<O>::empty(),
    {
        Self { operators: Vec::new(), objective_best: None, operator_index: 0 }
    }

    /// Add an operator to the pool.
    pub fn option(self, option: O) -> (r: Self)
        ensures
            r.pool() == self.pool().push(option),
            r.smodel() == (SequentialModel {
                len: self.smodel().len + 1,
                cursor: self.smodel().cursor,
                best: self.smodel().best,
            }),
    {
        let mut this = self;
        this.operators.push(option);
        this
    }
}

impl<O> OperatorSelector for SequentialSelector<O> {
    type Op = O;

    type Model = SequentialModel;

    open spec fn model(&self) -> SequentialModel {
        self.smodel()
    }

    open spec fn pool(&self) -> Seq<O> {
        self.pool_view()
    }

    open spec fn select_spec(m: SequentialModel, objective: int) -> (SequentialModel, int) {
        sequential_select(m, objective)
    }

    open spec fn feedback_spec(m: SequentialModel, status: ProposalEvaluation) -> SequentialModel {
        m
    }

    fn select(&mut self, objective: i64) -> (idx: usize) {
        let improved = match self.objective_best {
            None => true,
            Some(b) => objective < b,
        };
        if improved {
            self.objective_best = Some(objective);
            self.operator_index = 0;
        } else {
            let c = self.operator_index;
            let len = self.operators.len();
            self.operator_index = if c >= len - 1 {
                0
            } else {
                c + 1
            };
        }
        self.operator_index
    }

    fn feedback(&mut self, status: ProposalEvaluation) {
    }

    fn operator_at(&self, index: usize) -> (op: &O) {
        &self.operators[index]
    }
}

/// The selector state after feeding a whole sequence of objective values,
/// one `select` call each.
pub open spec fn sequential_run(m: SequentialModel, objectives: Seq<int>) -> SequentialModel
    decreases objectives.len(),
{
    if objectives.len() == 0 {
        m
    } else {
        sequential_run(sequential_select(m, objectives[0]).0, objectives.drop_first())
    }
}

/// Whether the sequence is strictly decreasing.
pub open spec fn strictly_decreasing(objectives: Seq<int>) -> bool {
    forall|i: int, j: int| 0 <= i < j < objectives.len() ==> objectives[i] > objectives[j]
}

/// Restart on improvement: feeding a strictly decreasing objective sequence
/// whose first value improves on the best seen keeps the cursor at zero on
/// every call, and the best seen follows the sequence.
pub proof fn lemma_sequential_restart_on_improve(m: SequentialModel, objectives: Seq<int>)
    requires
        strictly_decreasing(objectives),
        objectives.len() > 0 ==> improves(m.best, objectives[0]),
    ensures
        sequential_run(m, objectives).cursor == if objectives.len() == 0 {
            m.cursor
        } else {
            0nat
        },
        sequential_run(m, objectives).best == if objectives.len() == 0 {
            m.best
        } else {
            Some(objectives.last())
        },
    decreases objectives.len(),
{
    if objectives.len() > 0 {
        let m2 = sequential_select(m, objectives[0]).0;
        let rest = objectives.drop_first();
        assert(strictly_decreasing(rest)) by {
            assert forall|i: int, j: int| 0 <= i < j < rest.len() implies rest[i] > rest[j] by {
                assert(rest[i] == objectives[i + 1]);
                assert(rest[j] == objectives[j + 1]);
            }
        }
        if rest.len() > 0 {
            assert(rest[0] == objectives[1]);
        }
        lemma_sequential_restart_on_improve(m2, rest);
        if rest.len() > 0 {
            assert(rest.last() == objectives.last());
        }
    }
}

/// Escalation: feeding `k` copies of an objective that does not improve on
/// the best seen advances the cursor by one, modulo the pool size, on every
/// call.
pub proof fn lemma_sequential_constant_advances(m: SequentialModel, v: int, k: nat)
    requires
        !improves(m.best, v),
        m.len > 0,
        m.cursor < m.len,
    ensures
        sequential_run(m, Seq::new(k, |i: int| v)).cursor == ((m.cursor + k) as int) % (m.len as int),
        sequential_run(m, Seq::new(k, |i: int| v)).best == m.best,
        sequential_run(m, Seq::new(k, |i: int| v)).len == m.len,
    decreases k,
{
    let objectives = Seq::new(k, |i: int| v);
    if k == 0 {
        vstd::arithmetic::div_mod::lemma_small_mod(m.cursor, m.len);
    } else {
        let m2 = sequential_select(m, v).0;
        assert(m2.cursor == cursor_advance(m.len, m.cursor));
        assert(m2.cursor == ((m.cursor + 1) as int) % (m.len as int)) by {
            if m.cursor + 1 >= m.len {
                assert(m.cursor + 1 == m.len);
                vstd::arithmetic::div_mod::lemma_mod_self_0(m.len as int);
            } else {
                vstd::arithmetic::div_mod::lemma_small_mod((m.cursor + 1) as nat, m.len);
            }
        }
        assert(m2.cursor < m.len);
        lemma_sequential_constant_advances(m2, v, (k - 1) as nat);
        assert(objectives.drop_first() =~= Seq::new((k - 1) as nat, |i: int| v));
        let len = m.len as int;
        assert(((((m.cursor + 1) as int) % len) + (k - 1)) % len == ((m.cursor + k) as int) % len) by {
            vstd::arithmetic::div_mod::lemma_add_mod_noop_right(
                ((m.cursor + 1) as int) % len,
                (k - 1) as int,
                len,
            );
            vstd::arithmetic::div_mod::lemma_add_mod_noop((m.cursor + 1) as int, (k - 1) as int, len);
            vstd::arithmetic::div_mod::lemma_mod_twice((m.cursor + 1) as int, len);
        }
    }
}

/// The sum of all weights in the pool.
pub open spec fn total_weight(ws: Seq<u64>) -> int
    decreases ws.len(),
{
    if ws.len() == 0 {
        0int
    } else {
        ws[0] + total_weight(ws.drop_first())
    }
}

/// The operator picked by a draw `t` in `[0, total_weight)`: the first index
/// whose running weight sum exceeds `t`. Ties are broken by scan order, and
/// the last operator catches any remainder.
pub open spec fn pick_index(ws: Seq<u64>, t: int) -> int
    decreases ws.len(),
{
    if ws.len() <= 1 {
        0int
    } else if t < ws[0] {
        0int
    } else {
        1 + pick_index(ws.drop_first(), t - ws[0])
    }
}

proof fn lemma_total_weight_bounds(ws: Seq<u64>)
    ensures
        0 <= total_weight(ws) <= ws.len() * (u64::MAX as int),
    decreases ws.len(),
{
    if ws.len() > 0 {
        lemma_total_weight_bounds(ws.drop_first());
        assert(ws.len() * (u64::MAX as int) == (ws.len() - 1) * (u64::MAX as int) + u64::MAX)
            by (nonlinear_arith);
    }
}

proof fn lemma_pick_index_in_range(ws: Seq<u64>, t: int)
    requires
        ws.len() > 0,
    ensures
        0 <= pick_index(ws, t) < ws.len(),
    decreases ws.len(),
{
    if ws.len() > 1 && t >= ws[0] {
        lemma_pick_index_in_range(ws.drop_first(), t - ws[0]);
    }
}

/// The sum of the weights, computed exactly.
fn total_of(ws: &Vec<u64>) -> (t: u128)
    ensures
        t as int == total_weight(ws@),
{
    proof {
        lemma_total_weight_bounds(ws@);
    }
    let mut acc: u128 = 0;
    let mut i: usize = ws.len();
    while i > 0
        invariant
            i <= ws@.len(),
            ws@.len() <= usize::MAX,
            acc as int == total_weight(ws@.skip(i as int)),
        decreases i,
    {
        i = i - 1;
        proof {
            assert(ws@.skip(i as int).drop_first() =~= ws@.skip(i as int + 1));
            lemma_total_weight_bounds(ws@.skip(i as int));
            lemma_total_weight_bounds(ws@.skip(i as int + 1));
            assert(ws@.skip(i as int).len() * (u64::MAX as int) <= ws@.len() * (
            u64::MAX as int)) by (nonlinear_arith)
                requires
                    0 <= ws@.skip(i as int).len() <= ws@.len(),
            ;
            assert(ws@.len() * (u64::MAX as int) < 0x100000000000000000000000000000000int)
                by (nonlinear_arith)
                requires
                    0 <= ws@.len() < 0x10000000000000000,
            ;
        }
        acc = acc + (ws[i] as u128);
    }
    proof {
        assert(ws@.skip(0) =~= ws@);
    }
    acc
}

/// The index picked by draw `t`, by a forward scan of the running sum.
fn pick_of(ws: &Vec<u64>, t: u128) -> (idx: usize)
    requires
        ws@.len() > 0,
    ensures
        idx < ws@.len(),
        idx as int == pick_index(ws@, t as int),
{
    let mut i: usize = 0;
    let mut rem: u128 = t;
    let n = ws.len();
    proof {
        assert(ws@.len() == n);
        assert(ws@.skip(0) =~= ws@);
    }
    loop
        invariant
            ws@.len() > 0,
            ws@.len() <= usize::MAX,
            i < ws@.len(),
            rem <= t,
            pick_index(ws@, t as int) == i + pick_index(ws@.skip(i as int), rem as int),
        decreases ws@.len() - i,
    {
        let w = ws[i] as u128;
        if i + 1 >= ws.len() || rem < w {
            proof {
                assert(pick_index(ws@.skip(i as int), rem as int) == 0);
            }
            return i;
        }
        proof {
            assert(ws@.skip(i as int).drop_first() =~= ws@.skip(i as int + 1));
            assert(ws@.skip(i as int)[0] == ws@[i as int]);
        }
        rem = rem - w;
        i = i + 1;
    }
}

/// The state of an [`AdaptiveSelector`]: the weights (one per operator, in
/// milli-units), the decay and reward configuration, the index of the last
/// selection, and the randomness source.
pub struct AdaptiveModel {
    pub weights: Seq<u64>,
    pub decay: u64,
    pub last: Option<int>,
    pub weight_improve_best: u64,
    pub weight_accept: u64,
    pub weight_reject: u64,
    pub rng: RngModel,
}

/// The reward (in whole units) for a round with the given outcome.
pub open spec fn reward_of(m: AdaptiveModel, status: ProposalEvaluation) -> u64 {
    match status {
        ProposalEvaluation::ImprovedBest => m.weight_improve_best,
        ProposalEvaluation::Accept => m.weight_accept,
        ProposalEvaluation::Reject => m.weight_reject,
    }
}

/// The exponential update of one weight (in milli-units): the old weight
/// keeps a share of `1 - decay` and the reward contributes a share of
/// `decay`, with `decay` given in thousandths.
pub open spec fn new_weight(w: u64, decay: u64, reward: u64) -> u64 {
    ((((1000 - decay as int) * w + decay * (reward * 1000)) / 1000) as u64)
}

/// The transition of adaptive selection: one draw in `[0, total weight)`
/// picks the operator whose running weight interval contains it; the index
/// is remembered for the next feedback. With no weight anywhere, the first
/// operator is picked.
pub open spec fn adaptive_select(m: AdaptiveModel, objective: int) -> (AdaptiveModel, int) {
    let total = total_weight(m.weights);
    let idx = if total == 0 {
        0int
    } else {
        pick_index(m.weights, (rng_peek(m.rng) as int) % total)
    };
    (
        AdaptiveModel {
            last: Some(idx),
            rng: rng_step(m.rng),
            weights: m.weights,
            decay: m.decay,
            weight_improve_best: m.weight_improve_best,
            weight_accept: m.weight_accept,
            weight_reject: m.weight_reject,
        },
        idx,
    )
}

/// The transition of adaptive feedback: only the weight of the last
/// selected operator is updated; without a previous selection nothing
/// changes.
pub open spec fn adaptive_feedback(m: AdaptiveModel, status: ProposalEvaluation) -> AdaptiveModel {
    match m.last {
        Option::None => m,
        Option::Some(i) => {
            if 0 <= i < m.weights.len() {
                AdaptiveModel {
                    weights: m.weights.update(
                        i,
                        new_weight(m.weights[i], m.decay, reward_of(m, status)),
                    ),
                    decay: m.decay,
                    last: m.last,
                    weight_improve_best: m.weight_improve_best,
                    weight_accept: m.weight_accept,
                    weight_reject: m.weight_reject,
                    rng: m.rng,
                }
            } else {
                m
            }
        },
    }
}

/// Feedback touches only the last-selected operator: every other weight is
/// left unchanged, and the selected one moves by the exponential update.
pub proof fn lemma_adaptive_feedback_targets_last(m: AdaptiveModel, status: ProposalEvaluation)
    ensures
        adaptive_feedback(m, status).weights.len() == m.weights.len(),
        forall|j: int|
            0 <= j < m.weights.len() && m.last != Some(j) ==> adaptive_feedback(
                m,
                status,
            ).weights[j] == m.weights[j],
        (m.last matches Some(i) && 0 <= i < m.weights.len()) ==> adaptive_feedback(
            m,
            status,
        ).weights[m.last.unwrap()] == new_weight(
            m.weights[m.last.unwrap()],
            m.decay,
            reward_of(m, status),
        ),
{
}

/// Full decay replaces the selected weight outright by the reward (in
/// milli-units), forgetting its history.
pub proof fn lemma_full_decay_replaces(w: u64, decay: u64, reward: u64)
    requires
        decay == 1000,
        reward <= u64::MAX / 1000,
    ensures
        new_weight(w, decay, reward) == reward * 1000,
{
    vstd::arithmetic::div_mod::lemma_div_multiples_vanish(reward * 1000, 1000);
}

/// Select the next operator adaptively.
///
/// Learn when which operator is performing well by receiving feedback:
/// each operator carries a weight (in milli-units, initially 1000), selection
/// draws proportionally to the weights, and feedback moves the weight of the
/// last selected operator towards the reward of the reported outcome.
pub struct AdaptiveSelector<O> {
    options: Vec<O>,
    weights: Vec<u64>,
    decay: u64,
    index_last_selection: Option<usize>,
    weight_improve_best: u64,
    weight_accept: u64,
    weight_reject: u64,
    rng: Rng,
}

impl<O> AdaptiveSelector<O> {
    #[verifier::type_invariant]
    spec fn wf(self) -> bool {
        &&& self.weights@.len() == self.options@.len()
        &&& self.decay <= 1000
        &&& self.weight_improve_best <= u64::MAX / 1000
        &&& self.weight_accept <= u64::MAX / 1000
        &&& self.weight_reject <= u64::MAX / 1000
        &&& match self.index_last_selection {
            Option::Some(i) => i < self.weights@.len(),
            Option::None => true,
        }
    }

    /// The pool of operators added so far.
    pub closed spec fn pool_view(&self) -> Seq<O> {
        self.options@
    }

    /// The current state.
    pub closed spec fn smodel(&self) -> AdaptiveModel {
        AdaptiveModel {
            weights: self.weights@,
            decay: self.decay,
            last: match self.index_last_selection {
                Option::None => None,
                Option::Some(i) => Some(i as int),
            },
            weight_improve_best: self.weight_improve_best,
            weight_accept: self.weight_accept,
            weight_reject: self.weight_reject,
            rng: self.rng.model(),
        }
    }

    /// Create an [`AdaptiveSelector`] with default rewards. They are:
    /// - Best solution improved: 3
    /// - Accepted candidate: 1
    /// - Rejected candidate: 0
    ///
    /// `decay` is given in thousandths (1000 fully replaces a weight by the
    /// reward, 0 never changes it).
    pub fn default_weights(decay: u64, rng: Rng) -> (r: Self)
        requires
            decay <= 1000,
        ensures
            r.pool() == Seq::<O>::empty(),
            r.smodel() == (AdaptiveModel {
                weights: Seq::<u64>::empty(),
                decay: decay,
                last: None::<int>,
                weight_improve_best: 3u64,
                weight_accept: 1u64,
                weight_reject: 0u64,
                rng: rng.model(),
            }),
    {
        Self {
            rng,
            decay,
            options: Vec::new(),
            weights: Vec::new(),
            index_last_selection: None,
            weight_improve_best: 3,
            weight_accept: 1,
            weight_reject: 0,
        }
    }

    /// Create an [`AdaptiveSelector`] with custom rewards (in whole units).
    ///
    /// `decay` is given in thousandths.
    pub fn custom_weights(
        decay: u64,
        weight_improve_best: u64,
        weight_accept: u64,
        weight_reject: u64,
        rng: Rng,
    ) -> (r: Self)
        requires
            decay <= 1000,
            weight_improve_best <= u64::MAX / 1000,
            weight_accept <= u64::MAX / 1000,
            weight_reject <= u64::MAX / 1000,
        ensures
            r.pool() == Seq::<O>::empty(),
            r.smodel() == (AdaptiveModel {
                weights: Seq::<u64>::empty(),
                decay: decay,
                last: None::<int>,
                weight_improve_best: weight_improve_best,
                weight_accept: weight_accept,
                weight_reject: weight_reject,
                rng: rng.model(),
            }),
    {
        Self {
            rng,
            decay,
            options: Vec::new(),
            weights: Vec::new(),
            index_last_selection: None,
            weight_improve_best,
            weight_accept,
            weight_reject,
        }
    }

    /// Add an operator to the operator pool, with an initial weight of one.
    pub fn operator(self, option: O) -> (r: Self)
        ensures
            r.pool() == self.pool().push(option),
            r.smodel() == (AdaptiveModel {
                weights: self.smodel().weights.push(1000u64),
                decay: self.smodel().decay,
                last: self.smodel().last,
                weight_improve_best: self.smodel().weight_improve_best,
                weight_accept: self.smodel().weight_accept,
                weight_reject: self.smodel().weight_reject,
                rng: self.smodel().rng,
            }),
    {
        proof {
            use_type_invariant(&self);
        }
        let Self {
            mut options,
            mut weights,
            decay,
            index_last_selection,
            weight_improve_best,
            weight_accept,
            weight_reject,
            rng,
        } = self;
        options.push(option);
        weights.push(1000);
        Self {
            options,
            weights,
            decay,
            index_last_selection,
            weight_improve_best,
            weight_accept,
            weight_reject,
            rng,
        }
    }

    /// The current weights of the operators, in milli-units.
    pub fn weights(&self) -> (r: &Vec<u64>)
        ensures
            r@ == self.smodel().weights,
    {
        &self.weights
    }
}

impl<O> OperatorSelector for AdaptiveSelector<O> {
    type Op = O;

    type Model = AdaptiveModel;

    open spec fn model(&self) -> AdaptiveModel {
        self.smodel()
    }

    open spec fn pool(&self) -> Seq<O> {
        self.pool_view()
    }

    open spec fn select_spec(m: AdaptiveModel, objective: int) -> (AdaptiveModel, int) {
        adaptive_select(m, objective)
    }

    open spec fn feedback_spec(m: AdaptiveModel, status: ProposalEvaluation) -> AdaptiveModel {
        adaptive_feedback(m, status)
    }

    fn select(&mut self, objective: i64) -> (idx: usize) {
        proof {
            use_type_invariant(&*self);
        }
        let total = total_of(&self.weights);
        let draw = self.rng.next_u64();
        let idx = if total == 0 {
            0usize
        } else {
            proof {
                lemma_pick_index_in_range(self.weights@, ((draw as u128) % total) as int);
            }
            pick_of(&self.weights, (draw as u128) % total)
        };
        self.index_last_selection = Some(idx);
        idx
    }

    fn feedback(&mut self, status: ProposalEvaluation) {
        proof {
            use_type_invariant(&*self);
        }
        match self.index_last_selection {
            None => {},
            Some(index) => {
                let w = self.weights[index];
                let reward = match status {
                    ProposalEvaluation::ImprovedBest => self.weight_improve_best,
                    ProposalEvaluation::Accept => self.weight_accept,
                    ProposalEvaluation::Reject => self.weight_reject,
                };
                let d = self.decay as u128;
                let a = 1000 - d;
                let b = (reward as u128) * 1000;
                proof {
                    assert(a * (w as u128) <= 1000 * (u64::MAX as u128)) by (nonlinear_arith)
                        requires
                            a <= 1000,
                            w <= u64::MAX,
                    ;
                    assert(d * b <= 1000 * ((u64::MAX as u128) * 1000)) by (nonlinear_arith)
                        requires
                            d <= 1000,
                            b <= (u64::MAX as u128) * 1000,
                    ;
                }
                let value = (a * (w as u128) + d * b) / 1000;
                proof {
                    let iw = w as int;
                    let ir = reward as int;
                    let id = self.decay as int;
                    let cap = if iw >= ir * 1000 {
                        iw
                    } else {
                        ir * 1000
                    };
                    assert((1000 - id) * iw + id * (ir * 1000) <= 1000 * cap) by (nonlinear_arith)
                        requires
                            0 <= id <= 1000,
                            0 <= iw <= cap,
                            0 <= ir * 1000 <= cap,
                    ;
                    assert(((1000 - id) * iw + id * (ir * 1000)) / 1000 <= cap) by {
                        vstd::arithmetic::div_mod::lemma_div_is_ordered(
                            (1000 - id) * iw + id * (ir * 1000),
                            1000 * cap,
                            1000,
                        );
                        vstd::arithmetic::div_mod::lemma_div_multiples_vanish(cap, 1000);
                    }
                    assert(ir * 1000 <= u64::MAX) by (nonlinear_arith)
                        requires
                            0 <= ir <= u64::MAX / 1000,
                    ;
                }
                let nw = value as u64;
                let slot = &mut self.weights[index];
                *slot = nw;
            },
        }
    }

    fn operator_at(&self, index: usize) -> (op: &O) {
        &self.options[index]
    }
}

/// The state of a [`RandomSelector`]: pool size and randomness source.
pub struct RandomModel {
    pub len: nat,
    pub rng: RngModel,
}

/// The transition of a random selector: one draw, reduced modulo pool size.
pub open spec fn random_select(m: RandomModel, objective: int) -> (RandomModel, int) {
    let idx = if m.len == 0 {
        0int
    } else {
        (rng_peek(m.rng) as int) % (m.len as int)
    };
    (RandomModel { len: m.len, rng: rng_step(m.rng) }, idx)
}

/// Select the next operator uniformly at random.
pub struct RandomSelector<O> {
    operators: Vec<O>,
    rng: Rng,
}

impl<O> RandomSelector<O> {
    /// The pool of operators added so far.
    pub closed spec fn pool_view(&self) -> Seq<O> {
        self.operators@
    }

    /// The current state.
    pub closed spec fn smodel(&self) -> RandomModel {
        RandomModel { len: self.operators@.len(), rng: self.rng.model() }
    }

    pub fn new(rng: Rng) -> (r: Self)
        ensures
            r.smodel() == (RandomModel { len: 0nat, rng: rng.model() }),
            r.pool() == Seq::<O>::empty(),
    {
        Self { operators: Vec::new(), rng }
    }

    /// Add an operator to the pool.
    pub fn option(self, option: O) -> (r: Self)
        ensures
            r.pool() == self.pool().push(option),
            r.smodel() == (RandomModel { len: self.smodel().len + 1, rng: self.smodel().rng }),
    {
        let mut this = self;
        this.operators.push(option);
        this
    }
}

impl<O> OperatorSelector for RandomSelector<O> {
    type Op = O;

    type Model = RandomModel;

    open spec fn model(&self) -> RandomModel {
        self.smodel()
    }

    open spec fn pool(&self) -> Seq<O> {
        self.pool_view()
    }

    open spec fn select_spec(m: RandomModel, objective: int) -> (RandomModel, int) {
        random_select(m, objective)
    }

    open spec fn feedback_spec(m: RandomModel, status: ProposalEvaluation) -> RandomModel {
        m
    }

    fn select(&mut self, objective: i64) -> (idx: usize) {
        let len = self.operators.len() as u64;
        let idx = self.rng.below(len);
        idx as usize
    }

    fn feedback(&mut self, status: ProposalEvaluation) {
    }

    fn operator_at(&self, index: usize) -> (op: &O) {
        &self.operators[index]
    }
}

} // verus!
