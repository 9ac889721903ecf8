//! All types required to model termination criteria.
//!
//! A criterion decides, once per round of the search loop, whether the run
//! must stop. Primitives are an iteration budget and a wall-clock deadline;
//! composites aggregate a list of primitives with ANY or ALL semantics. The
//! iteration counter is a one-way ratchet: once it has reached its budget the
//! criterion keeps reporting termination.
//!
//! Each criterion has a ghost model. Its state transition is always pinned
//! to a mathematical step on that model — counters advance the same way
//! whatever else the list holds — and for deterministic criteria (everything
//! except deadlines) the verdict is pinned too, so that runs over them are
//! reproducible functions of their configuration.
use vstd::prelude::*;

use crate::clock;

verus! {

/// Models a type representing a heuristic's termination criteria.
///
/// `terminate` is called exactly once per round and may mutate internal
/// counters. The state transition is always `step_spec` of the current
/// model; the verdict additionally equals `verdict_spec` whenever the
/// criterion is deterministic (a wall-clock verdict cannot be pinned, but
/// even then the stored state moves exactly as specified).
pub trait TerminationCriteria<S>: Sized {
    /// The mathematical state of this criterion.
    type Model;

    /// The current state.
    spec fn model(&self) -> Self::Model;

    /// Whether this criterion's verdicts are a function of its state alone.
    spec fn deterministic(&self) -> bool;

    /// The state after one call.
    spec fn step_spec(m: Self::Model, solution: S) -> Self::Model;

    /// The verdict of one call, for deterministic criteria.
    spec fn verdict_spec(m: Self::Model, solution: S) -> bool;

    /// Decide whether to stop, given the incumbent solution.
    fn terminate(&mut self, solution: &S) -> (r: bool)
        ensures
            final(self).deterministic() == old(self).deterministic(),
            final(self).model() == Self::step_spec(old(self).model(), *solution),
            old(self).deterministic() ==> r == Self::verdict_spec(old(self).model(), *solution),
    ;
}

/// The state of an iteration budget: the budget and the calls counted.
pub struct IterationModel {
    pub limit: nat,
    pub count: nat,
}

/// The ratcheting counter update: count the call, but never past the budget.
pub open spec fn iteration_step(m: IterationModel) -> IterationModel {
    if m.count < m.limit {
        IterationModel { limit: m.limit, count: m.count + 1 }
    } else {
        m
    }
}

/// Terminates once `n` calls have been made, and from then on.
pub struct IterationTerminator {
    n: usize,
    iteration: usize,
}

impl IterationTerminator {
    pub closed spec fn imodel(&self) -> IterationModel {
        IterationModel { limit: self.n as nat, count: self.iteration as nat }
    }

    pub fn new(iterations_max: usize) -> (r: Self)
        ensures
            r.imodel() == (IterationModel { limit: iterations_max as nat, count: 0nat }),
    {
        Self { n: iterations_max, iteration: 0 }
    }
}

impl<S> TerminationCriteria<S> for IterationTerminator {
    type Model = IterationModel;

    open spec fn model(&self) -> IterationModel {
        self.imodel()
    }

    open spec fn deterministic(&self) -> bool {
        true
    }

    open spec fn step_spec(m: IterationModel, solution: S) -> IterationModel {
        iteration_step(m)
    }

    open spec fn verdict_spec(m: IterationModel, solution: S) -> bool {
        let m2 = iteration_step(m);
        m2.count >= m2.limit
    }

    fn terminate(&mut self, solution: &S) -> (r: bool) {
        if self.iteration < self.n {
            self.iteration = self.iteration + 1;
        }
        self.iteration >= self.n
    }
}

/// Terminates once the wall clock reaches a deadline fixed at construction.
/// The running round is finished first; this is polled, not preemptive.
pub struct TimeTerminator {
    time_end: Option<std::time::SystemTime>,
}

impl TimeTerminator {
    /// The deadline fixed at construction, `None` if it could not be
    /// represented. The value itself comes from the clock, so nothing more
    /// than its constancy can be stated of it.
    pub closed spec fn deadline(&self) -> Option<std::time::SystemTime> {
        self.time_end
    }

    /// Stop once `computation_time_max` has passed, measured from now: the
    /// stored deadline is the clock reading at construction advanced by
    /// `computation_time_max`. If that cannot be represented, the criterion
    /// never fires.
    pub fn new(computation_time_max: core::time::Duration) -> Self {
        let start = clock::now();
        Self { time_end: clock::time_add(&start, &computation_time_max) }
    }
}

impl<S> TerminationCriteria<S> for TimeTerminator {
    type Model = Option<std::time::SystemTime>;

    open spec fn model(&self) -> Option<std::time::SystemTime> {
        self.deadline()
    }

    open spec fn deterministic(&self) -> bool {
        false
    }

    /// Polling the clock never changes the stored deadline.
    open spec fn step_spec(
        m: Option<std::time::SystemTime>,
        solution: S,
    ) -> Option<std::time::SystemTime> {
        m
    }

    /// The verdict depends on the clock; this criterion never reports
    /// itself deterministic, so no verdict is promised.
    open spec fn verdict_spec(m: Option<std::time::SystemTime>, solution: S) -> bool {
        false
    }

    fn terminate(&mut self, solution: &S) -> (r: bool) {
        match &self.time_end {
            Some(end) => clock::time_at_or_past(&clock::now(), end),
            None => false,
        }
    }
}

/// One primitive criterion, as stored inside composites and builders.
pub enum Criterion {
    Iterations(IterationTerminator),
    Time(TimeTerminator),
}

/// The state of one primitive criterion: an iteration budget's counters,
/// or a deadline (which polling never changes).
pub enum CriterionModel {
    Iterations(IterationModel),
    Time(Option<std::time::SystemTime>),
}

impl Criterion {
    /// The state of this criterion.
    pub open spec fn cmodel(&self) -> CriterionModel {
        match self {
            Criterion::Iterations(t) => CriterionModel::Iterations(t.imodel()),
            Criterion::Time(t) => CriterionModel::Time(t.deadline()),
        }
    }

    /// Whether this criterion's verdicts are a function of its state alone.
    pub open spec fn is_deterministic(&self) -> bool {
        match self {
            Criterion::Iterations(t) => true,
            Criterion::Time(t) => false,
        }
    }
}

impl<S> TerminationCriteria<S> for Criterion {
    type Model = CriterionModel;

    open spec fn model(&self) -> CriterionModel {
        self.cmodel()
    }

    open spec fn deterministic(&self) -> bool {
        self.is_deterministic()
    }

    open spec fn step_spec(m: CriterionModel, solution: S) -> CriterionModel {
        criterion_next(m)
    }

    open spec fn verdict_spec(m: CriterionModel, solution: S) -> bool {
        criterion_fires(m)
    }

    fn terminate(&mut self, solution: &S) -> (r: bool) {
        match self {
            Criterion::Iterations(t) => TerminationCriteria::<S>::terminate(t, solution),
            Criterion::Time(t) => TerminationCriteria::<S>::terminate(t, solution),
        }
    }
}

/// The state of a primitive criterion after one round: the counters are
/// stepped unconditionally, a deadline stays what it is.
pub open spec fn criterion_next(m: CriterionModel) -> CriterionModel {
    match m {
        CriterionModel::Iterations(im) => CriterionModel::Iterations(iteration_step(im)),
        CriterionModel::Time(d) => CriterionModel::Time(d),
    }
}

/// Whether a primitive criterion fires this round, for the deterministic
/// case. Deadlines are not deterministic, so their branch here is unused.
pub open spec fn criterion_fires(m: CriterionModel) -> bool {
    match m {
        CriterionModel::Iterations(im) => {
            let im2 = iteration_step(im);
            im2.count >= im2.limit
        },
        CriterionModel::Time(d) => false,
    }
}

/// All sub-criteria after one round: each is stepped unconditionally.
pub open spec fn criteria_stepped(subs: Seq<CriterionModel>) -> Seq<CriterionModel> {
    subs.map_values(|m: CriterionModel| criterion_next(m))
}

/// Whether at least one sub-criterion fires this round.
pub open spec fn any_fires(subs: Seq<CriterionModel>) -> bool {
    exists|i: int| 0 <= i < subs.len() && criterion_fires(subs[i])
}

/// Whether every sub-criterion fires this round.
pub open spec fn all_fire(subs: Seq<CriterionModel>) -> bool {
    forall|i: int| 0 <= i < subs.len() ==> criterion_fires(subs[i])
}

/// The states of a list of criteria.
pub open spec fn criteria_models(subs: Seq<Criterion>) -> Seq<CriterionModel> {
    subs.map_values(|c: Criterion| c.cmodel())
}

/// Whether every criterion in the list is deterministic.
pub open spec fn criteria_deterministic(subs: Seq<Criterion>) -> bool {
    forall|i: int| 0 <= i < subs.len() ==> (#[trigger] subs[i].is_deterministic())
}

/// Steps every sub-criterion unconditionally, so that iteration counters
/// stay consistent however the list is ordered, and reports the verdicts
/// (whether any fired, whether all fired). The stepping holds whatever the
/// list holds; the verdicts are pinned when every sub-criterion is
/// deterministic.
fn terminate_all<S>(subs: &mut Vec<Criterion>, solution: &S) -> (r: (bool, bool))
    ensures
        criteria_models(final(subs)@) == criteria_stepped(criteria_models(old(subs)@)),
        criteria_deterministic(final(subs)@) == criteria_deterministic(old(subs)@),
        criteria_deterministic(old(subs)@) ==> {
            &&& r.0 == any_fires(criteria_models(old(subs)@))
            &&& r.1 == all_fire(criteria_models(old(subs)@))
        },
{
    let ghost orig = subs@;
    let mut any = false;
    let mut all = true;
    let mut i: usize = 0;
    while i < subs.len()
        invariant
            i <= subs@.len(),
            subs@.len() == orig.len(),
            forall|j: int| i <= j < orig.len() ==> subs@[j] == orig[j],
            forall|j: int|
                0 <= j < i ==> (#[trigger] subs@[j].is_deterministic())
                    == orig[j].is_deterministic(),
            forall|j: int|
                0 <= j < i ==> (#[trigger] subs@[j].cmodel()) == criterion_next(orig[j].cmodel()),
            criteria_deterministic(orig) ==> {
                &&& any == exists|j: int| 0 <= j < i && criterion_fires(orig[j].cmodel())
                &&& all == forall|j: int| 0 <= j < i ==> criterion_fires(orig[j].cmodel())
            },
        decreases subs@.len() - i,
    {
        let ghost i0 = i as int;
        let ghost any0 = any;
        let ghost all0 = all;
        let c = &mut subs[i];
        let r = TerminationCriteria::<S>::terminate(c, solution);
        any = any || r;
        all = all && r;
        i = i + 1;
        proof {
            assert(subs@[i0].cmodel() == criterion_next(orig[i0].cmodel()));
            if criteria_deterministic(orig) {
                assert(orig[i0].is_deterministic());
                assert(r == criterion_fires(orig[i0].cmodel()));
                assert(any == exists|j: int| 0 <= j < i0 + 1 && criterion_fires(orig[j].cmodel()))
                    by {
                    if r {
                        assert(criterion_fires(orig[i0].cmodel()));
                    } else if any0 {
                        let w = choose|j: int| 0 <= j < i0 && criterion_fires(orig[j].cmodel());
                        assert(criterion_fires(orig[w].cmodel()));
                    }
                }
            }
        }
    }
    proof {
        assert forall|j: int| 0 <= j < orig.len() implies (#[trigger] criteria_models(orig)[j])
            == orig[j].cmodel() by {}
        assert(criteria_models(subs@) =~= criteria_stepped(criteria_models(orig)));
        if criteria_deterministic(orig) {
            assert(any == any_fires(criteria_models(orig))) by {
                if any {
                    let w = choose|j: int| 0 <= j < orig.len() && criterion_fires(
                        orig[j].cmodel(),
                    );
                    assert(criterion_fires(criteria_models(orig)[w]));
                }
                if any_fires(criteria_models(orig)) {
                    let w = choose|j: int|
                        0 <= j < criteria_models(orig).len() && criterion_fires(
                            criteria_models(orig)[j],
                        );
                    assert(criterion_fires(orig[w].cmodel()));
                }
            }
            assert(all == all_fire(criteria_models(orig))) by {
                if all {
                    assert forall|j: int| 0 <= j < criteria_models(orig).len() implies
                        criterion_fires(#[trigger] criteria_models(orig)[j]) by {
                        assert(criterion_fires(orig[j].cmodel()));
                    }
                } else {
                    let w = choose|j: int|
                        0 <= j < orig.len() && !criterion_fires(orig[j].cmodel());
                    assert(!criterion_fires(criteria_models(orig)[w]));
                }
            }
        }
        assert(criteria_deterministic(subs@) == criteria_deterministic(orig)) by {
            if criteria_deterministic(orig) {
                assert forall|j: int| 0 <= j < subs@.len() implies (
                #[trigger] subs@[j].is_deterministic()) by {
                    assert(orig[j].is_deterministic());
                }
            }
            if criteria_deterministic(subs@) {
                assert forall|j: int| 0 <= j < orig.len() implies (
                #[trigger] orig[j].is_deterministic()) by {
                    assert(subs@[j].is_deterministic());
                }
            }
        }
    }
    (any, all)
}

/// Terminates when at least one termination criterion evaluates to true.
pub struct OrTerminator {
    subs: Vec<Criterion>,
}

impl OrTerminator {
    /// The aggregated sub-criteria.
    pub closed spec fn criteria(&self) -> Seq<Criterion> {
        self.subs@
    }

    pub fn new(criteria: Vec<Criterion>) -> (r: Self)
        ensures
            r.criteria() == criteria@,
    {
        Self { subs: criteria }
    }
}

impl<S> TerminationCriteria<S> for OrTerminator {
    type Model = Seq<CriterionModel>;

    open spec fn model(&self) -> Seq<CriterionModel> {
        criteria_models(self.criteria())
    }

    open spec fn deterministic(&self) -> bool {
        criteria_deterministic(self.criteria())
    }

    open spec fn step_spec(m: Seq<CriterionModel>, solution: S) -> Seq<CriterionModel> {
        criteria_stepped(m)
    }

    open spec fn verdict_spec(m: Seq<CriterionModel>, solution: S) -> bool {
        any_fires(m)
    }

    fn terminate(&mut self, solution: &S) -> (r: bool) {
        let (any, _all) = terminate_all(&mut self.subs, solution);
        any
    }
}

/// Terminates when all termination criteria evaluate to true.
pub struct AndTerminator {
    subs: Vec<Criterion>,
}

impl AndTerminator {
    /// The aggregated sub-criteria.
    pub closed spec fn criteria(&self) -> Seq<Criterion> {
        self.subs@
    }

    pub fn new(criteria: Vec<Criterion>) -> (r: Self)
        ensures
            r.criteria() == criteria@,
    {
        Self { subs: criteria }
    }
}

impl<S> TerminationCriteria<S> for AndTerminator {
    type Model = Seq<CriterionModel>;

    open spec fn model(&self) -> Seq<CriterionModel> {
        criteria_models(self.criteria())
    }

    open spec fn deterministic(&self) -> bool {
        criteria_deterministic(self.criteria())
    }

    open spec fn step_spec(m: Seq<CriterionModel>, solution: S) -> Seq<CriterionModel> {
        criteria_stepped(m)
    }

    open spec fn verdict_spec(m: Seq<CriterionModel>, solution: S) -> bool {
        all_fire(m)
    }

    fn terminate(&mut self, solution: &S) -> (r: bool) {
        let (_any, all) = terminate_all(&mut self.subs, solution);
        all
    }
}

enum AggregateTermination {
    Any,
    All,
}

/// A composite criterion as assembled by [`TerminatorBuilder`]: the listed
/// sub-criteria under either ANY or ALL aggregation.
pub enum AggregateTerminator {
    Any(OrTerminator),
    All(AndTerminator),
}

/// The state of an [`AggregateTerminator`].
pub enum AggregateModel {
    Any(Seq<CriterionModel>),
    All(Seq<CriterionModel>),
}

impl AggregateTerminator {
    /// The state of this composite.
    pub open spec fn amodel(&self) -> AggregateModel {
        match self {
            AggregateTerminator::Any(t) => AggregateModel::Any(criteria_models(t.criteria())),
            AggregateTerminator::All(t) => AggregateModel::All(criteria_models(t.criteria())),
        }
    }
}

impl<S> TerminationCriteria<S> for AggregateTerminator {
    type Model = AggregateModel;

    open spec fn model(&self) -> AggregateModel {
        self.amodel()
    }

    open spec fn deterministic(&self) -> bool {
        match self {
            AggregateTerminator::Any(t) => criteria_deterministic(t.criteria()),
            AggregateTerminator::All(t) => criteria_deterministic(t.criteria()),
        }
    }

    open spec fn step_spec(m: AggregateModel, solution: S) -> AggregateModel {
        match m {
            AggregateModel::Any(subs) => AggregateModel::Any(criteria_stepped(subs)),
            AggregateModel::All(subs) => AggregateModel::All(criteria_stepped(subs)),
        }
    }

    open spec fn verdict_spec(m: AggregateModel, solution: S) -> bool {
        match m {
            AggregateModel::Any(subs) => any_fires(subs),
            AggregateModel::All(subs) => all_fire(subs),
        }
    }

    fn terminate(&mut self, solution: &S) -> (r: bool) {
        match self {
            AggregateTerminator::Any(t) => TerminationCriteria::<S>::terminate(t, solution),
            AggregateTerminator::All(t) => TerminationCriteria::<S>::terminate(t, solution),
        }
    }
}

/// The state of an iteration budget after `k` further calls.
pub open spec fn iteration_state_after(m: IterationModel, k: nat) -> IterationModel
    decreases k,
{
    if k == 0 {
        m
    } else {
        iteration_step(iteration_state_after(m, (k - 1) as nat))
    }
}

/// The verdict of the `k`-th call (counting from one) on a fresh
/// `IterationTerminator::new(n)`.
pub open spec fn iteration_fires_on(n: nat, k: nat) -> bool {
    let m = iteration_state_after(IterationModel { limit: n, count: 0nat }, k);
    m.count >= m.limit
}

proof fn lemma_iteration_state_count(n: nat, k: nat)
    ensures
        iteration_state_after(IterationModel { limit: n, count: 0nat }, k).limit == n,
        iteration_state_after(IterationModel { limit: n, count: 0nat }, k).count == if k <= n {
            k
        } else {
            n
        },
    decreases k,
{
    if k > 0 {
        lemma_iteration_state_count(n, (k - 1) as nat);
    }
}

/// Iteration terminator exactness: a fresh budget of `n` reports
/// termination on exactly the `n`-th call — false on every call before it,
/// and, the counter being a ratchet, true from the `n`-th call on.
pub proof fn lemma_iteration_terminator_exact(n: nat, k: nat)
    requires
        k >= 1,
    ensures
        iteration_fires_on(n, k) <==> k >= n,
{
    lemma_iteration_state_count(n, k);
}

/// The state of a fresh criterion with iteration budget `n`.
pub open spec fn fresh_budget(n: nat) -> CriterionModel {
    CriterionModel::Iterations(IterationModel { limit: n, count: 0nat })
}

/// The states of a list of sub-criteria after `k` further rounds.
pub open spec fn criteria_after(subs: Seq<CriterionModel>, k: nat) -> Seq<CriterionModel>
    decreases k,
{
    if k == 0 {
        subs
    } else {
        criteria_stepped(criteria_after(subs, (k - 1) as nat))
    }
}

/// The state of one criterion after `k` further rounds.
pub open spec fn criterion_after(m: CriterionModel, k: nat) -> CriterionModel
    decreases k,
{
    if k == 0 {
        m
    } else {
        criterion_next(criterion_after(m, (k - 1) as nat))
    }
}

proof fn lemma_criteria_after_pointwise(subs: Seq<CriterionModel>, k: nat, i: int)
    requires
        0 <= i < subs.len(),
    ensures
        criteria_after(subs, k).len() == subs.len(),
        criteria_after(subs, k)[i] == criterion_after(subs[i], k),
    decreases k,
{
    if k > 0 {
        lemma_criteria_after_pointwise(subs, (k - 1) as nat, i);
    }
}

proof fn lemma_criteria_after_len(subs: Seq<CriterionModel>, k: nat)
    ensures
        criteria_after(subs, k).len() == subs.len(),
    decreases k,
{
    if k > 0 {
        lemma_criteria_after_len(subs, (k - 1) as nat);
    }
}

proof fn lemma_fresh_budget_after(n: nat, k: nat)
    ensures
        criterion_after(fresh_budget(n), k) == CriterionModel::Iterations(
            iteration_state_after(IterationModel { limit: n, count: 0nat }, k),
        ),
    decreases k,
{
    if k > 0 {
        lemma_fresh_budget_after(n, (k - 1) as nat);
    }
}

/// An ANY composite over fresh iteration budgets `ns` trips at the minimum
/// of the budgets: the verdict of its `k`-th call is true exactly when `k`
/// has reached at least one budget.
pub proof fn lemma_or_trips_at_min(ns: Seq<nat>, k: nat)
    requires
        k >= 1,
    ensures
        any_fires(criteria_after(ns.map_values(|n: nat| fresh_budget(n)), (k - 1) as nat)) <==> (
        exists|i: int| 0 <= i < ns.len() && k >= ns[i]),
{
    let subs = ns.map_values(|n: nat| fresh_budget(n));
    let pre = criteria_after(subs, (k - 1) as nat);
    lemma_criteria_after_len(subs, (k - 1) as nat);
    assert forall|i: int| 0 <= i < ns.len() implies (criterion_fires(#[trigger] pre[i]) <==> k
        >= ns[i]) by {
        lemma_criteria_after_pointwise(subs, (k - 1) as nat, i);
        lemma_fresh_budget_after(ns[i], (k - 1) as nat);
        lemma_iteration_state_count(ns[i], (k - 1) as nat);
    }
    if any_fires(pre) {
        let w = choose|i: int| 0 <= i < pre.len() && criterion_fires(pre[i]);
        assert(k >= ns[w]);
    }
    if exists|i: int| 0 <= i < ns.len() && k >= ns[i] {
        let w = choose|i: int| 0 <= i < ns.len() && k >= ns[i];
        assert(criterion_fires(pre[w]));
    }
}

/// An ALL composite over fresh iteration budgets `ns` trips at the maximum
/// of the budgets: the verdict of its `k`-th call is true exactly when `k`
/// has reached every budget.
pub proof fn lemma_and_trips_at_max(ns: Seq<nat>, k: nat)
    requires
        k >= 1,
    ensures
        all_fire(criteria_after(ns.map_values(|n: nat| fresh_budget(n)), (k - 1) as nat)) <==> (
        forall|i: int| 0 <= i < ns.len() ==> k >= ns[i]),
{
    let subs = ns.map_values(|n: nat| fresh_budget(n));
    let pre = criteria_after(subs, (k - 1) as nat);
    lemma_criteria_after_len(subs, (k - 1) as nat);
    assert forall|i: int| 0 <= i < ns.len() implies (criterion_fires(#[trigger] pre[i]) <==> k
        >= ns[i]) by {
        lemma_criteria_after_pointwise(subs, (k - 1) as nat, i);
        lemma_fresh_budget_after(ns[i], (k - 1) as nat);
        lemma_iteration_state_count(ns[i], (k - 1) as nat);
    }
    if all_fire(pre) {
        assert forall|i: int| 0 <= i < ns.len() implies k >= ns[i] by {
            assert(criterion_fires(pre[i]));
        }
    } else {
        let w = choose|i: int| 0 <= i < pre.len() && !criterion_fires(pre[i]);
        assert(!(k >= ns[w]));
    }
}

/// Builder design pattern to construct termination criteria.
pub struct TerminatorBuilder {
    terminators: Vec<Criterion>,
    aggregator: AggregateTermination,
}

/// Dummy struct just to obtain a builder for termination criteria.
pub struct Terminator;

impl Terminator {
    /// Construct a builder for termination criteria, aggregating with ANY
    /// semantics unless [`TerminatorBuilder::all`] is called.
    pub fn builder() -> (r: TerminatorBuilder)
        ensures
            r.criteria() == Seq::<CriterionModel>::empty(),
            r.is_any(),
    {
        TerminatorBuilder { aggregator: AggregateTermination::Any, terminators: Vec::new() }
    }
}

impl TerminatorBuilder {
    /// The states of the criteria added so far.
    pub closed spec fn criteria(&self) -> Seq<CriterionModel> {
        criteria_models(self.terminators@)
    }

    /// Whether the builder will aggregate with ANY semantics.
    pub closed spec fn is_any(&self) -> bool {
        self.aggregator is Any
    }

    /// Aggregate the added criteria under the chosen mode.
    pub fn build(self) -> (r: AggregateTerminator)
        ensures
            r.amodel() == if self.is_any() {
                AggregateModel::Any(self.criteria())
            } else {
                AggregateModel::All(self.criteria())
            },
    {
        match self.aggregator {
            AggregateTermination::All => AggregateTerminator::All(
                AndTerminator { subs: self.terminators },
            ),
            AggregateTermination::Any => AggregateTerminator::Any(
                OrTerminator { subs: self.terminators },
            ),
        }
    }

    /// Add a termination criterium, to be aggregated later.
    pub fn criterium(self, criterium: Criterion) -> (r: Self)
        ensures
            r.criteria() == self.criteria().push(criterium.cmodel()),
            r.is_any() == self.is_any(),
    {
        let mut this = self;
        this.terminators.push(criterium);
        proof {
            assert(this.criteria() =~= self.criteria().push(criterium.cmodel()));
        }
        this
    }

    /// Add a limit on the number of iterations.
    pub fn iterations(self, n: usize) -> (r: Self)
        ensures
            r.criteria() == self.criteria().push(
                CriterionModel::Iterations(IterationModel { limit: n as nat, count: 0nat }),
            ),
            r.is_any() == self.is_any(),
    {
        self.criterium(Criterion::Iterations(IterationTerminator::new(n)))
    }

    /// Add a time limit. The deadline itself is read off the clock, so only
    /// its presence is stated.
    pub fn time_max(self, computation_time_max: core::time::Duration) -> (r: Self)
        ensures
            r.criteria().len() == self.criteria().len() + 1,
            forall|j: int|
                0 <= j < self.criteria().len() ==> r.criteria()[j] == self.criteria()[j],
            r.criteria().last() is Time,
            r.is_any() == self.is_any(),
    {
        self.criterium(Criterion::Time(TimeTerminator::new(computation_time_max)))
    }

    /// Aggregate such that the composite fires only when all criteria do.
    pub fn all(self) -> (r: Self)
        ensures
            r.criteria() == self.criteria(),
            !r.is_any(),
    {
        let mut this = self;
        this.aggregator = AggregateTermination::All;
        this
    }

    /// Aggregate such that the composite fires when at least one criterium
    /// does.
    pub fn any(self) -> (r: Self)
        ensures
            r.criteria() == self.criteria(),
            r.is_any(),
    {
        let mut this = self;
        this.aggregator = AggregateTermination::Any;
        this
    }
}

} // verus!
