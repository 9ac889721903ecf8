//! _Variable neighborhood search_.
use vstd::prelude::*;

use crate::selectors::OperatorSelector;
use crate::termination::TerminationCriteria;
use crate::{Evaluate, ImprovingHeuristic, Operator, ProposalEvaluation, first_min_index};

verus! {

/// Whether every operator of the pool yields a nonempty neighborhood for
/// every solution, so that best-neighbor search is always permitted.
pub open spec fn neighborhoods_nonempty<S: Evaluate, Op: Operator<S>>(pool: Seq<Op>) -> bool {
    forall|i: int, s: S| 0 <= i < pool.len() ==> (#[trigger] pool[i].nbhd(s)).len() > 0
}

/// The state of a variable neighborhood search: the operator pool and the
/// selector and terminator states.
pub struct VnsModel<Op, SelM, TermM> {
    pub pool: Seq<Op>,
    pub selector: SelM,
    pub terminator: TermM,
}

/// Implementation of _variable neighborhood search_: propose the best
/// neighbor under the selected operator, accept on strict improvement.
///
/// Feedback about each round is forwarded to the selector, so that an
/// adaptive selector learns which operator performs well.
pub struct VariableNeighborhoodSearch<Sel, T> {
    selector: Sel,
    terminator: T,
}

/// Builder pattern to construct a _variable neighborhood search_ heuristic.
pub struct VNSBuilder<Sel, T> {
    selector: Option<Sel>,
    terminator: Option<T>,
    rng: Option<crate::rng::Rng>,
}

impl<Sel, T> VNSBuilder<Sel, T> {
    /// The selector set so far.
    pub closed spec fn spec_selector(&self) -> Option<Sel> {
        self.selector
    }

    /// The terminator set so far.
    pub closed spec fn spec_terminator(&self) -> Option<T> {
        self.terminator
    }

    /// Set the operator selector.
    pub fn selector(self, selector: Sel) -> (r: Self)
        ensures
            r.spec_selector() == Some(selector),
            r.spec_terminator() == self.spec_terminator(),
    {
        Self { selector: Some(selector), ..self }
    }

    /// Set the termination criteria.
    pub fn terminator(self, terminator: T) -> (r: Self)
        ensures
            r.spec_selector() == self.spec_selector(),
            r.spec_terminator() == Some(terminator),
    {
        Self { terminator: Some(terminator), ..self }
    }

    /// Set a source of randomness. Plain variable neighborhood search is
    /// deterministic, so this is kept only for interface parity and is not
    /// consumed by [`VNSBuilder::build`].
    pub fn rng(self, rng: crate::rng::Rng) -> (r: Self)
        ensures
            r.spec_selector() == self.spec_selector(),
            r.spec_terminator() == self.spec_terminator(),
    {
        Self { rng: Some(rng), ..self }
    }

    /// Construct the specified heuristic. Leaving the selector or the
    /// termination criteria unset is a configuration error, rejected at
    /// construction time.
    pub fn build(self) -> (r: VariableNeighborhoodSearch<Sel, T>)
        requires
            self.spec_selector() is Some,
            self.spec_terminator() is Some,
        ensures
            r.spec_selector() == self.spec_selector().unwrap(),
            r.spec_terminator() == self.spec_terminator().unwrap(),
    {
        match (self.selector, self.terminator) {
            (Some(selector), Some(terminator)) => VariableNeighborhoodSearch {
                selector,
                terminator,
            },
            _ => vstd::pervasive::unreached(),
        }
    }
}

impl<Sel, T> VariableNeighborhoodSearch<Sel, T> {
    /// The operator selector.
    pub closed spec fn spec_selector(&self) -> Sel {
        self.selector
    }

    /// The termination criteria.
    pub closed spec fn spec_terminator(&self) -> T {
        self.terminator
    }

    /// Return a builder to simplify the specification.
    pub fn builder() -> (r: VNSBuilder<Sel, T>)
        ensures
            r.spec_selector() is None,
            r.spec_terminator() is None,
    {
        VNSBuilder { selector: None, terminator: None, rng: None }
    }
}

impl<S, Sel, T> ImprovingHeuristic<S> for VariableNeighborhoodSearch<Sel, T> where
    S: Evaluate,
    Sel: OperatorSelector,
    Sel::Op: Operator<S>,
    T: TerminationCriteria<S>,
 {
    type Model = VnsModel<Sel::Op, Sel::Model, T::Model>;

    open spec fn model(&self) -> Self::Model {
        VnsModel {
            pool: self.spec_selector().pool(),
            selector: self.spec_selector().model(),
            terminator: self.spec_terminator().model(),
        }
    }

    open spec fn deterministic(&self) -> bool {
        self.spec_terminator().deterministic()
    }

    open spec fn ready(&self) -> bool {
        &&& self.spec_selector().pool().len() > 0
        &&& neighborhoods_nonempty(self.spec_selector().pool())
    }

    /// Select an operator, then move to the best neighbor it yields.
    open spec fn propose_spec(m: Self::Model, incumbent: S) -> (Self::Model, S) {
        let (sel2, idx) = Sel::select_spec(m.selector, incumbent.score());
        let nb = m.pool[idx].nbhd(incumbent);
        (
            VnsModel { pool: m.pool, selector: sel2, terminator: m.terminator },
            nb[first_min_index(nb)],
        )
    }

    /// Accept iff the candidate is strictly better than the incumbent.
    open spec fn accept_spec(m: Self::Model, candidate: S, incumbent: S) -> (Self::Model, bool) {
        (m, candidate.score() < incumbent.score())
    }

    open spec fn terminate_spec(m: Self::Model, incumbent: S) -> (Self::Model, bool) {
        (
            VnsModel {
                pool: m.pool,
                selector: m.selector,
                terminator: T::step_spec(m.terminator, incumbent),
            },
            T::verdict_spec(m.terminator, incumbent),
        )
    }

    open spec fn improved_spec(m: Self::Model) -> Self::Model {
        VnsModel {
            pool: m.pool,
            selector: Sel::feedback_spec(m.selector, ProposalEvaluation::ImprovedBest),
            terminator: m.terminator,
        }
    }

    open spec fn accepted_spec(m: Self::Model) -> Self::Model {
        VnsModel {
            pool: m.pool,
            selector: Sel::feedback_spec(m.selector, ProposalEvaluation::Accept),
            terminator: m.terminator,
        }
    }

    open spec fn rejected_spec(m: Self::Model) -> Self::Model {
        VnsModel {
            pool: m.pool,
            selector: Sel::feedback_spec(m.selector, ProposalEvaluation::Reject),
            terminator: m.terminator,
        }
    }

    /// Select an operator and get the best neighbor of `incumbent`.
    fn propose_candidate(&mut self, incumbent: S) -> (r: S) {
        let objective = incumbent.evaluate();
        let idx = self.selector.select(objective);
        let operator = self.selector.operator_at(idx);
        operator.find_best_neighbor(incumbent)
    }

    /// Accept iff candidate is better than the incumbent.
    fn accept_candidate(&mut self, candidate: &S, incumbent: &S) -> (r: bool) {
        candidate.evaluate() < incumbent.evaluate()
    }

    /// Test whether the termination criteria are fulfilled.
    fn should_terminate(&mut self, incumbent: &S) -> (r: bool) {
        self.terminator.terminate(incumbent)
    }

    fn callback_candidate_improved_best(&mut self, candidate: &S, incumbent: &S) {
        self.selector.feedback(ProposalEvaluation::ImprovedBest);
    }

    fn callback_candidate_accepted(&mut self, candidate: &S, incumbent: &S) {
        self.selector.feedback(ProposalEvaluation::Accept);
    }

    fn callback_candidate_rejected(&mut self, candidate: &S, incumbent: &S) {
        self.selector.feedback(ProposalEvaluation::Reject);
    }
}

impl<Sel, T> VariableNeighborhoodSearch<Sel, T> {
    /// Run the search from `initial` and return the best solution observed;
    /// see [`crate::optimize`].
    pub fn optimize<S>(self, initial: S) -> (r: S) where
        S: Evaluate,
        Sel: OperatorSelector,
        Sel::Op: Operator<S>,
        T: TerminationCriteria<S>,

        requires
            <Self as ImprovingHeuristic<S>>::ready(&self),
        ensures
            r.score() <= initial.score(),
            <Self as ImprovingHeuristic<S>>::deterministic(&self) ==> r == crate::run_result::<
                S,
                Self,
            >(<Self as ImprovingHeuristic<S>>::model(&self), initial, initial, u64::MAX as nat),
    {
        crate::optimize(self, initial)
    }

    /// Run the search and measure how long it took; see
    /// [`crate::optimize_timed`].
    pub fn optimize_timed<S>(self, solution: S) -> (r: crate::Outcome<S>) where
        S: Evaluate,
        Sel: OperatorSelector,
        Sel::Op: Operator<S>,
        T: TerminationCriteria<S>,

        requires
            <Self as ImprovingHeuristic<S>>::ready(&self),
        ensures
            r.spec_solution().score() <= solution.score(),
            <Self as ImprovingHeuristic<S>>::deterministic(&self) ==> r.spec_solution()
                == crate::run_result::<S, Self>(
                <Self as ImprovingHeuristic<S>>::model(&self),
                solution,
                solution,
                u64::MAX as nat,
            ),
    {
        crate::optimize_timed(self, solution)
    }
}

} // verus!
