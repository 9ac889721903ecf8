//! _Large neighborhood search_.
use vstd::prelude::*;

use crate::rng::{Rng, RngModel};
use crate::selectors::OperatorSelector;
use crate::termination::TerminationCriteria;
use crate::{Evaluate, ImprovingHeuristic, ProposalEvaluation};

verus! {

/// Removes part of a solution, yielding a partial solution for a
/// [`Repairer`] to complete.
pub trait Destroyer<S>: Sized {
    /// What destroying `solution` yields for a randomness source in state
    /// `m`: the partial solution and the source's state afterwards.
    spec fn destroy_spec(&self, solution: S, m: RngModel) -> (S, RngModel);

    /// Remove part of `solution`.
    fn destroy(&self, solution: S, rng: &mut Rng) -> (r: S)
        ensures
            ({
                let (d, m2) = self.destroy_spec(solution, old(rng).model());
                r == d && final(rng).model() == m2
            }),
    ;
}

/// Reconstructs a solution from the partial solution a [`Destroyer`] left.
pub trait Repairer<S>: Sized {
    /// What repairing `solution` yields for a randomness source in state
    /// `m`: the repaired solution and the source's state afterwards.
    spec fn repair_spec(&self, solution: S, m: RngModel) -> (S, RngModel);

    /// Reconstruct a full solution from the partial `solution`.
    fn repair(&self, solution: S, rng: &mut Rng) -> (r: S)
        ensures
            ({
                let (d, m2) = self.repair_spec(solution, old(rng).model());
                r == d && final(rng).model() == m2
            }),
    ;
}

/// The state of a large neighborhood search: the destroyer and repairer
/// pools, their selector states, the terminator state, and the randomness
/// source for destroy and repair moves.
pub struct LnsModel<DOp, ROp, DSelM, RSelM, TermM> {
    pub destroyers: Seq<DOp>,
    pub repairers: Seq<ROp>,
    pub selector_destroyer: DSelM,
    pub selector_repairer: RSelM,
    pub terminator: TermM,
    pub rng: RngModel,
}

/// Large Neighborhood Search implementation: propose by destroying part of
/// the incumbent and repairing it, accept on strict improvement.
///
/// Feedback about each round is forwarded to both selectors, so that
/// adaptive selectors learn which destroyers and repairers perform well.
pub struct LargeNeighborhoodSearch<SelD, SelR, T> {
    selector_destroyer: SelD,
    selector_repairer: SelR,
    terminator: T,
    rng: Rng,
}

/// Builder design pattern for [`LargeNeighborhoodSearch`].
pub struct LNSBuilder<SelD, SelR, T> {
    selector_destroyer: Option<SelD>,
    selector_repairer: Option<SelR>,
    terminator: Option<T>,
    rng: Option<Rng>,
}

impl<SelD, SelR, T> LNSBuilder<SelD, SelR, T> {
    /// The destroyer selector set so far.
    pub closed spec fn spec_selector_destroyer(&self) -> Option<SelD> {
        self.selector_destroyer
    }

    /// The repairer selector set so far.
    pub closed spec fn spec_selector_repairer(&self) -> Option<SelR> {
        self.selector_repairer
    }

    /// The terminator set so far.
    pub closed spec fn spec_terminator(&self) -> Option<T> {
        self.terminator
    }

    /// The randomness source set so far.
    pub closed spec fn spec_rng(&self) -> Option<Rng> {
        self.rng
    }

    /// Set the selector that governs the destroyer pool.
    pub fn selector_destroyer(self, selector: SelD) -> (r: Self)
        ensures
            r.spec_selector_destroyer() == Some(selector),
            r.spec_selector_repairer() == self.spec_selector_repairer(),
            r.spec_terminator() == self.spec_terminator(),
            r.spec_rng() == self.spec_rng(),
    {
        Self { selector_destroyer: Some(selector), ..self }
    }

    /// Set the selector that governs the repairer pool.
    pub fn selector_repairer(self, repairer: SelR) -> (r: Self)
        ensures
            r.spec_selector_destroyer() == self.spec_selector_destroyer(),
            r.spec_selector_repairer() == Some(repairer),
            r.spec_terminator() == self.spec_terminator(),
            r.spec_rng() == self.spec_rng(),
    {
        Self { selector_repairer: Some(repairer), ..self }
    }

    /// Set the termination criteria.
    pub fn terminator(self, terminator: T) -> (r: Self)
        ensures
            r.spec_selector_destroyer() == self.spec_selector_destroyer(),
            r.spec_selector_repairer() == self.spec_selector_repairer(),
            r.spec_terminator() == Some(terminator),
            r.spec_rng() == self.spec_rng(),
    {
        Self { terminator: Some(terminator), ..self }
    }

    /// Set the source of randomness for destroy and repair moves.
    pub fn rng(self, rng: Rng) -> (r: Self)
        ensures
            r.spec_selector_destroyer() == self.spec_selector_destroyer(),
            r.spec_selector_repairer() == self.spec_selector_repairer(),
            r.spec_terminator() == self.spec_terminator(),
            r.spec_rng() == Some(rng),
    {
        Self { rng: Some(rng), ..self }
    }

    /// Build the configured heuristic. Leaving any component unset is a
    /// configuration error, rejected at construction time.
    pub fn build(self) -> (r: LargeNeighborhoodSearch<SelD, SelR, T>)
        requires
            self.spec_selector_destroyer() is Some,
            self.spec_selector_repairer() is Some,
            self.spec_terminator() is Some,
            self.spec_rng() is Some,
        ensures
            r.spec_selector_destroyer() == self.spec_selector_destroyer().unwrap(),
            r.spec_selector_repairer() == self.spec_selector_repairer().unwrap(),
            r.spec_terminator() == self.spec_terminator().unwrap(),
            r.spec_rng() == self.spec_rng().unwrap(),
    {
        match (self.selector_destroyer, self.selector_repairer, self.terminator, self.rng) {
            (Some(selector_destroyer), Some(selector_repairer), Some(terminator), Some(rng)) => {
                LargeNeighborhoodSearch { selector_destroyer, selector_repairer, terminator, rng }
            },
            _ => vstd::pervasive::unreached(),
        }
    }
}

impl<SelD, SelR, T> LargeNeighborhoodSearch<SelD, SelR, T> {
    /// The selector that governs the destroyer pool.
    pub closed spec fn spec_selector_destroyer(&self) -> SelD {
        self.selector_destroyer
    }

    /// The selector that governs the repairer pool.
    pub closed spec fn spec_selector_repairer(&self) -> SelR {
        self.selector_repairer
    }

    /// The termination criteria.
    pub closed spec fn spec_terminator(&self) -> T {
        self.terminator
    }

    /// The randomness source.
    pub closed spec fn spec_rng(&self) -> Rng {
        self.rng
    }

    /// Return a builder to simplify the specification.
    pub fn builder() -> (r: LNSBuilder<SelD, SelR, T>)
        ensures
            r.spec_selector_destroyer() is None,
            r.spec_selector_repairer() is None,
            r.spec_terminator() is None,
            r.spec_rng() is None,
    {
        LNSBuilder { selector_destroyer: None, selector_repairer: None, terminator: None, rng: None }
    }
}

impl<S, SelD, SelR, T> ImprovingHeuristic<S> for LargeNeighborhoodSearch<SelD, SelR, T> where
    S: Evaluate,
    SelD: OperatorSelector,
    SelD::Op: Destroyer<S>,
    SelR: OperatorSelector,
    SelR::Op: Repairer<S>,
    T: TerminationCriteria<S>,
 {
    type Model = LnsModel<SelD::Op, SelR::Op, SelD::Model, SelR::Model, T::Model>;

    open spec fn model(&self) -> Self::Model {
        LnsModel {
            destroyers: self.spec_selector_destroyer().pool(),
            repairers: self.spec_selector_repairer().pool(),
            selector_destroyer: self.spec_selector_destroyer().model(),
            selector_repairer: self.spec_selector_repairer().model(),
            terminator: self.spec_terminator().model(),
            rng: self.spec_rng().model(),
        }
    }

    open spec fn deterministic(&self) -> bool {
        self.spec_terminator().deterministic()
    }

    open spec fn ready(&self) -> bool {
        &&& self.spec_selector_destroyer().pool().len() > 0
        &&& self.spec_selector_repairer().pool().len() > 0
    }

    /// Select a destroyer and a repairer, then destroy and repair the
    /// incumbent.
    open spec fn propose_spec(m: Self::Model, incumbent: S) -> (Self::Model, S) {
        let (dsel2, didx) = SelD::select_spec(m.selector_destroyer, incumbent.score());
        let (rsel2, ridx) = SelR::select_spec(m.selector_repairer, incumbent.score());
        let (destroyed, rng1) = m.destroyers[didx].destroy_spec(incumbent, m.rng);
        let (repaired, rng2) = m.repairers[ridx].repair_spec(destroyed, rng1);
        (
            LnsModel {
                destroyers: m.destroyers,
                repairers: m.repairers,
                selector_destroyer: dsel2,
                selector_repairer: rsel2,
                terminator: m.terminator,
                rng: rng2,
            },
            repaired,
        )
    }

    /// Accept iff the candidate is strictly better than the incumbent.
    open spec fn accept_spec(m: Self::Model, candidate: S, incumbent: S) -> (Self::Model, bool) {
        (m, candidate.score() < incumbent.score())
    }

    open spec fn terminate_spec(m: Self::Model, incumbent: S) -> (Self::Model, bool) {
        (
            LnsModel {
                destroyers: m.destroyers,
                repairers: m.repairers,
                selector_destroyer: m.selector_destroyer,
                selector_repairer: m.selector_repairer,
                terminator: T::step_spec(m.terminator, incumbent),
                rng: m.rng,
            },
            T::verdict_spec(m.terminator, incumbent),
        )
    }

    open spec fn improved_spec(m: Self::Model) -> Self::Model {
        LnsModel {
            destroyers: m.destroyers,
            repairers: m.repairers,
            selector_destroyer: SelD::feedback_spec(
                m.selector_destroyer,
                ProposalEvaluation::ImprovedBest,
            ),
            selector_repairer: SelR::feedback_spec(
                m.selector_repairer,
                ProposalEvaluation::ImprovedBest,
            ),
            terminator: m.terminator,
            rng: m.rng,
        }
    }

    open spec fn accepted_spec(m: Self::Model) -> Self::Model {
        LnsModel {
            destroyers: m.destroyers,
            repairers: m.repairers,
            selector_destroyer: SelD::feedback_spec(
                m.selector_destroyer,
                ProposalEvaluation::Accept,
            ),
            selector_repairer: SelR::feedback_spec(
                m.selector_repairer,
                ProposalEvaluation::Accept,
            ),
            terminator: m.terminator,
            rng: m.rng,
        }
    }

    open spec fn rejected_spec(m: Self::Model) -> Self::Model {
        LnsModel {
            destroyers: m.destroyers,
            repairers: m.repairers,
            selector_destroyer: SelD::feedback_spec(
                m.selector_destroyer,
                ProposalEvaluation::Reject,
            ),
            selector_repairer: SelR::feedback_spec(
                m.selector_repairer,
                ProposalEvaluation::Reject,
            ),
            terminator: m.terminator,
            rng: m.rng,
        }
    }

    /// Select a destroy and repair method, then return the destroyed and
    /// repaired `incumbent`.
    fn propose_candidate(&mut self, incumbent: S) -> (r: S) {
        let objective = incumbent.evaluate();
        let didx = self.selector_destroyer.select(objective);
        let ridx = self.selector_repairer.select(objective);
        let destroyer = self.selector_destroyer.operator_at(didx);
        let destroyed = destroyer.destroy(incumbent, &mut self.rng);
        let repairer = self.selector_repairer.operator_at(ridx);
        let repaired = repairer.repair(destroyed, &mut self.rng);
        repaired
    }

    /// Accept a candidate iff it is an improvement.
    fn accept_candidate(&mut self, candidate: &S, incumbent: &S) -> (r: bool) {
        candidate.evaluate() < incumbent.evaluate()
    }

    /// Terminate iff the termination criteria are satisfied.
    fn should_terminate(&mut self, incumbent: &S) -> (r: bool) {
        self.terminator.terminate(incumbent)
    }

    fn callback_candidate_improved_best(&mut self, candidate: &S, incumbent: &S) {
        self.selector_destroyer.feedback(ProposalEvaluation::ImprovedBest);
        self.selector_repairer.feedback(ProposalEvaluation::ImprovedBest);
    }

    fn callback_candidate_accepted(&mut self, candidate: &S, incumbent: &S) {
        self.selector_destroyer.feedback(ProposalEvaluation::Accept);
        self.selector_repairer.feedback(ProposalEvaluation::Accept);
    }

    fn callback_candidate_rejected(&mut self, candidate: &S, incumbent: &S) {
        self.selector_destroyer.feedback(ProposalEvaluation::Reject);
        self.selector_repairer.feedback(ProposalEvaluation::Reject);
    }
}

impl<SelD, SelR, T> LargeNeighborhoodSearch<SelD, SelR, T> {
    /// Run the search from `initial` and return the best solution observed;
    /// see [`crate::optimize`].
    pub fn optimize<S>(self, initial: S) -> (r: S) where
        S: Evaluate,
        SelD: OperatorSelector,
        SelD::Op: Destroyer<S>,
        SelR: OperatorSelector,
        SelR::Op: Repairer<S>,
        T: TerminationCriteria<S>,

        requires
            <Self as ImprovingHeuristic<S>>::ready(&self),
        ensures
            r.score() <= initial.score(),
            <Self as ImprovingHeuristic<S>>::deterministic(&self) ==> r == crate::run_result::<
                S,
                Self,
            >(<Self as ImprovingHeuristic<S>>::model(&self), initial, initial, u64::MAX as nat),
    {
        crate::optimize(self, initial)
    }

    /// Run the search and measure how long it took; see
    /// [`crate::optimize_timed`].
    pub fn optimize_timed<S>(self, solution: S) -> (r: crate::Outcome<S>) where
        S: Evaluate,
        SelD: OperatorSelector,
        SelD::Op: Destroyer<S>,
        SelR: OperatorSelector,
        SelR::Op: Repairer<S>,
        T: TerminationCriteria<S>,

        requires
            <Self as ImprovingHeuristic<S>>::ready(&self),
        ensures
            r.spec_solution().score() <= solution.score(),
            <Self as ImprovingHeuristic<S>>::deterministic(&self) ==> r.spec_solution()
                == crate::run_result::<S, Self>(
                <Self as ImprovingHeuristic<S>>::model(&self),
                solution,
                solution,
                u64::MAX as nat,
            ),
    {
        crate::optimize_timed(self, solution)
    }
}

} // verus!
