//! A modular framework for improving metaheuristics: one shared control loop
//! together with pluggable operators, operator-selection policies, and
//! composable termination criteria, instantiated by variable neighborhood
//! search, simulated annealing, and large neighborhood search.
//!
//! Solutions are opaque to the framework: a caller supplies a type that can be
//! scored (lower is better) and duplicated, together with operators that
//! produce neighboring solutions.
use vstd::prelude::*;

pub mod algorithms;
mod clock;
pub mod number_line;
pub mod rng;
pub mod selectors;
pub mod termination;

verus! {

/// Evaluate the quality of a solution. Lower scores are better.
pub trait Evaluate: Sized {
    /// The mathematical score of this solution.
    spec fn score(&self) -> int;

    /// Return the score of this solution.
    fn evaluate(&self) -> (r: i64)
        ensures
            r as int == self.score(),
    ;

    /// Return a copy of this solution.
    fn duplicate(&self) -> (r: Self)
        ensures
            r == *self,
    ;
}

/// Evaluation of a proposed candidate, fed back to adaptive selection policies.
pub enum ProposalEvaluation {
    /// Candidate improved the best solution seen so far
    ImprovedBest,
    /// Candidate was accepted
    Accept,
    /// Candidate was rejected
    Reject,
}

/// The index of the first element of `s` with the lowest score: a later
/// element displaces an earlier one only by scoring strictly lower.
pub open spec fn first_min_index<S: Evaluate>(s: Seq<S>) -> int
    decreases s.len(),
{
    if s.len() <= 1 {
        0int
    } else {
        let m = first_min_index(s.drop_last());
        if s.last().score() < s[m].score() {
            s.len() - 1
        } else {
            m
        }
    }
}

/// The first-minimum really is a minimum, and everything before it scores
/// strictly higher.
pub proof fn lemma_first_min_index_is_min<S: Evaluate>(s: Seq<S>)
    requires
        s.len() > 0,
    ensures
        0 <= first_min_index(s) < s.len(),
        forall|j: int|
            0 <= j < s.len() ==> s[first_min_index(s)].score() <= (#[trigger] s[j]).score(),
        forall|j: int|
            0 <= j < first_min_index(s) ==> s[first_min_index(s)].score() < (#[trigger] s[j]).score(),
    decreases s.len(),
{
    if s.len() > 1 {
        lemma_first_min_index_is_min(s.drop_last());
        let d = s.drop_last();
        let m = first_min_index(d);
        let f = first_min_index(s);
        assert forall|j: int| 0 <= j < s.len() implies s[f].score() <= (#[trigger] s[j]).score() by {
            if j < s.len() - 1 {
                assert(d[j] == s[j]);
                assert(d[m] == s[m]);
            }
        }
        assert forall|j: int| 0 <= j < f implies s[f].score() < (#[trigger] s[j]).score() by {
            assert(d[j] == s[j]);
            assert(d[m] == s[m]);
        }
    }
}

/// A local search operator returns the neighborhood of its argument.
///
/// The neighborhood is a finite sequence of candidate solutions, fixed by
/// the operator's `nbhd` specification: each `construct_neighborhood` call
/// yields a fresh, full enumeration of it.
pub trait Operator<S: Evaluate>: Sized {
    /// The neighborhood of `solution` under this operator's move definition.
    spec fn nbhd(&self, solution: S) -> Seq<S>;

    /// Construct the neighborhood of `solution`.
    fn construct_neighborhood(&self, solution: S) -> (r: Vec<S>)
        ensures
            r@ == self.nbhd(solution),
    ;

    /// Return the optimal neighbor of `solution`: the first of the lowest
    /// score. An empty neighborhood is a contract violation of the caller.
    fn find_best_neighbor(&self, solution: S) -> (r: S)
        requires
            self.nbhd(solution).len() > 0,
        ensures
            r == self.nbhd(solution)[first_min_index(self.nbhd(solution))],
    {
        let ghost nb = self.nbhd(solution);
        let neighborhood = self.construct_neighborhood(solution);
        let mut best_idx: usize = 0;
        let mut best_score: i64 = neighborhood[0].evaluate();
        let mut i: usize = 1;
        while i < neighborhood.len()
            invariant
                neighborhood@ == nb,
                1 <= i <= nb.len(),
                best_idx < i,
                best_idx as int == first_min_index(nb.take(i as int)),
                best_score as int == nb[best_idx as int].score(),
            decreases nb.len() - i,
        {
            let sc = neighborhood[i].evaluate();
            proof {
                assert(nb.take(i as int + 1).drop_last() =~= nb.take(i as int));
            }
            if sc < best_score {
                best_idx = i;
                best_score = sc;
            }
            i = i + 1;
        }
        proof {
            assert(nb.take(nb.len() as int) =~= nb);
        }
        neighborhood[best_idx].duplicate()
    }
}

/// An operator that draws a single random neighbor ("shake") instead of
/// enumerating a whole neighborhood.
pub trait StochasticOperator<S>: Sized {
    /// What shaking `solution` yields for a randomness source in state `m`:
    /// the neighbor drawn and the source's state afterwards.
    spec fn shake_spec(&self, solution: S, m: rng::RngModel) -> (S, rng::RngModel);

    /// Return a random neighbor of `solution`.
    fn shake(&self, solution: S, rng: &mut rng::Rng) -> (r: S)
        ensures
            ({
                let (c, m2) = self.shake_spec(solution, old(rng).model());
                r == c && final(rng).model() == m2
            }),
    ;
}

/// One round of the improving-heuristic loop, on the ghost state: propose a
/// candidate, update the best-seen on strict improvement, decide acceptance,
/// emit the matching feedback, and check termination with the new incumbent.
/// Yields the next heuristic state, incumbent, best-seen, and the verdict.
pub open spec fn round_spec<S: Evaluate, H: ImprovingHeuristic<S>>(
    m: H::Model,
    incumbent: S,
    best: S,
) -> (H::Model, S, S, bool) {
    let (m1, candidate) = H::propose_spec(m, incumbent);
    let improved = candidate.score() < best.score();
    let m2 = if improved {
        H::improved_spec(m1)
    } else {
        m1
    };
    let best2 = if improved {
        candidate
    } else {
        best
    };
    let (m3, accepted) = H::accept_spec(m2, candidate, incumbent);
    let m4 = if accepted {
        H::accepted_spec(m3)
    } else {
        H::rejected_spec(m3)
    };
    let inc2 = if accepted {
        candidate
    } else {
        incumbent
    };
    let (m5, stop) = H::terminate_spec(m4, inc2);
    (m5, inc2, best2, stop)
}

/// The best solution an improving heuristic returns when run from the given
/// state: rounds are iterated until the termination criteria fire (or the
/// round budget `fuel` runs out, which a full run never reaches).
pub open spec fn run_result<S: Evaluate, H: ImprovingHeuristic<S>>(
    m: H::Model,
    incumbent: S,
    best: S,
    fuel: nat,
) -> S
    decreases fuel,
{
    if fuel == 0 {
        best
    } else {
        let (m2, inc2, best2, stop) = round_spec::<S, H>(m, incumbent, best);
        if stop {
            best2
        } else {
            run_result::<S, H>(m2, inc2, best2, (fuel - 1) as nat)
        }
    }
}

/// The best-seen solution never regresses: one round either keeps it or
/// replaces it by a strictly better candidate.
pub proof fn lemma_round_best_monotone<S: Evaluate, H: ImprovingHeuristic<S>>(
    m: H::Model,
    incumbent: S,
    best: S,
)
    ensures
        round_spec::<S, H>(m, incumbent, best).2.score() <= best.score(),
{
}

/// Determinism: a deterministic heuristic's result is the mathematical
/// function `run_result` of its initial state and solution, so two runs from
/// equal states on equal solutions return identical solutions.
pub proof fn lemma_run_deterministic<S: Evaluate, H: ImprovingHeuristic<S>>(
    m1: H::Model,
    s1: S,
    m2: H::Model,
    s2: S,
    fuel: nat,
)
    requires
        m1 == m2,
        s1 == s2,
    ensures
        run_result::<S, H>(m1, s1, s1, fuel) == run_result::<S, H>(m2, s2, s2, fuel),
{
}

/// Model of an improvement heuristic based on iterations.
///
/// Models heuristics in the form of:
/// 1. incumbent = initial
/// 2. candidate = `propose_candidate`(incumbent)
/// 3. if candidate.evaluate() < best_solution.evaluate()
///     - best_solution = candidate
/// 4. if `accept_candidate`(candidate, incumbent)
///     - incumbent = candidate
/// 5. if `should_terminate`(incumbent)
///     - return best_solution
/// 6. else go back to (2)
///
/// Every implementation carries a ghost model; proposing, accepting and the
/// feedback callbacks are pinned to mathematical transitions on it, and so
/// is termination checking whenever the criteria are deterministic (that is,
/// free of wall-clock deadlines). `optimize` then returns exactly
/// [`run_result`] of the initial state.
pub trait ImprovingHeuristic<S: Evaluate>: Sized {
    /// The mathematical state of this heuristic: operator pools, selector
    /// and terminator state, randomness sources, temperature, and the like.
    type Model;

    /// The current state.
    spec fn model(&self) -> Self::Model;

    /// Whether a run from this state is a function of the state alone.
    spec fn deterministic(&self) -> bool;

    /// Whether proposing is permitted for every incumbent: the hook that
    /// rules out contract violations such as best-neighbor search over an
    /// empty neighborhood. Preserved by every transition.
    spec fn ready(&self) -> bool;

    /// The transition of `propose_candidate`.
    spec fn propose_spec(m: Self::Model, incumbent: S) -> (Self::Model, S);

    /// The transition of `accept_candidate`.
    spec fn accept_spec(m: Self::Model, candidate: S, incumbent: S) -> (Self::Model, bool);

    /// The transition of `should_terminate`, for deterministic states.
    spec fn terminate_spec(m: Self::Model, incumbent: S) -> (Self::Model, bool);

    /// The transition of the improved-best feedback callback.
    spec fn improved_spec(m: Self::Model) -> Self::Model;

    /// The transition of the accepted feedback callback.
    spec fn accepted_spec(m: Self::Model) -> Self::Model;

    /// The transition of the rejected feedback callback.
    spec fn rejected_spec(m: Self::Model) -> Self::Model;

    /// Propose a candidate solution given the incumbent.
    ///
    /// In a local search algorithm, the incumbent's neighborhood is
    /// searched.
    fn propose_candidate(&mut self, incumbent: S) -> (r: S)
        requires
            old(self).ready(),
        ensures
            final(self).ready(),
            final(self).deterministic() == old(self).deterministic(),
            (final(self).model(), r) == Self::propose_spec(old(self).model(), incumbent),
    ;

    /// Test whether the current candidate is accepted as the next incumbent.
    ///
    /// Usually with local search this tests whether the candidate is better
    /// than the incumbent. With simulated annealing, however, acceptance is
    /// based on probability.
    fn accept_candidate(&mut self, candidate: &S, incumbent: &S) -> (r: bool)
        ensures
            final(self).ready() == old(self).ready(),
            final(self).deterministic() == old(self).deterministic(),
            (final(self).model(), r) == Self::accept_spec(old(self).model(), *candidate, *incumbent),
    ;

    /// Test whether the termination criteria are fulfilled.
    fn should_terminate(&mut self, incumbent: &S) -> (r: bool)
        ensures
            final(self).ready() == old(self).ready(),
            final(self).deterministic() == old(self).deterministic(),
            old(self).deterministic() ==> (final(self).model(), r) == Self::terminate_spec(
                old(self).model(),
                *incumbent,
            ),
    ;

    /// Called when the candidate improved on the best-seen solution.
    fn callback_candidate_improved_best(&mut self, candidate: &S, incumbent: &S)
        ensures
            final(self).ready() == old(self).ready(),
            final(self).deterministic() == old(self).deterministic(),
            final(self).model() == Self::improved_spec(old(self).model()),
    ;

    /// Called when the candidate was accepted as the next incumbent.
    fn callback_candidate_accepted(&mut self, candidate: &S, incumbent: &S)
        ensures
            final(self).ready() == old(self).ready(),
            final(self).deterministic() == old(self).deterministic(),
            final(self).model() == Self::accepted_spec(old(self).model()),
    ;

    /// Called when the candidate was rejected.
    fn callback_candidate_rejected(&mut self, candidate: &S, incumbent: &S)
        ensures
            final(self).ready() == old(self).ready(),
            final(self).deterministic() == old(self).deterministic(),
            final(self).model() == Self::rejected_spec(old(self).model()),
    ;

}

/// Run the improving loop of heuristic `h` from `initial` until the
/// termination criteria fire, and return the best solution observed. The
/// result never scores worse than the initial solution, and for a
/// deterministic configuration it is exactly [`run_result`] of the initial
/// state.
pub fn optimize<S: Evaluate, H: ImprovingHeuristic<S>>(h: H, initial: S) -> (r: S)
    requires
        h.ready(),
    ensures
        r.score() <= initial.score(),
        h.deterministic() ==> r == run_result::<S, H>(h.model(), initial, initial, u64::MAX as nat),
{
    let ghost m0 = h.model();
    let ghost det = h.deterministic();
    let mut h = h;
    let mut incumbent = initial;
    let mut best = incumbent.duplicate();
    let mut fuel: u64 = u64::MAX;
    loop
        invariant_except_break
            det ==> run_result::<S, H>(m0, initial, initial, u64::MAX as nat) == run_result::<
                S,
                H,
            >(h.model(), incumbent, best, fuel as nat),
        invariant
            h.ready(),
            h.deterministic() == det,
            best.score() <= initial.score(),
        ensures
            best.score() <= initial.score(),
            det ==> run_result::<S, H>(m0, initial, initial, u64::MAX as nat) == best,
        decreases fuel,
    {
        if fuel == 0 {
            break ;
        }
        let ghost fuel_in = fuel;
        fuel = fuel - 1;
        let ghost m_in = h.model();
        let ghost inc_in = incumbent;
        let ghost best_in = best;
        let candidate = h.propose_candidate(incumbent.duplicate());
        if candidate.evaluate() < best.evaluate() {
            h.callback_candidate_improved_best(&candidate, &incumbent);
            best = candidate.duplicate();
        }
        let accepted = h.accept_candidate(&candidate, &incumbent);
        if accepted {
            h.callback_candidate_accepted(&candidate, &incumbent);
            incumbent = candidate;
        } else {
            h.callback_candidate_rejected(&candidate, &incumbent);
        }
        let stop = h.should_terminate(&incumbent);
        proof {
            if det {
                let (rm, rinc, rbest, rstop) = round_spec::<S, H>(m_in, inc_in, best_in);
                assert(h.model() == rm);
                assert(incumbent == rinc);
                assert(best == rbest);
                assert(stop == rstop);
                assert(run_result::<S, H>(m_in, inc_in, best_in, fuel_in as nat) == if rstop {
                    rbest
                } else {
                    run_result::<S, H>(rm, rinc, rbest, fuel as nat)
                });
            }
        }
        if stop {
            break ;
        }
    }
    best
}

/// Runs [`optimize`], measures the wall-clock time it took, and returns an
/// [`Outcome`]. If the clock moved backwards during the run, the duration is
/// reported as zero.
pub fn optimize_timed<S: Evaluate, H: ImprovingHeuristic<S>>(h: H, solution: S) -> (r: Outcome<S>)
    requires
        h.ready(),
    ensures
        r.spec_solution().score() <= solution.score(),
        h.deterministic() ==> r.spec_solution() == run_result::<S, H>(
            h.model(),
            solution,
            solution,
            u64::MAX as nat,
        ),
{
    let start = crate::clock::now();
    let best = optimize(h, solution);
    let duration = match crate::clock::elapsed_since(&start) {
        Some(d) => d,
        None => crate::clock::duration_from_secs(0),
    };
    Outcome::new(best, duration)
}

/// Solution decorated with some metadata: the result of a timed run.
pub struct Outcome<T> {
    solution: T,
    duration: core::time::Duration,
}

impl<T> Outcome<T> {
    /// The decorated solution.
    pub closed spec fn spec_solution(&self) -> T {
        self.solution
    }

    /// The measured computation time.
    pub closed spec fn spec_duration(&self) -> core::time::Duration {
        self.duration
    }

    pub fn new(solution: T, duration: core::time::Duration) -> (r: Self)
        ensures
            r.spec_solution() == solution,
            r.spec_duration() == duration,
    {
        Self { solution, duration }
    }

    /// Get the solution which is decorated.
    pub fn solution(&self) -> (r: &T)
        ensures
            *r == self.spec_solution(),
    {
        &self.solution
    }

    /// Return the computation time that was needed to get this solution.
    pub fn duration(&self) -> (r: core::time::Duration)
        ensures
            r == self.spec_duration(),
    {
        self.duration
    }
}

} // verus!
