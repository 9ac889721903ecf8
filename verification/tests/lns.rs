use heuristics::Evaluate;
use heuristics::algorithms::lns::LargeNeighborhoodSearch;
use heuristics::number_line::{NeighborSwap, Number};
use heuristics::rng::Rng;
use heuristics::selectors::SequentialSelector;
use heuristics::termination::IterationTerminator;

#[test]
fn lns_destroy_and_repair_walk_to_the_optimum() {
    // Destroying steps off position 0, repairing steps right (scripted
    // draw) onto the optimum at position 2; the second round's proposal
    // worsens and is rejected.
    let numbers = vec![3, 2, 1];
    let lns = LargeNeighborhoodSearch::builder()
        .selector_destroyer(SequentialSelector::new().option(NeighborSwap::new(&numbers)))
        .selector_repairer(SequentialSelector::new().option(NeighborSwap::new(&numbers)))
        .terminator(IterationTerminator::new(2))
        .rng(Rng::from_script(vec![1]))
        .build();

    let best = lns.optimize(Number::new(0, numbers[0]));
    assert_eq!(best.index(), 2);
    assert_eq!(best.evaluate(), 1);
}

#[test]
fn lns_scripted_runs_are_reproducible() {
    let numbers = vec![9, 8, 7, 8, 9, 7, 5, 0];
    let run = || {
        let lns = LargeNeighborhoodSearch::builder()
            .selector_destroyer(SequentialSelector::new().option(NeighborSwap::new(&numbers)))
            .selector_repairer(SequentialSelector::new().option(NeighborSwap::new(&numbers)))
            .terminator(IterationTerminator::new(20))
            .rng(Rng::from_seed(3))
            .build();
        lns.optimize(Number::new(0, numbers[0])).index()
    };
    assert_eq!(run(), run());
}

#[test]
fn lns_result_never_scores_worse_than_initial() {
    let numbers = vec![2, 4, 6, 8];
    let lns = LargeNeighborhoodSearch::builder()
        .selector_destroyer(SequentialSelector::new().option(NeighborSwap::new(&numbers)))
        .selector_repairer(SequentialSelector::new().option(NeighborSwap::new(&numbers)))
        .terminator(IterationTerminator::new(10))
        .rng(Rng::from_seed(5))
        .build();
    let best = lns.optimize(Number::new(0, numbers[0]));
    assert!(best.evaluate() <= 2);
}
