use heuristics::ProposalEvaluation;
use heuristics::number_line::NeighborSwap;
use heuristics::rng::Rng;
use heuristics::selectors::{AdaptiveSelector, OperatorSelector, RandomSelector, SequentialSelector};

#[test]
fn adaptivity_core() {
    let rng = Rng::from_script(vec![0, 4000]);
    let op1 = NeighborSwap::new(&vec![1, 2, 3]);
    let op2 = NeighborSwap::new(&vec![1, 2, 3]);
    let op3 = NeighborSwap::new(&vec![1, 2, 3]);
    let mut selector = AdaptiveSelector::default_weights(1000, rng)
        .operator(op1)
        .operator(op2)
        .operator(op3);
    assert_eq!(selector.weights()[0], 1000);
    assert_eq!(selector.weights()[1], 1000);
    assert_eq!(selector.weights()[2], 1000);

    let chosen = selector.select(0);
    assert_eq!(chosen, 0);
    selector.feedback(ProposalEvaluation::ImprovedBest);
    assert_eq!(selector.weights()[0], 3000);
    assert_eq!(selector.weights()[1], 1000);
    assert_eq!(selector.weights()[2], 1000);

    let chosen = selector.select(0);
    assert_eq!(chosen, 2);
    selector.feedback(ProposalEvaluation::Accept);
    assert_eq!(selector.weights()[0], 3000);
    assert_eq!(selector.weights()[1], 1000);
    assert_eq!(selector.weights()[2], 1000);
}

#[test]
fn adaptive_reject_zeroes_weight_under_full_decay() {
    let rng = Rng::from_script(vec![0]);
    let op1 = NeighborSwap::new(&vec![1, 2]);
    let op2 = NeighborSwap::new(&vec![1, 2]);
    let mut selector = AdaptiveSelector::default_weights(1000, rng)
        .operator(op1)
        .operator(op2);
    let chosen = selector.select(0);
    assert_eq!(chosen, 0);
    selector.feedback(ProposalEvaluation::Reject);
    assert_eq!(selector.weights()[0], 0);
    assert_eq!(selector.weights()[1], 1000);
}

#[test]
fn adaptive_half_decay_averages() {
    // With decay one half, an improvement moves the weight halfway from
    // 1 to the reward 3: (500 * 1000 + 500 * 3000) / 1000 = 2000.
    let rng = Rng::from_script(vec![0]);
    let op1 = NeighborSwap::new(&vec![1, 2]);
    let mut selector = AdaptiveSelector::default_weights(500, rng).operator(op1);
    let chosen = selector.select(0);
    assert_eq!(chosen, 0);
    selector.feedback(ProposalEvaluation::ImprovedBest);
    assert_eq!(selector.weights()[0], 2000);
}

#[test]
fn adaptive_feedback_before_any_selection_changes_nothing() {
    let rng = Rng::from_script(vec![]);
    let op1 = NeighborSwap::new(&vec![1, 2]);
    let mut selector = AdaptiveSelector::default_weights(1000, rng).operator(op1);
    selector.feedback(ProposalEvaluation::ImprovedBest);
    assert_eq!(selector.weights()[0], 1000);
}

#[test]
fn adaptive_all_weights_zero_picks_first() {
    let rng = Rng::from_script(vec![7, 9]);
    let op1 = NeighborSwap::new(&vec![1, 2]);
    let op2 = NeighborSwap::new(&vec![1, 2]);
    let mut selector = AdaptiveSelector::custom_weights(1000, 0, 0, 0, rng)
        .operator(op1)
        .operator(op2);
    // Zero both weights through rejected rounds (reward 0, full decay).
    let first = selector.select(0);
    selector.feedback(ProposalEvaluation::Reject);
    assert_eq!(selector.weights()[first], 0);
    let second = selector.select(0);
    selector.feedback(ProposalEvaluation::Reject);
    assert_eq!(selector.weights()[second], 0);
    assert_eq!(selector.weights()[0], 0);
    assert_eq!(selector.weights()[1], 0);
    // With no weight anywhere, the first operator is picked.
    assert_eq!(selector.select(0), 0);
}

#[test]
fn sequential_selector_restarts_on_improvement() {
    let numbers = vec![1, 2, 3];
    let mut selector = SequentialSelector::new()
        .option(NeighborSwap::new(&numbers))
        .option(NeighborSwap::new(&numbers))
        .option(NeighborSwap::new(&numbers));
    // Strictly decreasing objectives: the cursor stays at zero.
    assert_eq!(selector.select(9), 0);
    assert_eq!(selector.select(8), 0);
    assert_eq!(selector.select(7), 0);
    assert_eq!(selector.select(6), 0);
}

#[test]
fn sequential_selector_escalates_without_improvement() {
    let numbers = vec![1, 2, 3];
    let mut selector = SequentialSelector::new()
        .option(NeighborSwap::new(&numbers))
        .option(NeighborSwap::new(&numbers))
        .option(NeighborSwap::new(&numbers));
    // The first call always improves on "nothing seen yet".
    assert_eq!(selector.select(5), 0);
    // A constant objective then advances the cursor by one, wrapping.
    assert_eq!(selector.select(5), 1);
    assert_eq!(selector.select(5), 2);
    assert_eq!(selector.select(5), 0);
    assert_eq!(selector.select(5), 1);
}

#[test]
fn random_selector_draws_indices_from_its_source() {
    let numbers = vec![1, 2, 3];
    let rng = Rng::from_script(vec![5, 6, 7]);
    let mut selector = RandomSelector::new(rng)
        .option(NeighborSwap::new(&numbers))
        .option(NeighborSwap::new(&numbers))
        .option(NeighborSwap::new(&numbers));
    assert_eq!(selector.select(0), 2);
    assert_eq!(selector.select(0), 0);
    assert_eq!(selector.select(0), 1);
}
