use heuristics::number_line::{NeighborSwap, NeighborsUpUntilN, Number};
use heuristics::rng::Rng;
use heuristics::{Evaluate, Operator, StochasticOperator};

#[test]
fn number_scores_its_value() {
    let n = Number::new(3, -7);
    assert_eq!(n.evaluate(), -7);
    assert_eq!(n.index(), 3);
    let copy = n.duplicate();
    assert_eq!(copy.index(), 3);
    assert_eq!(copy.evaluate(), -7);
}

#[test]
fn neighborhood_holds_left_then_right() {
    let numbers = vec![9, 8, 7, 8, 9];
    let op = NeighborsUpUntilN::new(&numbers, 1);
    let nb = op.construct_neighborhood(Number::new(2, 7));
    assert_eq!(nb.len(), 2);
    assert_eq!(nb[0].index(), 1);
    assert_eq!(nb[1].index(), 3);
}

#[test]
fn neighborhood_at_the_edges_is_one_sided() {
    let numbers = vec![9, 8, 7, 8, 9];
    let op = NeighborsUpUntilN::new(&numbers, 2);
    let at_start = op.construct_neighborhood(Number::new(0, 9));
    assert_eq!(at_start.len(), 1);
    assert_eq!(at_start[0].index(), 2);
    let at_end = op.construct_neighborhood(Number::new(4, 9));
    assert_eq!(at_end.len(), 1);
    assert_eq!(at_end[0].index(), 2);
}

#[test]
fn oversized_radius_gives_empty_neighborhood() {
    let numbers = vec![9, 8];
    let op = NeighborsUpUntilN::new(&numbers, 5);
    let nb = op.construct_neighborhood(Number::new(0, 9));
    assert_eq!(nb.len(), 0);
}

#[test]
fn find_best_neighbor_takes_the_first_minimum() {
    // Both neighbors of position 2 score 3: the left one wins the tie.
    let numbers = vec![7, 3, 9, 3];
    let op = NeighborsUpUntilN::new(&numbers, 1);
    let best = op.find_best_neighbor(Number::new(2, 9));
    assert_eq!(best.index(), 1);
    assert_eq!(best.evaluate(), 3);
}

#[test]
fn find_best_neighbor_prefers_the_strictly_lower_side() {
    let numbers = vec![7, 3, 9, 2];
    let op = NeighborsUpUntilN::new(&numbers, 1);
    let best = op.find_best_neighbor(Number::new(2, 9));
    assert_eq!(best.index(), 3);
    assert_eq!(best.evaluate(), 2);
}

#[test]
fn neighbor_swap_at_the_edge_needs_no_draw() {
    let numbers = vec![4, 5, 6];
    let op = NeighborSwap::new(&numbers);
    let mut rng = Rng::from_script(vec![]);
    let stepped = op.shake(Number::new(0, 4), &mut rng);
    assert_eq!(stepped.index(), 1);
    let stepped = op.shake(Number::new(2, 6), &mut rng);
    assert_eq!(stepped.index(), 1);
}

#[test]
fn neighbor_swap_in_the_middle_draws_a_side() {
    let numbers = vec![4, 5, 6];
    let op = NeighborSwap::new(&numbers);
    let mut rng = Rng::from_script(vec![0, 1]);
    let left = op.shake(Number::new(1, 5), &mut rng);
    assert_eq!(left.index(), 0);
    let right = op.shake(Number::new(1, 5), &mut rng);
    assert_eq!(right.index(), 2);
}

#[test]
fn neighbor_swap_on_a_single_cell_returns_the_solution() {
    let numbers = vec![4];
    let op = NeighborSwap::new(&numbers);
    let mut rng = Rng::from_script(vec![]);
    let same = op.shake(Number::new(0, 4), &mut rng);
    assert_eq!(same.index(), 0);
}
