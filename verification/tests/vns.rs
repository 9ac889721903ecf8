use heuristics::algorithms::vns::VariableNeighborhoodSearch;
use heuristics::number_line::{NeighborsUpUntilN, Number};
use heuristics::selectors::SequentialSelector;
use heuristics::termination::IterationTerminator;

#[test]
fn vns_single_operator1() {
    let numbers = vec![9, 8, 7, 8, 9, 7, 5, 0];
    let iterations_max = 10;

    let operator = NeighborsUpUntilN::new(&numbers, 1);
    let vns = VariableNeighborhoodSearch::builder()
        .selector(SequentialSelector::new().option(operator))
        .terminator(IterationTerminator::new(iterations_max))
        .build();

    let initial_solution = Number::new(0, numbers[0]);
    let vns_solution = vns.optimize(initial_solution);

    assert_eq!(vns_solution.index(), 2)
}

#[test]
fn vns_single_operator2() {
    let numbers = vec![9, 8, 7, 8, 9, 7, 5, 0];
    let iterations_max = 10;

    let operator = NeighborsUpUntilN::new(&numbers, 3);
    let vns = VariableNeighborhoodSearch::builder()
        .selector(SequentialSelector::new().option(operator))
        .terminator(IterationTerminator::new(iterations_max))
        .build();

    let initial_solution = Number::new(0, numbers[0]);
    let vns_solution = vns.optimize(initial_solution);

    assert_eq!(vns_solution.index(), 6)
}

#[test]
fn vns_multiple_operators1() {
    let numbers = vec![9, 8, 7, 8, 9, 7, 5, 0];
    let iterations_max = 10;

    let operator1 = NeighborsUpUntilN::new(&numbers, 1);
    let operator2 = NeighborsUpUntilN::new(&numbers, 3);
    let vns = VariableNeighborhoodSearch::builder()
        .selector(
            SequentialSelector::new()
                .option(operator1)
                .option(operator2),
        )
        .terminator(IterationTerminator::new(iterations_max))
        .build();

    let initial_solution = Number::new(0, numbers[0]);
    let vns_solution = vns.optimize(initial_solution);

    assert_eq!(vns_solution.index(), 2)
}

#[test]
fn vns_multiple_operators2() {
    let numbers = vec![9, 8, 7, 8, 9, 7, 5, 0];
    let iterations_max = 10;

    let operator1 = NeighborsUpUntilN::new(&numbers, 1);
    let operator2 = NeighborsUpUntilN::new(&numbers, 4);
    let vns = VariableNeighborhoodSearch::builder()
        .selector(
            SequentialSelector::new()
                .option(operator1)
                .option(operator2),
        )
        .terminator(IterationTerminator::new(iterations_max))
        .build();

    let initial_solution = Number::new(0, numbers[0]);
    let vns_solution = vns.optimize(initial_solution);

    assert_eq!(vns_solution.index(), 7)
}

#[test]
fn vns_timed_returns_same_solution() {
    let numbers = vec![9, 8, 7, 8, 9, 7, 5, 0];

    let operator = NeighborsUpUntilN::new(&numbers, 3);
    let vns = VariableNeighborhoodSearch::builder()
        .selector(SequentialSelector::new().option(operator))
        .terminator(IterationTerminator::new(10))
        .build();

    let outcome = vns.optimize_timed(Number::new(0, numbers[0]));
    assert_eq!(outcome.solution().index(), 6);
    let _elapsed = outcome.duration();
}

#[test]
fn vns_result_never_worse_than_initial() {
    let numbers = vec![4, 5, 6, 7];
    let operator = NeighborsUpUntilN::new(&numbers, 1);
    let vns = VariableNeighborhoodSearch::builder()
        .selector(SequentialSelector::new().option(operator))
        .terminator(IterationTerminator::new(5))
        .build();

    // Index 0 already is the global minimum: the best never regresses.
    let solution = vns.optimize(Number::new(0, numbers[0]));
    assert_eq!(solution.index(), 0);
}
