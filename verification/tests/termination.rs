use heuristics::termination::{
    AndTerminator, Criterion, IterationTerminator, OrTerminator, TerminationCriteria, Terminator,
};

#[test]
fn iteration_terminator_fires_on_exactly_the_nth_call() {
    let mut t = IterationTerminator::new(3);
    assert!(!t.terminate(&0i64));
    assert!(!t.terminate(&0i64));
    assert!(t.terminate(&0i64));
    // The counter is a one-way ratchet: it keeps reporting termination.
    assert!(t.terminate(&0i64));
}

#[test]
fn iteration_terminator_with_zero_budget_fires_immediately() {
    let mut t = IterationTerminator::new(0);
    assert!(t.terminate(&0i64));
}

#[test]
fn or_terminator_trips_at_the_minimum() {
    let mut t = OrTerminator::new(vec![
        Criterion::Iterations(IterationTerminator::new(2)),
        Criterion::Iterations(IterationTerminator::new(5)),
    ]);
    assert!(!t.terminate(&0i64));
    assert!(t.terminate(&0i64));
    assert!(t.terminate(&0i64));
}

#[test]
fn and_terminator_trips_at_the_maximum() {
    let mut t = AndTerminator::new(vec![
        Criterion::Iterations(IterationTerminator::new(2)),
        Criterion::Iterations(IterationTerminator::new(5)),
    ]);
    assert!(!t.terminate(&0i64));
    assert!(!t.terminate(&0i64));
    assert!(!t.terminate(&0i64));
    assert!(!t.terminate(&0i64));
    assert!(t.terminate(&0i64));
}

#[test]
fn builder_aggregates_with_any_by_default() {
    let mut t = Terminator::builder().iterations(1).iterations(4).build();
    assert!(t.terminate(&0i64));
}

#[test]
fn builder_aggregates_with_all_when_asked() {
    let mut t = Terminator::builder().iterations(1).iterations(4).all().build();
    assert!(!t.terminate(&0i64));
    assert!(!t.terminate(&0i64));
    assert!(!t.terminate(&0i64));
    assert!(t.terminate(&0i64));
}

#[test]
fn builder_accepts_prebuilt_criteria() {
    let mut t = Terminator::builder()
        .criterium(Criterion::Iterations(IterationTerminator::new(2)))
        .build();
    assert!(!t.terminate(&0i64));
    assert!(t.terminate(&0i64));
}

#[test]
fn time_terminator_fires_once_the_deadline_passed() {
    let mut t = heuristics::termination::TimeTerminator::new(core::time::Duration::from_secs(0));
    // The deadline was now: the very first poll is already at or past it.
    assert!(t.terminate(&0i64));
}

#[test]
fn or_with_time_limit_still_counts_iterations() {
    let mut t = Terminator::builder()
        .time_max(core::time::Duration::from_secs(3600))
        .iterations(2)
        .build();
    assert!(!t.terminate(&0i64));
    assert!(t.terminate(&0i64));
}
