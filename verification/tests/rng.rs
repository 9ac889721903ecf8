use heuristics::rng::Rng;

#[test]
fn scripted_source_replays_then_returns_zero() {
    let mut rng = Rng::from_script(vec![5, 6]);
    assert_eq!(rng.next_u64(), 5);
    assert_eq!(rng.next_u64(), 6);
    assert_eq!(rng.next_u64(), 0);
    assert_eq!(rng.next_u64(), 0);
}

#[test]
fn below_reduces_modulo() {
    let mut rng = Rng::from_script(vec![10, 11, 12]);
    assert_eq!(rng.below(4), 2);
    assert_eq!(rng.below(4), 3);
    assert_eq!(rng.below(4), 0);
}

#[test]
fn seeded_sources_with_equal_seeds_agree() {
    let mut a = Rng::from_seed(42);
    let mut b = Rng::from_seed(42);
    for _ in 0..16 {
        assert_eq!(a.next_u64(), b.next_u64());
    }
}

#[test]
fn seeded_source_produces_varied_draws() {
    let mut rng = Rng::from_seed(0);
    let first = rng.next_u64();
    let mut all_equal = true;
    for _ in 0..8 {
        if rng.next_u64() != first {
            all_equal = false;
        }
    }
    assert!(!all_equal);
}

#[test]
fn seeds_differ_streams_differ() {
    let mut a = Rng::from_seed(1);
    let mut b = Rng::from_seed(2);
    let mut some_difference = false;
    for _ in 0..8 {
        if a.next_u64() != b.next_u64() {
            some_difference = true;
        }
    }
    assert!(some_difference);
}
