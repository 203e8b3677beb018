use redox_core::closed::ClosedSet;
use redox_core::state::StateKey;

#[test]
fn first_visit_expands_and_records() {
    let mut c = ClosedSet::new();
    assert_eq!(c.len(), 0);
    assert!(c.visit(StateKey(7), 10));
    assert_eq!(c.len(), 1);
}

#[test]
fn costlier_revisit_is_pruned_beyond_half_a_tick() {
    let mut c = ClosedSet::new();
    assert!(c.visit(StateKey(7), 10));
    assert!(!c.visit(StateKey(7), 12));
    // Within one half tick the state is expanded again.
    assert!(c.visit(StateKey(7), 11));
    // The recorded cost is now 11: 12 passes, 13 is pruned.
    assert!(c.visit(StateKey(7), 12));
    assert!(!c.visit(StateKey(7), 14));
    // A cheaper revisit always expands.
    assert!(c.visit(StateKey(7), 3));
    assert!(!c.visit(StateKey(7), 5));
    assert!(c.visit(StateKey(8), 100));
    assert_eq!(c.len(), 2);
}

#[test]
fn extreme_costs_do_not_overflow() {
    let mut c = ClosedSet::new();
    assert!(c.visit(StateKey(u128::MAX), u64::MAX));
    assert!(c.visit(StateKey(u128::MAX), u64::MAX));
    assert!(c.visit(StateKey(u128::MAX), 0));
    assert!(!c.visit(StateKey(u128::MAX), u64::MAX));
}
