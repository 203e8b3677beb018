use redox_core::session::{PopOutcome, SearchSession};
use redox_core::state::{Action, GameMode, StateKey};

#[test]
fn new_session_holds_the_start_node() {
    let s = SearchSession::new(false, 100, 50);
    assert_eq!(s.node_count(), 1);
    assert_eq!(s.open_len(), 1);
    assert_eq!(s.nodes_expanded(), 0);
    assert_eq!(s.goal_reached_index(), None);
    assert_eq!(s.best_x_index(), 0);
    assert!(!s.finished());
}

#[test]
fn pops_expand_until_goal() {
    let mut s = SearchSession::new(false, 100, 50);
    assert_eq!(s.pop_next(1000), PopOutcome::Expand(0));
    assert_eq!(s.nodes_expanded(), 1);
    assert!(s.visit(0, StateKey(1)));
    let a = s.add_child(0, Action::Idle, GameMode::Cube, 90, 60).unwrap();
    let b = s.add_child(0, Action::Press, GameMode::Cube, 80, 55).unwrap();
    assert_eq!((a, b), (1, 2));
    assert_eq!(s.link(b).cost, 32);
    // Lower f first.
    assert_eq!(s.pop_next(1000), PopOutcome::Expand(b));
    assert_eq!(s.best_x_index(), b);
    assert_eq!(s.pop_next(60), PopOutcome::Goal(a));
    assert_eq!(s.goal_reached_index(), Some(a));
    assert_eq!(s.best_x_index(), a);
    assert!(s.finished());
    assert_eq!(s.reconstruct_path(a), vec![(Action::Idle, 1)]);
}

#[test]
fn exhausted_when_nothing_is_open() {
    let mut s = SearchSession::new(false, 1, 1);
    assert_eq!(s.pop_next(10), PopOutcome::Expand(0));
    assert!(s.finished());
    assert_eq!(s.pop_next(10), PopOutcome::Exhausted);
    assert_eq!(s.nodes_expanded(), 1);
}

#[test]
fn closed_set_prunes_costlier_revisits() {
    let mut s = SearchSession::new(false, 100, 50);
    assert_eq!(s.pop_next(1000), PopOutcome::Expand(0));
    assert!(s.visit(0, StateKey(9)));
    let a = s.add_child(0, Action::Idle, GameMode::Cube, 90, 60).unwrap();
    assert_eq!(s.pop_next(1000), PopOutcome::Expand(a));
    // Cost 2 half ticks against a recorded 0: pruned.
    assert!(!s.visit(a, StateKey(9)));
    assert!(s.visit(a, StateKey(10)));
}

#[test]
fn refused_children_change_nothing() {
    let mut s = SearchSession::new(false, 100, 50);
    assert_eq!(s.add_child(0, Action::Release, GameMode::Cube, 1, 1), None);
    assert_eq!(s.add_child(7, Action::Idle, GameMode::Cube, 1, 1), None);
    assert_eq!(s.node_count(), 1);
    assert_eq!(s.open_len(), 1);
}

#[test]
fn stagnation_stops_at_the_best_node() {
    let mut s = SearchSession::new(false, 100, 50);
    assert!(!s.progress_check_due(2));
    assert_eq!(s.pop_next(1000), PopOutcome::Expand(0));
    let a = s.add_child(0, Action::Idle, GameMode::Cube, 90, 70).unwrap();
    assert_eq!(s.pop_next(1000), PopOutcome::Expand(a));
    assert!(s.progress_check_due(2));
    assert!(s.record_progress(true));
    assert_eq!(s.checkpoint_best_index(), a);
    assert!(!s.progress_check_due(2));
    assert!(!s.record_progress(false));
    assert_eq!(s.goal_reached_index(), Some(a));
    assert!(s.finished());
}

#[test]
fn ties_on_x_keep_the_earlier_best() {
    let mut s = SearchSession::new(false, 100, 50);
    assert_eq!(s.pop_next(1000), PopOutcome::Expand(0));
    let a = s.add_child(0, Action::Idle, GameMode::Ship, 90, 50).unwrap();
    assert_eq!(s.pop_next(1000), PopOutcome::Expand(a));
    assert_eq!(s.best_x_index(), 0);
}
