use redox_core::path::{NodeLink, SearchTree};
use redox_core::state::{Action, GameMode};
use redox_core::state::Action::{Idle, Press, Release};

fn chain(actions: &[Action]) -> (SearchTree, usize) {
    let mut t = SearchTree::new(false);
    let mut cur = 0usize;
    for a in actions {
        cur = t.push_child(cur, *a, GameMode::Cube).unwrap();
    }
    (t, cur)
}

#[test]
fn root_only_path_is_empty() {
    let t = SearchTree::new(false);
    assert_eq!(t.len(), 1);
    assert!(t.reconstruct_path(0).is_empty());
}

#[test]
fn idle_runs_are_merged() {
    let (t, end) = chain(&[Idle, Idle, Press, Idle, Idle, Idle, Release, Idle]);
    assert_eq!(
        t.reconstruct_path(end),
        vec![(Idle, 2), (Press, 1), (Idle, 3), (Release, 1), (Idle, 1)]
    );
}

#[test]
fn press_and_release_are_never_merged() {
    let (t, end) = chain(&[Press, Release, Press, Release]);
    assert_eq!(t.reconstruct_path(end), vec![(Press, 1), (Release, 1), (Press, 1), (Release, 1)]);
}

#[test]
fn flat_run_is_one_idle_entry() {
    let (t, end) = chain(&vec![Action::Idle; 478]);
    assert_eq!(t.reconstruct_path(end), vec![(Action::Idle, 478)]);
}

#[test]
fn no_two_consecutive_idle_entries() {
    let (t, end) = chain(&[Idle, Press, Idle, Release, Idle, Idle, Press, Release, Idle]);
    let p = t.reconstruct_path(end);
    for w in p.windows(2) {
        assert!(!(w[0].0 == Idle && w[1].0 == Idle));
    }
}

#[test]
fn replaying_entries_gives_the_ticks_back() {
    let ticks = [Idle, Idle, Press, Idle, Release, Idle, Idle, Idle, Press];
    let (t, end) = chain(&ticks);
    let mut replay = Vec::new();
    for (a, n) in t.reconstruct_path(end) {
        replay.push(a);
        for _ in 1..n {
            replay.push(Idle);
        }
    }
    assert_eq!(replay, ticks.to_vec());
}

#[test]
fn branches_keep_their_own_paths() {
    let mut t = SearchTree::new(false);
    let a = t.push_child(0, Idle, GameMode::Cube).unwrap();
    let b = t.push_child(0, Press, GameMode::Cube).unwrap();
    let c = t.push_child(a, Idle, GameMode::Cube).unwrap();
    let d = t.push_child(b, Release, GameMode::Cube).unwrap();
    assert_eq!(t.reconstruct_path(c), vec![(Idle, 2)]);
    assert_eq!(t.reconstruct_path(d), vec![(Press, 1), (Release, 1)]);
    assert_eq!(
        t.link(d),
        NodeLink { parent_index: Some(b), action: Some(Release), pressing: false, cost: 34 }
    );
    assert!(t.link(b).pressing);
}

#[test]
fn refuses_actions_outside_the_automaton() {
    let mut t = SearchTree::new(false);
    assert_eq!(t.push_child(0, Release, GameMode::Cube), None);
    assert_eq!(t.push_child(5, Idle, GameMode::Cube), None);
    let p = t.push_child(0, Press, GameMode::Cube).unwrap();
    assert_eq!(t.push_child(p, Press, GameMode::Cube), None);
    assert_eq!(t.len(), 2);
    assert_eq!(t.push_child(p, Release, GameMode::Cube), Some(2));
}

#[test]
fn press_is_followed_by_release_before_next_press() {
    let (t, end) = chain(&[Press, Idle, Idle, Release, Idle, Press, Idle]);
    let p = t.reconstruct_path(end);
    let mut held = false;
    for (a, _) in p {
        match a {
            Press => {
                assert!(!held);
                held = true;
            }
            Release => {
                assert!(held);
                held = false;
            }
            Idle => {}
        }
    }
}

#[test]
fn costs_accumulate_in_half_ticks() {
    let mut t = SearchTree::new(false);
    assert_eq!(t.link(0).cost, 0);
    let a = t.push_child(0, Idle, GameMode::Cube).unwrap();
    let b = t.push_child(a, Press, GameMode::Cube).unwrap();
    let c = t.push_child(b, Idle, GameMode::Ship).unwrap();
    let d = t.push_child(0, Press, GameMode::Ship).unwrap();
    assert_eq!(t.link(a).cost, 2);
    assert_eq!(t.link(b).cost, 34);
    assert_eq!(t.link(c).cost, 36);
    assert_eq!(t.link(d).cost, 3);
    for i in 1..t.len() {
        let l = t.link(i);
        let p = l.parent_index.unwrap();
        assert!(p < i);
        assert!(t.link(p).cost < l.cost);
    }
}
