use vstd::prelude::*;
use crate::state::{Action, GameMode, pressing_after, action_allowed, step_cost, tick_cost};

verus! {

/// How a search node was reached: its parent, the action applied to the
/// parent, the press state that resulted, and the accumulated search cost in
/// half ticks.
#[derive(Debug, Clone, Copy, PartialEq, Eq, Structural)]
pub struct NodeLink {
    pub parent_index: Option<usize>,
    pub action: Option<Action>,
    pub pressing: bool,
    pub cost: u64,
}

/// The actions on the way from the root to node `i`, one per tick.
pub open spec fn actions_to(links: Seq<NodeLink>, i: int) -> Seq<Action>
    decreases i,
{
    if 0 <= i < links.len() {
        match links[i].parent_index {
            Some(p) => if p < i {
                match links[i].action {
                    Some(a) => actions_to(links, p as int).push(a),
                    None => actions_to(links, p as int),
                }
            } else {
                Seq::empty()
            },
            None => Seq::empty(),
        }
    } else {
        Seq::empty()
    }
}

/// The root that node `i` descends from.
pub open spec fn root_of(links: Seq<NodeLink>, i: int) -> int
    decreases i,
{
    if 0 <= i < links.len() {
        match links[i].parent_index {
            Some(p) => if p < i {
                root_of(links, p as int)
            } else {
                i
            },
            None => i,
        }
    } else {
        i
    }
}

/// Press state after a run of actions from press state `p`.
pub open spec fn pressing_after_all(p: bool, s: Seq<Action>) -> bool
    decreases s.len(),
{
    if s.len() == 0 {
        p
    } else {
        pressing_after(pressing_after_all(p, s.drop_last()), s.last())
    }
}

/// Whether every action of `s`, started from press state `p`, is one that the
/// input automaton admits.
pub open spec fn follows_automaton(p: bool, s: Seq<Action>) -> bool
    decreases s.len(),
{
    if s.len() == 0 {
        true
    } else {
        follows_automaton(p, s.drop_last()) && action_allowed(
            pressing_after_all(p, s.drop_last()),
            s.last(),
        )
    }
}

/// Run-length encoding of a tick sequence: consecutive `Idle` ticks merge into
/// one entry with their count; every other action is an entry of one tick.
pub open spec fn run_lengths(s: Seq<Action>) -> Seq<(Action, nat)>
    decreases s.len(),
{
    if s.len() == 0 {
        Seq::empty()
    } else {
        let r = run_lengths(s.drop_last());
        if s.last() == Action::Idle && r.len() > 0 && r.last().0 == Action::Idle {
            r.update(r.len() - 1, (Action::Idle, r.last().1 + 1))
        } else {
            r.push((s.last(), 1nat))
        }
    }
}

/// The ticks of one entry: its action, then `Idle` for the rest of its duration.
pub open spec fn expand_entry(e: (Action, nat)) -> Seq<Action> {
    Seq::new(e.1, |k: int| if k == 0 { e.0 } else { Action::Idle })
}

/// The tick sequence that replaying a list of entries issues.
pub open spec fn expand(r: Seq<(Action, nat)>) -> Seq<Action>
    decreases r.len(),
{
    if r.len() == 0 {
        Seq::empty()
    } else {
        expand(r.drop_last()) + expand_entry(r.last())
    }
}

pub open spec fn entries_view(v: Seq<(Action, usize)>) -> Seq<(Action, nat)> {
    v.map_values(|e: (Action, usize)| (e.0, e.1 as nat))
}

/// Whether `push_child(parent, action, mode)` appends: the parent exists,
/// admits the action, and the child's cost fits in a `u64`.
pub open spec fn can_push(links: Seq<NodeLink>, parent: usize, action: Action, mode: GameMode) -> bool {
    &&& parent < links.len()
    &&& action_allowed(links[parent as int].pressing, action)
    &&& links[parent as int].cost + tick_cost(mode, action) <= u64::MAX
}

/// An append-only arena of search nodes' links.
pub struct SearchTree {
    links: Vec<NodeLink>,
}

/// Links in which every parent precedes its child and costs less, every child
/// carries the action that led to it, that action is admitted from the
/// parent's press state, and the child's press state is its result.
pub open spec fn links_wf(links: Seq<NodeLink>) -> bool {
    forall|i: int|
        0 <= i < links.len() ==> match (#[trigger] links[i]).parent_index {
            Some(p) => {
                &&& p < i
                &&& links[p as int].cost < links[i].cost
                &&& links[i].action is Some
                &&& action_allowed(links[p as int].pressing, links[i].action->0)
                &&& links[i].pressing == pressing_after(
                    links[p as int].pressing,
                    links[i].action->0,
                )
            },
            None => links[i].action is None,
        }
}

impl View for SearchTree {
    type V = Seq<NodeLink>;

    closed spec fn view(&self) -> Seq<NodeLink> {
        self.links@
    }
}

impl SearchTree {
    #[verifier::type_invariant]
    spec fn wf(&self) -> bool {
        links_wf(self.links@)
    }

    /// A tree holding one root, index 0, with the given press state and no cost.
    pub fn new(pressing: bool) -> (t: SearchTree)
        ensures
            t@ == seq![NodeLink { parent_index: None, action: None, pressing, cost: 0 }],
            links_wf(t@),
    {
        let mut links: Vec<NodeLink> = Vec::new();
        links.push(NodeLink { parent_index: None, action: None, pressing, cost: 0 });
        let t = SearchTree { links };
        proof {
            assert(t@ =~= seq![NodeLink { parent_index: None, action: None, pressing, cost: 0 }]);
        }
        t
    }

    pub fn len(&self) -> (n: usize)
        ensures
            n == self@.len(),
    {
        self.links.len()
    }

    pub fn link(&self, i: usize) -> (l: NodeLink)
        requires
            i < self@.len(),
        ensures
            l == self@[i as int],
    {
        self.links[i]
    }

    /// Appends a child of `parent` reached by `action` in `mode` and returns
    /// its index; the child's cost is the parent's plus the tick's cost in that
    /// mode. Refuses (returning `None`, the tree unchanged) a parent that is not
    /// in the tree, an action that the parent's press state does not admit, or
    /// a cost past `u64::MAX`.
    pub fn push_child(&mut self, parent: usize, action: Action, mode: GameMode) -> (r: Option<usize>)
        ensures
            links_wf(final(self)@),
            can_push(old(self)@, parent, action, mode) ==> r == Some(old(self)@.len() as usize)
                && final(self)@ == old(self)@.push(
                NodeLink {
                    parent_index: Some(parent),
                    action: Some(action),
                    pressing: pressing_after(old(self)@[parent as int].pressing, action),
                    cost: (old(self)@[parent as int].cost + tick_cost(mode, action)) as u64,
                },
            ),
            !can_push(old(self)@, parent, action, mode) ==> r is None && final(self)@ == old(
                self,
            )@,
    {
        proof {
            use_type_invariant(&*self);
        }
        if parent >= self.links.len() {
            return None;
        }
        let pl = self.links[parent];
        let pressing = pl.pressing;
        let allowed = match action {
            Action::Idle => true,
            Action::Press => !pressing,
            Action::Release => pressing,
        };
        if !allowed {
            return None;
        }
        let c = step_cost(mode, action);
        if pl.cost > u64::MAX - c {
            return None;
        }
        let next_pressing = match action {
            Action::Idle => pressing,
            Action::Press => true,
            Action::Release => false,
        };
        let idx = self.links.len();
        let link = NodeLink {
            parent_index: Some(parent),
            action: Some(action),
            pressing: next_pressing,
            cost: pl.cost + c,
        };
        proof {
            let old_links = self@;
            let new_links = old_links.push(link);
            assert forall|i: int| 0 <= i < new_links.len() implies match (
            #[trigger] new_links[i]).parent_index {
                Some(p) => {
                    &&& p < i
                    &&& new_links[p as int].cost < new_links[i].cost
                    &&& new_links[i].action is Some
                    &&& action_allowed(new_links[p as int].pressing, new_links[i].action->0)
                    &&& new_links[i].pressing == pressing_after(
                        new_links[p as int].pressing,
                        new_links[i].action->0,
                    )
                },
                None => new_links[i].action is None,
            } by {
                if i < idx {
                    assert(new_links[i] == old_links[i]);
                }
            }
        }
        let mut links: Vec<NodeLink> = Vec::new();
        std::mem::swap(&mut links, &mut self.links);
        links.push(link);
        std::mem::swap(&mut links, &mut self.links);
        Some(idx)
    }

    /// The replay of the path from the root to node `end`: one entry per
    /// action, in order, with each run of consecutive `Idle` ticks merged into
    /// one entry; the second component is the duration in ticks.
    pub fn reconstruct_path(&self, end: usize) -> (r: Vec<(Action, usize)>)
        requires
            end < self@.len(),
        ensures
            entries_view(r@) == run_lengths(actions_to(self@, end as int)),
            entries_well_shaped(entries_view(r@)),
            links_wf(self@),
    {
        proof {
            use_type_invariant(self);
            lemma_run_lengths_shape(actions_to(self@, end as int));
        }
        let ghost links = self@;
        let mut rev: Vec<Action> = Vec::new();
        let ghost mut suffix: Seq<Action> = Seq::empty();
        let mut cur: usize = end;
        loop
            invariant_except_break
                cur < links.len(),
            invariant
                links == self@,
                links_wf(links),
                end < links.len(),
                rev.len() == suffix.len(),
                forall|k: int| 0 <= k < suffix.len() ==> suffix[k] == rev@[rev.len() - 1 - k],
                actions_to(links, end as int) == actions_to(links, cur as int) + suffix,
            ensures
                actions_to(links, end as int) == suffix,
            decreases cur,
        {
            let l = self.links[cur];
            assert(l == links[cur as int]);
            match l.parent_index {
                Some(p) => {
                    let a = match l.action {
                        Some(a) => a,
                        None => Action::Idle,
                    };
                    rev.push(a);
                    proof {
                        assert(actions_to(links, cur as int) == actions_to(links, p as int).push(a));
                        assert(actions_to(links, p as int).push(a) + suffix =~= actions_to(
                            links,
                            p as int,
                        ) + seq![a].add(suffix));
                        suffix = seq![a].add(suffix);
                    }
                    cur = p;
                },
                None => {
                    proof {
                        assert(actions_to(links, cur as int) + suffix =~= suffix);
                    }
                    break;
                },
            }
        }
        let n = rev.len();
        let mut out: Vec<(Action, usize)> = Vec::new();
        let mut t: usize = 0;
        while t < n
            invariant
                n == rev.len(),
                n == suffix.len(),
                t <= n,
                forall|k: int| 0 <= k < suffix.len() ==> suffix[k] == rev@[rev.len() - 1 - k],
                entries_view(out@) == run_lengths(suffix.take(t as int)),
                forall|k: int| 0 <= k < out@.len() ==> (#[trigger] out@[k]).1 <= t,
            decreases n - t,
        {
            let a = rev[n - 1 - t];
            let ghost pre = suffix.take(t as int);
            proof {
                assert(suffix.take(t + 1).drop_last() =~= pre);
                assert(suffix.take(t + 1).last() == a);
            }
            let m = out.len();
            if a == Action::Idle && m > 0 && out[m - 1].0 == Action::Idle {
                let c = out[m - 1].1;
                proof {
                    assert(out@[m - 1].1 <= t);
                }
                out.set(m - 1, (Action::Idle, c + 1));
                proof {
                    assert(entries_view(out@) =~= run_lengths(pre).update(
                        m - 1,
                        (Action::Idle, run_lengths(pre).last().1 + 1),
                    ));
                }
            } else {
                out.push((a, 1));
                proof {
                    assert(entries_view(out@) =~= run_lengths(pre).push((a, 1nat)));
                }
            }
            t = t + 1;
        }
        proof {
            assert(suffix.take(n as int) =~= suffix);
        }
        out
    }
}

/// The actions of a list of entries, one per entry.
pub open spec fn entry_actions(r: Seq<(Action, nat)>) -> Seq<Action> {
    r.map_values(|e: (Action, nat)| e.0)
}

/// No two consecutive `Idle` entries; every entry lasts at least one tick,
/// and every entry other than `Idle` exactly one.
pub open spec fn entries_well_shaped(r: Seq<(Action, nat)>) -> bool {
    &&& forall|i: int, j: int|
        0 <= i && j == i + 1 && j < r.len() ==> !(#[trigger] r[i].0 == Action::Idle
            && #[trigger] r[j].0 == Action::Idle)
    &&& forall|i: int| 0 <= i < r.len() ==> (#[trigger] r[i]).1 >= 1
    &&& forall|i: int| 0 <= i < r.len() && (#[trigger] r[i]).0 != Action::Idle ==> r[i].1 == 1
}

/// A run-length encoded path never holds two consecutive `Idle` entries;
/// every entry lasts at least one tick, and every entry other than `Idle`
/// exactly one.
pub proof fn lemma_run_lengths_shape(s: Seq<Action>)
    ensures
        entries_well_shaped(run_lengths(s)),
    decreases s.len(),
{
    if s.len() > 0 {
        let rest = s.drop_last();
        lemma_run_lengths_shape(rest);
        let r0 = run_lengths(rest);
        let r = run_lengths(s);
        if s.last() == Action::Idle && r0.len() > 0 && r0.last().0 == Action::Idle {
            let r1 = r0.update(r0.len() - 1, (Action::Idle, r0.last().1 + 1));
            assert(r == r1);
            assert(entries_well_shaped(r1)) by {
                assert forall|i: int| 0 <= i < r1.len() implies #[trigger] r1[i].0 == r0[i].0 && (i
                    < r1.len() - 1 ==> r1[i] == r0[i]) by {}
            }
        } else {
            let r1 = r0.push((s.last(), 1nat));
            assert(r == r1);
            assert(entries_well_shaped(r1)) by {
                assert forall|i: int| 0 <= i < r0.len() implies #[trigger] r1[i] == r0[i] by {}
            }
        }
    }
}

/// Replaying the encoded path, each entry's action at its first tick and
/// `Idle` on the rest, issues exactly the tick sequence it encodes.
pub proof fn lemma_replay_round_trip(s: Seq<Action>)
    ensures
        expand(run_lengths(s)) == s,
    decreases s.len(),
{
    if s.len() > 0 {
        let rest = s.drop_last();
        lemma_replay_round_trip(rest);
        let r0 = run_lengths(rest);
        if s.last() == Action::Idle && r0.len() > 0 && r0.last().0 == Action::Idle {
            let r = run_lengths(s);
            let c = r0.last().1;
            assert(r.drop_last() =~= r0.drop_last());
            assert(expand_entry((Action::Idle, c + 1)) =~= expand_entry((Action::Idle, c)).push(
                Action::Idle,
            ));
            assert(expand(r0) == expand(r0.drop_last()) + expand_entry(r0.last()));
            assert(expand(r) =~= expand(r0).push(Action::Idle));
            assert(rest.push(Action::Idle) =~= s);
        } else {
            let r = run_lengths(s);
            assert(r.drop_last() =~= r0);
            assert(expand_entry((s.last(), 1nat)) =~= seq![s.last()]);
            assert(rest + seq![s.last()] =~= s);
        }
    }
}

/// Every path of a well-formed tree follows the input automaton from its
/// root's press state, and ends in the press state of its last node.
pub proof fn lemma_path_follows_automaton(links: Seq<NodeLink>, i: int)
    requires
        links_wf(links),
        0 <= i < links.len(),
    ensures
        0 <= root_of(links, i) < links.len(),
        follows_automaton(links[root_of(links, i)].pressing, actions_to(links, i)),
        pressing_after_all(links[root_of(links, i)].pressing, actions_to(links, i))
            == links[i].pressing,
    decreases i,
{
    let l = links[i];
    match l.parent_index {
        Some(p) => {
            lemma_path_follows_automaton(links, p as int);
            let s = actions_to(links, i);
            assert(s.drop_last() =~= actions_to(links, p as int));
        },
        None => {},
    }
}

/// Merging `Idle` runs keeps what the automaton sees: the entries' actions
/// follow it whenever the ticks do, and end in the same press state.
proof fn lemma_entries_follow_automaton(p: bool, s: Seq<Action>)
    ensures
        pressing_after_all(p, entry_actions(run_lengths(s))) == pressing_after_all(p, s),
        follows_automaton(p, s) ==> follows_automaton(p, entry_actions(run_lengths(s))),
    decreases s.len(),
{
    if s.len() > 0 {
        let rest = s.drop_last();
        lemma_entries_follow_automaton(p, rest);
        let r0 = run_lengths(rest);
        let r = run_lengths(s);
        if s.last() == Action::Idle && r0.len() > 0 && r0.last().0 == Action::Idle {
            assert(entry_actions(r) =~= entry_actions(r0));
        } else {
            assert(entry_actions(r).drop_last() =~= entry_actions(r0));
        }
    }
}

/// Every prefix of an admitted sequence is admitted, and each next action is
/// admitted from the press state that the prefix leaves.
proof fn lemma_automaton_prefix(p: bool, s: Seq<Action>, m: int)
    requires
        follows_automaton(p, s),
        0 <= m < s.len(),
    ensures
        follows_automaton(p, s.take(m)),
        action_allowed(pressing_after_all(p, s.take(m)), s[m]),
    decreases s.len(),
{
    if m == s.len() - 1 {
        assert(s.take(m) =~= s.drop_last());
    } else {
        lemma_automaton_prefix(p, s.drop_last(), m);
        assert(s.drop_last().take(m) =~= s.take(m));
    }
}

/// A press holds through the `Idle` ticks that follow it.
proof fn lemma_pressed_until(p: bool, s: Seq<Action>, i: int, k: int)
    requires
        0 <= i < k <= s.len(),
        s[i] == Action::Press,
        forall|t: int| i < t < k ==> s[t] == Action::Idle,
    ensures
        pressing_after_all(p, s.take(k)),
    decreases k - i,
{
    assert(s.take(k).drop_last() =~= s.take(k - 1));
    if k > i + 1 {
        lemma_pressed_until(p, s, i, k - 1);
    }
}

/// In an admitted sequence, the first action other than `Idle` after a
/// `Press` is a `Release`.
proof fn lemma_press_then_release(p: bool, s: Seq<Action>, i: int, j: int)
    requires
        follows_automaton(p, s),
        0 <= i < j < s.len(),
        s[i] == Action::Press,
        s[j] != Action::Idle,
        forall|k: int| i < k < j ==> s[k] == Action::Idle,
    ensures
        s[j] == Action::Release,
{
    lemma_pressed_until(p, s, i, j);
    lemma_automaton_prefix(p, s, j);
}

/// In an emitted path, every entry between a `Press` and the next entry that
/// is not `Idle` is `Idle`, and that next entry is a `Release`: the input
/// automaton holds of the replay.
pub proof fn lemma_emitted_press_release(links: Seq<NodeLink>, end: int, i: int, j: int)
    requires
        links_wf(links),
        0 <= end < links.len(),
        0 <= i < j < run_lengths(actions_to(links, end)).len(),
        run_lengths(actions_to(links, end))[i].0 == Action::Press,
        run_lengths(actions_to(links, end))[j].0 != Action::Idle,
        forall|k: int|
            i < k < j ==> #[trigger] run_lengths(actions_to(links, end))[k].0 == Action::Idle,
    ensures
        run_lengths(actions_to(links, end))[j].0 == Action::Release,
{
    let s = actions_to(links, end);
    let p = links[root_of(links, end)].pressing;
    lemma_path_follows_automaton(links, end);
    lemma_entries_follow_automaton(p, s);
    let e = entry_actions(run_lengths(s));
    assert forall|k: int| i < k < j implies e[k] == Action::Idle by {
        assert(run_lengths(s)[k].0 == Action::Idle);
    }
    lemma_press_then_release(p, e, i, j);
}

/// Every node's parent, when it has one, has a lower index and a lower cost.
pub proof fn lemma_parent_precedes(links: Seq<NodeLink>, i: int)
    requires
        links_wf(links),
        0 <= i < links.len(),
    ensures
        links[i].parent_index matches Some(p) ==> p < i && links[p as int].cost < links[i].cost,
{
}

} // verus!
