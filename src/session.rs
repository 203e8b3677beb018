use vstd::prelude::*;
use vstd::multiset::Multiset;
use crate::closed::{ClosedSet, pruned};
use crate::open_set::{NodeIndexWrapper, OpenSet, no_later};
use crate::path::{NodeLink, SearchTree, can_push, links_wf};
use crate::state::{Action, GameMode, pressing_after, tick_cost, StateKey, stagnation_check_due};

verus! {

/// What popping the open set gave.
#[derive(Debug, Clone, Copy, PartialEq, Eq, Structural)]
pub enum PopOutcome {
    /// The open set was empty.
    Exhausted,
    /// The popped node reached the goal; the search is over.
    Goal(usize),
    /// The popped node is to be checked against the closed set and expanded.
    Expand(usize),
}

/// The bookkeeping of one weighted A* search: the node arena, the open and
/// closed sets, the expansion count, the furthest node popped so far, the
/// stagnation checkpoint and the end result. Positions and f-scores enter as
/// order-preserving integer keys.
pub struct SearchSession {
    tree: SearchTree,
    open_set: OpenSet,
    closed_set: ClosedSet,
    nodes_expanded: usize,
    goal_reached_index: Option<usize>,
    best_x_index: usize,
    best_x_key: u32,
    checkpoint_best_index: usize,
    checkpoint_nodes: usize,
}

impl SearchSession {
    #[verifier::type_invariant]
    spec fn inv(&self) -> bool {
        &&& forall|e: NodeIndexWrapper| #[trigger]
            self.open_set@.contains(e) ==> e.index < self.tree@.len()
        &&& self.best_x_index < self.tree@.len()
        &&& self.checkpoint_best_index < self.tree@.len()
        &&& self.goal_reached_index matches Some(g) ==> g < self.tree@.len()
        &&& self.checkpoint_nodes <= self.nodes_expanded
    }

    pub closed spec fn links(&self) -> Seq<NodeLink> {
        self.tree@
    }

    pub closed spec fn open(&self) -> Multiset<NodeIndexWrapper> {
        self.open_set@
    }

    pub closed spec fn closed(&self) -> Map<u128, u64> {
        self.closed_set@
    }

    pub closed spec fn expanded(&self) -> nat {
        self.nodes_expanded as nat
    }

    pub closed spec fn goal(&self) -> Option<usize> {
        self.goal_reached_index
    }

    pub closed spec fn best(&self) -> (usize, u32) {
        (self.best_x_index, self.best_x_key)
    }

    pub closed spec fn checkpoint(&self) -> (usize, nat) {
        (self.checkpoint_best_index, self.checkpoint_nodes as nat)
    }

    /// A session whose arena and open set hold the start node, index 0,
    /// with the given press state and keys.
    pub fn new(pressing: bool, f_key: u32, x_key: u32) -> (s: SearchSession)
        ensures
            s.links() == seq![NodeLink { parent_index: None, action: None, pressing, cost: 0 }],
            s.open() == Multiset::<NodeIndexWrapper>::empty().insert(
                NodeIndexWrapper { f_key, x_key, index: 0 },
            ),
            s.closed() == Map::<u128, u64>::empty(),
            s.expanded() == 0,
            s.goal() is None,
            s.best() == (0usize, x_key),
            s.checkpoint() == (0usize, 0nat),
    {
        let tree = SearchTree::new(pressing);
        let mut open_set = OpenSet::new();
        open_set.push(NodeIndexWrapper { f_key, x_key, index: 0 });
        proof {
            broadcast use vstd::multiset::group_multiset_axioms;

        }
        SearchSession {
            tree,
            open_set,
            closed_set: ClosedSet::new(),
            nodes_expanded: 0,
            goal_reached_index: None,
            best_x_index: 0,
            best_x_key: x_key,
            checkpoint_best_index: 0,
            checkpoint_nodes: 0,
        }
    }

    /// Whether the search is over: a result is set or nothing is left open.
    pub fn finished(&self) -> (b: bool)
        ensures
            b == (self.goal() is Some || self.open().len() == 0),
    {
        self.goal_reached_index.is_some() || self.open_set.is_empty()
    }

    /// Whether `interval` expansions have passed since the last checkpoint.
    pub fn progress_check_due(&self, interval: usize) -> (b: bool)
        ensures
            b == (self.expanded() >= self.checkpoint().1 + interval),
    {
        proof {
            use_type_invariant(self);
        }
        stagnation_check_due(self.nodes_expanded, self.checkpoint_nodes, interval)
    }

    /// Settles a due progress check. With enough progress since the
    /// checkpoint (`progressed`), the checkpoint moves to the current best
    /// node and count and the search goes on (`true`); without, the search
    /// stops at the best node so far (`false`).
    pub fn record_progress(&mut self, progressed: bool) -> (go_on: bool)
        ensures
            go_on == progressed,
            final(self).links() == old(self).links(),
            final(self).open() == old(self).open(),
            final(self).closed() == old(self).closed(),
            final(self).expanded() == old(self).expanded(),
            final(self).best() == old(self).best(),
            progressed ==> final(self).goal() == old(self).goal() && final(self).checkpoint() == (old(
                self,
            ).best().0, old(self).expanded()),
            !progressed ==> final(self).goal() == Some(old(self).best().0) && final(self).checkpoint()
                == old(self).checkpoint(),
    {
        proof {
            use_type_invariant(&*self);
        }
        if progressed {
            self.checkpoint_best_index = self.best_x_index;
            self.checkpoint_nodes = self.nodes_expanded;
        } else {
            self.goal_reached_index = Some(self.best_x_index);
        }
        progressed
    }

    /// Pops the next node, counts the expansion and keeps the furthest node
    /// (by x key; ties keep the earlier one). A node whose x key reaches
    /// `goal_x_key` ends the search as its result.
    pub fn pop_next(&mut self, goal_x_key: u32) -> (r: PopOutcome)
        requires
            old(self).expanded() < usize::MAX,
        ensures
            final(self).links() == old(self).links(),
            final(self).closed() == old(self).closed(),
            final(self).checkpoint() == old(self).checkpoint(),
            old(self).open().len() == 0 ==> r == PopOutcome::Exhausted && final(self).open()
                == old(self).open() && final(self).expanded() == old(self).expanded()
                && final(self).best() == old(self).best() && final(self).goal() == old(self).goal(),
            old(self).open().len() > 0 ==> exists|e: NodeIndexWrapper|
                {
                    &&& #[trigger] old(self).open().contains(e)
                    &&& forall|x: NodeIndexWrapper| #[trigger]
                        old(self).open().contains(x) ==> no_later(e, x)
                    &&& final(self).open() == old(self).open().remove(e)
                    &&& final(self).expanded() == old(self).expanded() + 1
                    &&& final(self).best() == if e.x_key > old(self).best().1 {
                        (e.index, e.x_key)
                    } else {
                        old(self).best()
                    }
                    &&& e.x_key >= goal_x_key ==> r == PopOutcome::Goal(e.index)
                        && final(self).goal() == Some(e.index)
                    &&& e.x_key < goal_x_key ==> r == PopOutcome::Expand(e.index)
                        && final(self).goal() == old(self).goal()
                    &&& e.index < old(self).links().len()
                },
    {
        proof {
            use_type_invariant(&*self);
        }
        let mut open = OpenSet::new();
        std::mem::swap(&mut open, &mut self.open_set);
        let popped = open.pop();
        proof {
            broadcast use vstd::multiset::group_multiset_axioms;

            assert forall|x: NodeIndexWrapper| #[trigger] open@.contains(x) implies x.index
                < self.tree@.len() by {
                if let Some(e) = popped {
                    assert(old(self).open().contains(x));
                }
            }
        }
        std::mem::swap(&mut open, &mut self.open_set);
        match popped {
            None => PopOutcome::Exhausted,
            Some(e) => {
                self.nodes_expanded = self.nodes_expanded + 1;
                if e.x_key > self.best_x_key {
                    self.best_x_key = e.x_key;
                    self.best_x_index = e.index;
                }
                if e.x_key >= goal_x_key {
                    self.goal_reached_index = Some(e.index);
                    PopOutcome::Goal(e.index)
                } else {
                    PopOutcome::Expand(e.index)
                }
            },
        }
    }

    /// Checks the popped node `index`, whose quantized state packs to `key`,
    /// against the closed set at the node's cost: `false` when pruned, else
    /// the cost is recorded and the node is to be expanded.
    pub fn visit(&mut self, index: usize, key: StateKey) -> (expand: bool)
        requires
            index < old(self).links().len(),
        ensures
            expand == !pruned(old(self).closed(), key.0, old(self).links()[index as int].cost),
            expand ==> final(self).closed() == old(self).closed().insert(
                key.0,
                old(self).links()[index as int].cost,
            ),
            !expand ==> final(self).closed() == old(self).closed(),
            final(self).links() == old(self).links(),
            final(self).open() == old(self).open(),
            final(self).expanded() == old(self).expanded(),
            final(self).goal() == old(self).goal(),
            final(self).best() == old(self).best(),
            final(self).checkpoint() == old(self).checkpoint(),
    {
        proof {
            use_type_invariant(&*self);
        }
        let cost = self.tree.link(index).cost;
        let mut closed = ClosedSet::new();
        std::mem::swap(&mut closed, &mut self.closed_set);
        let expand = closed.visit(key, cost);
        std::mem::swap(&mut closed, &mut self.closed_set);
        expand
    }

    /// Adds the child of `parent` reached by `action` in `mode` to the arena
    /// and the open set with the given keys, and returns its index; refuses
    /// (nothing changes) where the arena refuses the child.
    pub fn add_child(
        &mut self,
        parent: usize,
        action: Action,
        mode: GameMode,
        f_key: u32,
        x_key: u32,
    ) -> (r: Option<usize>)
        ensures
            can_push(old(self).links(), parent, action, mode) ==> r == Some(
                old(self).links().len() as usize,
            ) && final(self).links() == old(self).links().push(
                NodeLink {
                    parent_index: Some(parent),
                    action: Some(action),
                    pressing: pressing_after(old(self).links()[parent as int].pressing, action),
                    cost: (old(self).links()[parent as int].cost + tick_cost(mode, action)) as u64,
                },
            ) && final(self).open() == old(self).open().insert(
                NodeIndexWrapper { f_key, x_key, index: old(self).links().len() as usize },
            ),
            !can_push(old(self).links(), parent, action, mode) ==> r is None && final(self).links()
                == old(self).links() && final(self).open() == old(self).open(),
            final(self).closed() == old(self).closed(),
            final(self).expanded() == old(self).expanded(),
            final(self).goal() == old(self).goal(),
            final(self).best() == old(self).best(),
            final(self).checkpoint() == old(self).checkpoint(),
    {
        proof {
            use_type_invariant(&*self);
        }
        // The arena is moved out while it grows; the index fields and the
        // open set are parked meanwhile so that the session stays consistent.
        let best = self.best_x_index;
        let checkpoint = self.checkpoint_best_index;
        let goal = self.goal_reached_index;
        let mut open = OpenSet::new();
        std::mem::swap(&mut open, &mut self.open_set);
        self.best_x_index = 0;
        self.checkpoint_best_index = 0;
        self.goal_reached_index = None;
        let mut tree = SearchTree::new(false);
        std::mem::swap(&mut tree, &mut self.tree);
        let r = tree.push_child(parent, action, mode);
        std::mem::swap(&mut tree, &mut self.tree);
        self.best_x_index = best;
        self.checkpoint_best_index = checkpoint;
        self.goal_reached_index = goal;
        match r {
            Some(idx) => {
                let ghost before = open@;
                let entry = NodeIndexWrapper { f_key, x_key, index: idx };
                open.push(entry);
                proof {
                    broadcast use vstd::multiset::group_multiset_axioms;

                    assert forall|x: NodeIndexWrapper| #[trigger] open@.contains(x) implies x.index
                        < self.tree@.len() by {
                        if x != entry {
                            assert(before.contains(x));
                        }
                    }
                }
                std::mem::swap(&mut open, &mut self.open_set);
                Some(idx)
            },
            None => {
                std::mem::swap(&mut open, &mut self.open_set);
                None
            },
        }
    }

    pub fn nodes_expanded(&self) -> (n: usize)
        ensures
            n == self.expanded(),
    {
        self.nodes_expanded
    }

    pub fn goal_reached_index(&self) -> (g: Option<usize>)
        ensures
            g == self.goal(),
    {
        self.goal_reached_index
    }

    pub fn best_x_index(&self) -> (i: usize)
        ensures
            i == self.best().0,
            i < self.links().len(),
    {
        proof {
            use_type_invariant(self);
        }
        self.best_x_index
    }

    pub fn checkpoint_best_index(&self) -> (i: usize)
        ensures
            i == self.checkpoint().0,
            i < self.links().len(),
    {
        proof {
            use_type_invariant(self);
        }
        self.checkpoint_best_index
    }

    pub fn open_len(&self) -> (n: usize)
        ensures
            n == self.open().len(),
    {
        self.open_set.len()
    }

    pub fn node_count(&self) -> (n: usize)
        ensures
            n == self.links().len(),
            n >= 1,
    {
        proof {
            use_type_invariant(self);
        }
        self.tree.len()
    }

    pub fn link(&self, i: usize) -> (l: NodeLink)
        requires
            i < self.links().len(),
        ensures
            l == self.links()[i as int],
    {
        self.tree.link(i)
    }

    /// The replay of the path to node `end`, as `SearchTree::reconstruct_path`.
    pub fn reconstruct_path(&self, end: usize) -> (r: Vec<(Action, usize)>)
        requires
            end < self.links().len(),
        ensures
            crate::path::entries_view(r@) == crate::path::run_lengths(
                crate::path::actions_to(self.links(), end as int),
            ),
            links_wf(self.links()),
    {
        self.tree.reconstruct_path(end)
    }
}

} // verus!
