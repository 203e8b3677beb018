use vstd::prelude::*;
use vstd::multiset::Multiset;

verus! {

broadcast use vstd::seq_lib::group_to_multiset_ensures;

/// An open-set entry: a node index with its priority keys. `f_key` and
/// `x_key` are order-preserving integer images of the node's f-score and x.
#[derive(Debug, Clone, Copy, PartialEq, Eq, Structural)]
pub struct NodeIndexWrapper {
    pub f_key: u32,
    pub x_key: u32,
    pub index: usize,
}

/// Whether `a` leaves the open set before `b`: lower f first, then higher x,
/// then the later insertion.
pub open spec fn pops_before(a: NodeIndexWrapper, b: NodeIndexWrapper) -> bool {
    a.f_key < b.f_key || (a.f_key == b.f_key && (a.x_key > b.x_key || (a.x_key == b.x_key
        && a.index > b.index)))
}

/// `a` leaves no later than `b`.
pub open spec fn no_later(a: NodeIndexWrapper, b: NodeIndexWrapper) -> bool {
    !pops_before(b, a)
}

pub open spec fn parent(i: int) -> int {
    (i - 1) / 2
}

/// Every entry leaves no earlier than its parent in the binary tree laid out
/// in the sequence.
pub open spec fn heap_ordered(s: Seq<NodeIndexWrapper>) -> bool {
    forall|i: int| 0 < i < s.len() ==> no_later(s[parent(i)], #[trigger] s[i])
}

fn before(a: NodeIndexWrapper, b: NodeIndexWrapper) -> (r: bool)
    ensures
        r == pops_before(a, b),
{
    a.f_key < b.f_key || (a.f_key == b.f_key && (a.x_key > b.x_key || (a.x_key == b.x_key
        && a.index > b.index)))
}

proof fn lemma_no_later_trans(a: NodeIndexWrapper, b: NodeIndexWrapper, c: NodeIndexWrapper)
    requires
        no_later(a, b),
        no_later(b, c),
    ensures
        no_later(a, c),
{
}

/// The root of a heap-ordered sequence leaves no later than any entry.
proof fn lemma_root_first(s: Seq<NodeIndexWrapper>, i: int)
    requires
        heap_ordered(s),
        0 <= i < s.len(),
    ensures
        no_later(s[0], s[i]),
    decreases i,
{
    if i > 0 {
        lemma_root_first(s, parent(i));
        lemma_no_later_trans(s[0], s[parent(i)], s[i]);
    }
}

proof fn lemma_swap_multiset(s: Seq<NodeIndexWrapper>, i: int, j: int)
    requires
        0 <= i < s.len(),
        0 <= j < s.len(),
    ensures
        s.update(i, s[j]).update(j, s[i]).to_multiset() == s.to_multiset(),
{
    broadcast use vstd::multiset::group_multiset_axioms;

    let t = s.update(i, s[j]);
    vstd::seq_lib::to_multiset_update(s, i, s[j]);
    vstd::seq_lib::to_multiset_update(t, j, s[i]);
    if i == j {
        assert(t.update(j, s[i]) =~= s);
    } else {
        assert(t[j] == s[j]);
        assert(t.update(j, s[i]).to_multiset() =~= s.to_multiset());
    }
}

fn swap_entries(v: &mut Vec<NodeIndexWrapper>, i: usize, j: usize)
    requires
        i < old(v)@.len(),
        j < old(v)@.len(),
    ensures
        final(v)@ == old(v)@.update(i as int, old(v)@[j as int]).update(j as int, old(v)@[i as int]),
        final(v)@.to_multiset() == old(v)@.to_multiset(),
{
    proof {
        lemma_swap_multiset(v@, i as int, j as int);
    }
    let a = v[i];
    let b = v[j];
    v.set(i, b);
    v.set(j, a);
}

/// The open set of a search: a binary min-heap of entries under `pops_before`.
pub struct OpenSet {
    heap: Vec<NodeIndexWrapper>,
}

impl View for OpenSet {
    type V = Multiset<NodeIndexWrapper>;

    closed spec fn view(&self) -> Multiset<NodeIndexWrapper> {
        self.heap@.to_multiset()
    }
}

impl OpenSet {
    #[verifier::type_invariant]
    spec fn wf(&self) -> bool {
        heap_ordered(self.heap@)
    }

    pub fn new() -> (o: OpenSet)
        ensures
            o@ == Multiset::<NodeIndexWrapper>::empty(),
    {
        let o = OpenSet { heap: Vec::new() };
        proof {
            broadcast use vstd::multiset::group_multiset_axioms;

            assert(o.heap@.to_multiset() =~= Multiset::<NodeIndexWrapper>::empty());
        }
        o
    }

    pub fn len(&self) -> (n: usize)
        ensures
            n == self@.len(),
    {
        self.heap.len()
    }

    pub fn is_empty(&self) -> (b: bool)
        ensures
            b == (self@.len() == 0),
    {
        self.heap.len() == 0
    }

    /// Adds an entry.
    pub fn push(&mut self, e: NodeIndexWrapper)
        ensures
            final(self)@ == old(self)@.insert(e),
    {
        proof {
            use_type_invariant(&*self);
        }
        let mut heap: Vec<NodeIndexWrapper> = Vec::new();
        std::mem::swap(&mut heap, &mut self.heap);
        heap_push(&mut heap, e);
        std::mem::swap(&mut heap, &mut self.heap);
    }

    /// Removes and returns the entry that leaves first (`None` when empty):
    /// lowest f, then highest x, then latest insertion.
    pub fn pop(&mut self) -> (r: Option<NodeIndexWrapper>)
        ensures
            old(self)@.len() == 0 ==> r is None && final(self)@ == old(self)@,
            old(self)@.len() > 0 ==> (r matches Some(e) && old(self)@.contains(e) && final(self)@
                == old(self)@.remove(e) && forall|x: NodeIndexWrapper| #[trigger]
                old(self)@.contains(x) ==> no_later(e, x)),
    {
        proof {
            use_type_invariant(&*self);
        }
        let mut heap: Vec<NodeIndexWrapper> = Vec::new();
        std::mem::swap(&mut heap, &mut self.heap);
        let r = heap_pop(&mut heap);
        std::mem::swap(&mut heap, &mut self.heap);
        r
    }
}

/// Adds an entry to a heap-ordered vector.
fn heap_push(v: &mut Vec<NodeIndexWrapper>, e: NodeIndexWrapper)
    requires
        heap_ordered(old(v)@),
    ensures
        heap_ordered(final(v)@),
        final(v)@.to_multiset() == old(v)@.to_multiset().insert(e),
{
    v.push(e);
    let mut k: usize = v.len() - 1;
    while k > 0
        invariant
            0 <= k < v@.len(),
            v@.to_multiset() == old(v)@.to_multiset().insert(e),
            forall|i: int|
                0 < i < v@.len() && i != k ==> no_later(
                    v@[parent(i)],
                    #[trigger] v@[i],
                ),
            forall|c: int|
                0 < k && 0 < c < v@.len() && parent(c) == k ==> no_later(
                    v@[parent(k as int)],
                    #[trigger] v@[c],
                ),
        ensures
            heap_ordered(v@),
            v@.to_multiset() == old(v)@.to_multiset().insert(e),
        decreases k,
    {
        let p = (k - 1) / 2;
        if !before(v[k], v[p]) {
            break;
        }
        let ghost s = v@;
        swap_entries(v, k, p);
        proof {
            let t = v@;
            assert forall|i: int| 0 < i < t.len() && i != p implies no_later(
                t[parent(i)],
                #[trigger] t[i],
            ) by {
                if i == k {
                } else if parent(i) == k {
                    lemma_no_later_trans(s[k as int], s[p as int], s[i]);
                } else if parent(i) == p {
                    lemma_no_later_trans(s[k as int], s[p as int], s[i]);
                } else if p > 0 && i == p {
                }
            }
            assert forall|c: int| 0 < p && 0 < c < t.len() && parent(c) == p implies no_later(
                t[parent(p as int)],
                #[trigger] t[c],
            ) by {
                if c == k {
                    assert(no_later(s[parent(p as int)], s[p as int]));
                } else {
                    assert(no_later(s[parent(p as int)], s[p as int]));
                    lemma_no_later_trans(s[parent(p as int)], s[p as int], s[c]);
                }
            }
        }
        k = p;
    }
}

/// Removes and returns the first entry of a heap-ordered vector.
fn heap_pop(v: &mut Vec<NodeIndexWrapper>) -> (r: Option<NodeIndexWrapper>)
    requires
        heap_ordered(old(v)@),
    ensures
        heap_ordered(final(v)@),
        old(v)@.to_multiset().len() == 0 ==> r is None && final(v)@.to_multiset() == old(v)@.to_multiset(),
        old(v)@.to_multiset().len() > 0 ==> (r matches Some(e) && old(v)@.to_multiset().contains(e) && final(v)@.to_multiset()
            == old(v)@.to_multiset().remove(e) && forall|x: NodeIndexWrapper| #[trigger]
            old(v)@.to_multiset().contains(x) ==> no_later(e, x)),
{
    broadcast use vstd::multiset::group_multiset_axioms;

    let n = v.len();
    if n == 0 {
        return None;
    }
    let ghost s0 = v@;
    let top = v[0];
    proof {
        assert forall|x: NodeIndexWrapper| #[trigger] s0.to_multiset().contains(x) implies no_later(
            top,
            x,
        ) by {
            assert(s0.contains(x));
            let i = choose|i: int| 0 <= i < s0.len() && s0[i] == x;
            lemma_root_first(s0, i);
        }
        assert(s0[0] == top);
        assert(s0.contains(top));
    }
    let last = match v.pop() {
        Some(l) => l,
        None => top,
    };
    proof {
        assert(s0 =~= v@.push(last));
    }
    if v.len() == 0 {
        proof {
            assert(v@.to_multiset() =~= s0.to_multiset().remove(top));
        }
        return Some(top);
    }
    v.set(0, last);
    proof {
        let d = s0.drop_last();
        vstd::seq_lib::to_multiset_update(d, 0, last);
        assert(d.to_multiset() =~= s0.to_multiset().remove(last));
        assert(v@.to_multiset() =~= s0.to_multiset().remove(top));
    }
    let m = v.len();
    let mut k: usize = 0;
    loop
        invariant
            m == v@.len(),
            k < m,
            v@.to_multiset() == s0.to_multiset().remove(top),
            forall|i: int|
                0 < i < m && parent(i) != k ==> no_later(
                    v@[parent(i)],
                    #[trigger] v@[i],
                ),
            forall|c: int|
                0 < k && 0 < c < m && parent(c) == k ==> no_later(
                    v@[parent(k as int)],
                    #[trigger] v@[c],
                ),
        ensures
            heap_ordered(v@),
            v@.to_multiset() == s0.to_multiset().remove(top),
        decreases m - k,
    {
        if k >= m / 2 {
            break;
        }
        let l = 2 * k + 1;
        let mut c = l;
        if l + 1 < m && before(v[l + 1], v[l]) {
            c = l + 1;
        }
        if !before(v[c], v[k]) {
            proof {
                assert forall|i: int| 0 < i < m && parent(i) == k implies no_later(
                    v@[parent(i)],
                    #[trigger] v@[i],
                ) by {
                    assert(i == l || i == l + 1);
                }
            }
            break;
        }
        let ghost t = v@;
        swap_entries(v, k, c);
        proof {
            let u = v@;
            assert forall|i: int| 0 < i < m && parent(i) != c implies no_later(
                u[parent(i)],
                #[trigger] u[i],
            ) by {
                if i == c {
                } else if parent(i) == k {
                    assert(i == l || i == l + 1);
                } else if i == k {
                    assert(no_later(t[parent(k as int)], t[c as int]));
                }
            }
            assert forall|j: int| 0 < c && 0 < j < m && parent(j) == c implies no_later(
                u[parent(c as int)],
                #[trigger] u[j],
            ) by {
                assert(no_later(t[c as int], t[j]));
            }
        }
        k = c;
    }
    Some(top)
}

/// Entries leave in priority order: after a pop, every entry still in the set
/// (pushed before that pop) leaves no earlier than the popped one, so a run of
/// pops with no push between them comes out in `no_later` order.
pub proof fn lemma_pops_in_order(m: Multiset<NodeIndexWrapper>, first: NodeIndexWrapper, next: NodeIndexWrapper)
    requires
        m.contains(first),
        forall|x: NodeIndexWrapper| #[trigger] m.contains(x) ==> no_later(first, x),
        m.remove(first).contains(next),
    ensures
        no_later(first, next),
{
    broadcast use vstd::multiset::group_multiset_axioms;

    assert(m.contains(next));
}

} // verus!
