use vstd::prelude::*;
use vstd::hash_map::HashMapWithView;

verus! {

broadcast use vstd::std_specs::hash::group_hash_axioms;

/// An inclusive rectangle of integer grid cells, `min_x..=max_x` by
/// `min_y..=max_y`; empty where a minimum exceeds its maximum.
#[derive(Debug, Clone, Copy, PartialEq, Eq, Structural)]
pub struct CellRange {
    pub min_x: i32,
    pub max_x: i32,
    pub min_y: i32,
    pub max_y: i32,
}

/// Whether cell `(cx, cy)` lies in `r`.
pub open spec fn in_cells(r: CellRange, cx: int, cy: int) -> bool {
    r.min_x <= cx <= r.max_x && r.min_y <= cy <= r.max_y
}

/// Whether two cell rectangles have a cell in common.
pub open spec fn share_cell(a: CellRange, b: CellRange) -> bool {
    &&& a.min_x <= a.max_x && b.min_x <= b.max_x
    &&& a.min_y <= a.max_y && b.min_y <= b.max_y
    &&& a.min_x <= b.max_x && b.min_x <= a.max_x
    &&& a.min_y <= b.max_y && b.min_y <= a.max_y
}

/// Whether cell `(x, y)` lies in both rectangles.
pub open spec fn cell_in_both(a: CellRange, b: CellRange, x: i32, y: i32) -> bool {
    in_cells(a, x as int, y as int) && in_cells(b, x as int, y as int)
}

/// Hash-map key of a cell: the two coordinates' bit patterns side by side.
pub open spec fn cell_key(cx: i32, cy: i32) -> u64 {
    ((cx as u32 as u64) << 32u64) | (cy as u32 as u64)
}

pub open spec fn key_x(k: u64) -> i32 {
    (k >> 32u64) as u32 as i32
}

pub open spec fn key_y(k: u64) -> i32 {
    k as u32 as i32
}

proof fn lemma_key_coords(cx: i32, cy: i32)
    ensures
        key_x(cell_key(cx, cy)) == cx,
        key_y(cell_key(cx, cy)) == cy,
{
    let a = cx as u32;
    let b = cy as u32;
    assert((((a as u64) << 32u64) | (b as u64)) >> 32u64 == a as u64) by (bit_vector);
    assert((((a as u64) << 32u64) | (b as u64)) as u32 == b) by (bit_vector);
    assert(a as i32 == cx) by (bit_vector)
        requires
            a == cx as u32,
    ;
    assert(b as i32 == cy) by (bit_vector)
        requires
            b == cy as u32,
    ;
}

fn make_key(cx: i32, cy: i32) -> (k: u64)
    ensures
        k == cell_key(cx, cy),
        key_x(k) == cx,
        key_y(k) == cy,
{
    proof {
        lemma_key_coords(cx, cy);
    }
    ((cx as u32 as u64) << 32u64) | (cy as u32 as u64)
}

/// The indices stored under a key; empty for an absent key.
pub open spec fn bucket(m: Map<u64, Vec<usize>>, k: u64) -> Seq<usize> {
    if m.contains_key(k) {
        m[k]@
    } else {
        Seq::empty()
    }
}

/// A uniform grid over objects' cell rectangles: each cell holds the indices
/// of the objects whose rectangle covers it.
pub struct SpatialGrid {
    cells: HashMapWithView<u64, Vec<usize>>,
    ranges: Ghost<Seq<CellRange>>,
}

/// Every object is listed in every cell of its rectangle.
pub open spec fn grid_complete(m: Map<u64, Vec<usize>>, ranges: Seq<CellRange>, n: int) -> bool {
    forall|i: usize, cx: i32, cy: i32|
        i < n && in_cells(ranges[i as int], cx as int, cy as int) ==> #[trigger] bucket(
            m,
            cell_key(cx, cy),
        ).contains(i)
}

/// Every listed index is an object whose rectangle covers the cell.
pub open spec fn grid_sound(m: Map<u64, Vec<usize>>, ranges: Seq<CellRange>) -> bool {
    forall|k: u64, j: int|
        0 <= j < bucket(m, k).len() ==> (#[trigger] bucket(m, k)[j]) < ranges.len() && in_cells(
            ranges[bucket(m, k)[j] as int],
            key_x(k) as int,
            key_y(k) as int,
        )
}

/// Appends `idx` to the bucket under `k`.
fn add_to_cell(cells: &mut HashMapWithView<u64, Vec<usize>>, k: u64, idx: usize)
    ensures
        forall|k2: u64|
            #[trigger] bucket(final(cells)@, k2) == if k2 == k {
                bucket(old(cells)@, k).push(idx)
            } else {
                bucket(old(cells)@, k2)
            },
{
    let mut b = match cells.remove(&k) {
        Some(v) => v,
        None => Vec::new(),
    };
    b.push(idx);
    cells.insert(k, b);
    proof {
        assert forall|k2: u64| #[trigger]
            bucket(final(cells)@, k2) == if k2 == k {
                bucket(old(cells)@, k).push(idx)
            } else {
                bucket(old(cells)@, k2)
            } by {
            if k2 == k {
                assert(bucket(final(cells)@, k2) =~= bucket(old(cells)@, k).push(idx));
            }
        }
    }
}

proof fn lemma_push_contains(s: Seq<usize>, x: usize, y: usize)
    ensures
        s.contains(x) ==> s.push(y).contains(x),
        s.push(y).contains(y),
{
    if s.contains(x) {
        let j = choose|j: int| 0 <= j < s.len() && s[j] == x;
        assert(s.push(y)[j] == x);
    }
    assert(s.push(y)[s.len() as int] == y);
}

fn vec_contains(v: &Vec<usize>, x: usize) -> (b: bool)
    ensures
        b == v@.contains(x),
{
    let mut i: usize = 0;
    while i < v.len()
        invariant
            i <= v.len(),
            forall|j: int| 0 <= j < i ==> v@[j] != x,
        decreases v.len() - i,
    {
        if v[i] == x {
            return true;
        }
        i = i + 1;
    }
    false
}

/// Appends to `r` each index of `b` that it does not hold yet.
fn add_new_indices(r: &mut Vec<usize>, b: &Vec<usize>)
    requires
        old(r)@.no_duplicates(),
    ensures
        final(r)@.no_duplicates(),
        forall|i: usize| #[trigger]
            final(r)@.contains(i) <==> (old(r)@.contains(i) || b@.contains(i)),
{
    let ghost r0 = r@;
    let mut j: usize = 0;
    while j < b.len()
        invariant
            j <= b.len(),
            r@.no_duplicates(),
            forall|i: usize| #[trigger]
                r@.contains(i) <==> (r0.contains(i) || b@.take(j as int).contains(i)),
        decreases b.len() - j,
    {
        let x = b[j];
        let ghost before = r@;
        if !vec_contains(r, x) {
            r.push(x);
            proof {
                assert forall|i: usize| #[trigger] r@.contains(i) <==> (before.contains(i) || i == x) by {
                    lemma_push_contains(before, i, x);
                    if r@.contains(i) && i != x {
                        let k = choose|k: int| 0 <= k < r@.len() && r@[k] == i;
                        assert(before[k] == i);
                    }
                }
            }
        }
        proof {
            let t0 = b@.take(j as int);
            let t1 = b@.take(j + 1);
            assert forall|i: usize| #[trigger] t1.contains(i) <==> (t0.contains(i) || i == x) by {
                if t1.contains(i) && i != x {
                    let k = choose|k: int| 0 <= k < t1.len() && t1[k] == i;
                    assert(t0[k] == i);
                }
                if t0.contains(i) {
                    let k = choose|k: int| 0 <= k < t0.len() && t0[k] == i;
                    assert(t1[k] == i);
                }
                if i == x {
                    assert(t1[j as int] == x);
                }
            }
        }
        j = j + 1;
    }
    proof {
        assert(b@.take(b.len() as int) =~= b@);
    }
}

impl SpatialGrid {
    /// The cell rectangle of each indexed object.
    pub closed spec fn cell_ranges(&self) -> Seq<CellRange> {
        self.ranges@
    }

    #[verifier::type_invariant]
    spec fn wf(&self) -> bool {
        &&& grid_complete(self.cells@, self.ranges@, self.ranges@.len() as int)
        &&& grid_sound(self.cells@, self.ranges@)
    }

    /// The objects that a query over `area` reports: those whose rectangle
    /// shares a cell with it.
    pub open spec fn hits(&self, area: CellRange) -> Set<usize> {
        Set::new(
            |i: usize| i < self.cell_ranges().len() && share_cell(self.cell_ranges()[i as int], area),
        )
    }

    /// Indexes objects by the cells that their rectangles cover; the object at
    /// position `i` of `ranges` gets index `i`.
    pub fn new(ranges: &Vec<CellRange>) -> (g: SpatialGrid)
        ensures
            g.cell_ranges() == ranges@,
    {
        let mut cells: HashMapWithView<u64, Vec<usize>> = HashMapWithView::new();
        let ghost rs = ranges@;
        let n = ranges.len();
        let mut idx: usize = 0;
        while idx < n
            invariant
                n == rs.len(),
                rs == ranges@,
                idx <= n,
                grid_complete(cells@, rs, idx as int),
                grid_sound(cells@, rs),
            decreases n - idx,
        {
            let r = ranges[idx];
            let mut cx: i64 = r.min_x as i64;
            while cx <= r.max_x as i64
                invariant
                    n == rs.len(),
                    idx < n,
                    r == rs[idx as int],
                    r.min_x <= cx <= r.max_x as i64 + 1 || cx == r.min_x,
                    grid_complete(cells@, rs, idx as int),
                    grid_sound(cells@, rs),
                    forall|x: i32, y: i32|
                        r.min_x <= x < cx && in_cells(r, x as int, y as int) ==> #[trigger] bucket(
                            cells@,
                            cell_key(x, y),
                        ).contains(idx),
                decreases r.max_x as i64 + 1 - cx,
            {
                let mut cy: i64 = r.min_y as i64;
                while cy <= r.max_y as i64
                    invariant
                        n == rs.len(),
                        idx < n,
                        r == rs[idx as int],
                        r.min_x <= cx <= r.max_x,
                        r.min_y <= cy <= r.max_y as i64 + 1 || cy == r.min_y,
                        grid_complete(cells@, rs, idx as int),
                        grid_sound(cells@, rs),
                        forall|x: i32, y: i32|
                            r.min_x <= x < cx && in_cells(r, x as int, y as int)
                                ==> #[trigger] bucket(cells@, cell_key(x, y)).contains(idx),
                        forall|y: i32|
                            r.min_y <= y < cy ==> #[trigger] bucket(
                                cells@,
                                cell_key(cx as i32, y),
                            ).contains(idx),
                    decreases r.max_y as i64 + 1 - cy,
                {
                    let k = make_key(cx as i32, cy as i32);
                    let ghost before = cells@;
                    add_to_cell(&mut cells, k, idx);
                    proof {
                        assert forall|k2: u64, x: usize|
                            bucket(before, k2).contains(x) implies #[trigger] bucket(
                                cells@,
                                k2,
                            ).contains(x) by {
                            lemma_push_contains(bucket(before, k2), x, idx);
                        }
                        lemma_push_contains(bucket(before, k), idx, idx);
                        assert forall|k2: u64, j: int|
                            0 <= j < bucket(cells@, k2).len() implies (#[trigger] bucket(
                                cells@,
                                k2,
                            )[j]) < rs.len() && in_cells(
                                rs[bucket(cells@, k2)[j] as int],
                                key_x(k2) as int,
                                key_y(k2) as int,
                            ) by {
                            if k2 == k && j == bucket(before, k).len() {
                            } else {
                                assert(bucket(cells@, k2)[j] == bucket(before, k2)[j]);
                            }
                        }
                    }
                    cy = cy + 1;
                }
                proof {
                    assert forall|x: i32, y: i32|
                        r.min_x <= x < cx + 1 && in_cells(r, x as int, y as int)
                            implies #[trigger] bucket(cells@, cell_key(x, y)).contains(idx) by {
                        if x as i64 == cx {
                            assert(cx as i32 == x);
                            assert(r.min_y <= y < cy);
                        }
                    }
                }
                cx = cx + 1;
            }
            proof {
                assert forall|i: usize, x: i32, y: i32|
                    i < idx + 1 && in_cells(rs[i as int], x as int, y as int) implies #[trigger] bucket(
                        cells@,
                        cell_key(x, y),
                    ).contains(i) by {
                    if i < idx {
                    } else {
                        assert(r.min_x <= x < cx);
                    }
                }
            }
            idx = idx + 1;
        }
        SpatialGrid { cells, ranges: Ghost(rs) }
    }

    /// The indices of the objects whose rectangle shares a cell with `area`,
    /// each once, in no particular order.
    pub fn query(&self, area: CellRange) -> (r: Vec<usize>)
        ensures
            r@.no_duplicates(),
            forall|i: usize| #[trigger] r@.contains(i) <==> self.hits(area).contains(i),
    {
        proof {
            use_type_invariant(self);
        }
        let ghost rs = self.ranges@;
        let mut r: Vec<usize> = Vec::new();
        let mut cx: i64 = area.min_x as i64;
        while cx <= area.max_x as i64
            invariant
                grid_complete(self.cells@, self.ranges@, self.ranges@.len() as int),
                grid_sound(self.cells@, self.ranges@),
                rs == self.ranges@,
                area.min_x <= cx <= area.max_x as i64 + 1 || cx == area.min_x,
                r@.no_duplicates(),
                forall|i: usize| #[trigger]
                    r@.contains(i) ==> i < rs.len() && share_cell(rs[i as int], area),
                forall|i: usize, x: i32, y: i32|
                    i < rs.len() && x < cx && #[trigger] cell_in_both(rs[i as int], area, x, y)
                        ==> r@.contains(i),
            decreases area.max_x as i64 + 1 - cx,
        {
            let mut cy: i64 = area.min_y as i64;
            while cy <= area.max_y as i64
                invariant
                    grid_complete(self.cells@, self.ranges@, self.ranges@.len() as int),
                    grid_sound(self.cells@, self.ranges@),
                    rs == self.ranges@,
                    area.min_x <= cx <= area.max_x,
                    area.min_y <= cy <= area.max_y as i64 + 1 || cy == area.min_y,
                    r@.no_duplicates(),
                    forall|i: usize| #[trigger]
                        r@.contains(i) ==> i < rs.len() && share_cell(rs[i as int], area),
                    forall|i: usize, x: i32, y: i32|
                        i < rs.len() && (x < cx || (x == cx && y < cy)) && #[trigger] cell_in_both(
                            rs[i as int],
                            area,
                            x,
                            y,
                        ) ==> r@.contains(i),
                decreases area.max_y as i64 + 1 - cy,
            {
                let k = make_key(cx as i32, cy as i32);
                let ghost before = r@;
                match self.cells.get(&k) {
                    Some(b) => {
                        add_new_indices(&mut r, b);
                        proof {
                            assert forall|i: usize| #[trigger]
                                r@.contains(i) implies i < rs.len() && share_cell(
                                rs[i as int],
                                area,
                            ) by {
                                if !before.contains(i) {
                                    let j = choose|j: int| 0 <= j < b@.len() && b@[j] == i;
                                    assert(bucket(self.cells@, k)[j] == b@[j]);
                                }
                            }
                        }
                    },
                    None => {},
                }
                proof {
                    assert forall|i: usize, x: i32, y: i32|
                        i < rs.len() && (x < cx || (x == cx && y < cy + 1)) && #[trigger] cell_in_both(
                            rs[i as int],
                            area,
                            x,
                            y,
                        ) implies r@.contains(i) by {
                        if x == cx && y == cy {
                            assert(in_cells(rs[i as int], x as int, y as int));
                            assert(bucket(self.cells@, cell_key(x, y)).contains(i));
                        } else {
                            assert(before.contains(i));
                        }
                    }
                }
                cy = cy + 1;
            }
            cx = cx + 1;
        }
        proof {
            assert forall|i: usize| #[trigger] r@.contains(i) <==> self.hits(area).contains(i) by {
                if self.hits(area).contains(i) {
                    let c = rs[i as int];
                    let x: i32 = if c.min_x > area.min_x {
                        c.min_x
                    } else {
                        area.min_x
                    };
                    let y: i32 = if c.min_y > area.min_y {
                        c.min_y
                    } else {
                        area.min_y
                    };
                    assert(cell_in_both(c, area, x, y));
                }
            }
        }
        r
    }
}

/// Completeness of the grid: every object whose cell rectangle shares a cell
/// with a query area is among the query's hits, whatever the area.
pub proof fn lemma_query_complete(g: &SpatialGrid, area: CellRange, i: usize)
    requires
        i < g.cell_ranges().len(),
        share_cell(g.cell_ranges()[i as int], area),
    ensures
        g.hits(area).contains(i),
{
}

} // verus!
