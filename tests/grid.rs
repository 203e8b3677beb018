use redox_core::spatial_grid::{CellRange, SpatialGrid};

fn r(min_x: i32, max_x: i32, min_y: i32, max_y: i32) -> CellRange {
    CellRange { min_x, max_x, min_y, max_y }
}

fn sorted(mut v: Vec<usize>) -> Vec<usize> {
    v.sort();
    v
}

#[test]
fn query_reports_objects_sharing_a_cell() {
    let g = SpatialGrid::new(&vec![r(0, 0, 0, 0), r(0, 2, 0, 0), r(5, 6, -3, -1), r(-2, -1, 4, 4)]);
    assert_eq!(sorted(g.query(r(0, 0, 0, 0))), vec![0, 1]);
    assert_eq!(sorted(g.query(r(2, 5, -1, 0))), vec![1, 2]);
    assert_eq!(sorted(g.query(r(-10, 10, -10, 10))), vec![0, 1, 2, 3]);
    assert!(g.query(r(3, 4, 0, 0)).is_empty());
}

#[test]
fn query_lists_each_object_once() {
    let g = SpatialGrid::new(&vec![r(0, 3, 0, 3)]);
    assert_eq!(g.query(r(0, 3, 0, 3)), vec![0]);
}

#[test]
fn empty_grid_and_empty_area() {
    let g = SpatialGrid::new(&vec![]);
    assert!(g.query(r(0, 1, 0, 1)).is_empty());
    let g = SpatialGrid::new(&vec![r(0, 0, 0, 0)]);
    assert!(g.query(r(1, 0, 0, 0)).is_empty());
}

#[test]
fn every_overlapping_object_is_found() {
    let mut ranges = Vec::new();
    for i in 0..20 {
        ranges.push(r(i, i + (i % 3), -i, -i + 2));
    }
    let g = SpatialGrid::new(&ranges);
    let area = r(4, 9, -8, -3);
    let hits = g.query(area);
    for (i, c) in ranges.iter().enumerate() {
        let overlaps = c.min_x <= area.max_x
            && area.min_x <= c.max_x
            && c.min_y <= area.max_y
            && area.min_y <= c.max_y;
        assert_eq!(hits.contains(&i), overlaps, "object {}", i);
    }
}

#[test]
fn extreme_cells_do_not_overflow() {
    let g = SpatialGrid::new(&vec![r(i32::MAX - 1, i32::MAX, i32::MIN, i32::MIN + 1)]);
    assert_eq!(g.query(r(i32::MAX, i32::MAX, i32::MIN, i32::MIN)), vec![0]);
}
