use redox_core::open_set::{NodeIndexWrapper, OpenSet};

fn e(f_key: u32, x_key: u32, index: usize) -> NodeIndexWrapper {
    NodeIndexWrapper { f_key, x_key, index }
}

#[test]
fn empty_set_pops_nothing() {
    let mut o = OpenSet::new();
    assert!(o.is_empty());
    assert_eq!(o.pop(), None);
}

#[test]
fn lowest_f_leaves_first() {
    let mut o = OpenSet::new();
    for (i, f) in [50u32, 10, 40, 20, 30, 60, 0].iter().enumerate() {
        o.push(e(*f, 0, i));
    }
    assert_eq!(o.len(), 7);
    let mut fs = Vec::new();
    while let Some(x) = o.pop() {
        fs.push(x.f_key);
    }
    assert_eq!(fs, vec![0, 10, 20, 30, 40, 50, 60]);
}

#[test]
fn ties_prefer_higher_x_then_later_index() {
    let mut o = OpenSet::new();
    o.push(e(5, 1, 0));
    o.push(e(5, 9, 1));
    o.push(e(5, 9, 2));
    o.push(e(4, 0, 3));
    assert_eq!(o.pop(), Some(e(4, 0, 3)));
    assert_eq!(o.pop(), Some(e(5, 9, 2)));
    assert_eq!(o.pop(), Some(e(5, 9, 1)));
    assert_eq!(o.pop(), Some(e(5, 1, 0)));
    assert_eq!(o.pop(), None);
}

#[test]
fn interleaved_pushes_and_pops_keep_order() {
    let mut o = OpenSet::new();
    let mut reference: Vec<NodeIndexWrapper> = Vec::new();
    let mut seed: u32 = 12345;
    for i in 0..500usize {
        seed = seed.wrapping_mul(1103515245).wrapping_add(12345);
        let entry = e(seed % 97, (seed >> 8) % 13, i);
        o.push(entry);
        reference.push(entry);
        if i % 3 == 2 {
            reference.sort_by(|a, b| {
                a.f_key.cmp(&b.f_key).then(b.x_key.cmp(&a.x_key)).then(b.index.cmp(&a.index))
            });
            assert_eq!(o.pop(), Some(reference.remove(0)));
        }
    }
    assert_eq!(o.len(), reference.len());
}
