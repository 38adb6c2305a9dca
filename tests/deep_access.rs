use deep_entry::deep::DeepEntry;
use deep_entry::map_entry::entry_or_insert_with;
use deep_entry::map_entry::map_child;
use deep_entry::seq_entry::VecEntry;
use std::collections::HashMap;

#[derive(PartialEq, Eq, Hash, Debug)]
struct Animal(&'static str);

#[derive(PartialEq, Eq, Hash, Debug)]
struct Fruit(&'static str);

#[test]
fn counter_persists_across_resolutions() {
    let mut data: HashMap<Animal, Vec<HashMap<Fruit, usize>>> = HashMap::new();

    *data
        .deep_entry((Animal("pig"), (6, Fruit("apply"))))
        .or_default() += 1;

    assert_eq!(
        *data
            .deep_entry((Animal("pig"), (6, Fruit("apply"))))
            .or_insert(0),
        1
    );
}

#[test]
fn empty_root_gets_exactly_one_path() {
    let mut data: HashMap<u64, Vec<HashMap<u64, u32>>> = HashMap::new();
    *data.deep_entry((5, (3, 7))).or_insert(0) += 0;

    assert_eq!(data.len(), 1);
    let seq = &data[&5];
    assert_eq!(seq.len(), 4);
    for j in 0..3 {
        assert!(seq[j].is_empty());
    }
    assert_eq!(seq[3].len(), 1);
    assert_eq!(seq[3][&7], 0);
}

#[test]
fn second_resolution_sees_the_written_value() {
    let mut data: HashMap<u64, Vec<u32>> = HashMap::new();
    *data.deep_entry((1, 2)).or_insert(0) = 42;
    assert_eq!(*data.deep_entry((1, 2)).or_insert(0), 42);
    assert_eq!(data[&1], vec![0, 0, 42]);
}

#[test]
fn second_map_resolution_ignores_the_new_default() {
    let mut data: HashMap<u64, HashMap<u64, u32>> = HashMap::new();
    *data.deep_entry((9, 4)).or_insert(3) += 4;
    assert_eq!(*data.deep_entry((9, 4)).or_insert(100), 7);
}

#[test]
fn growth_fills_the_gap_with_defaults() {
    let mut v: Vec<u32> = vec![1, 2];
    *v.deep_entry(5).or_default() = 8;
    assert_eq!(v, vec![1, 2, 0, 0, 0, 8]);
}

#[test]
fn closure_fills_the_slot_and_defaults_fill_the_gap() {
    let mut v: Vec<u32> = vec![1, 2];
    let r = v.deep_entry(4).or_insert_with(|| 9);
    assert_eq!(*r, 9);
    assert_eq!(v, vec![1, 2, 0, 0, 9]);
}

#[test]
fn closure_runs_only_when_the_slot_is_missing() {
    let mut v: Vec<u32> = vec![1, 2];
    let mut runs: u32 = 0;
    assert_eq!(
        *v.deep_entry(1).or_insert_with(|| {
            runs += 1;
            5
        }),
        2
    );
    assert_eq!(runs, 0);
    assert_eq!(
        *v.deep_entry(3).or_insert_with(|| {
            runs += 1;
            5
        }),
        5
    );
    assert_eq!(runs, 1);
    assert_eq!(v, vec![1, 2, 0, 5]);
}

#[test]
fn explicit_value_goes_to_the_slot_only() {
    let mut v: Vec<u32> = vec![1, 2];
    let r = v.deep_entry(4).or_insert(7);
    assert_eq!(*r, 7);
    assert_eq!(v, vec![1, 2, 0, 0, 7]);
}

#[test]
fn growth_from_empty_to_index_zero() {
    let mut v: Vec<u32> = Vec::new();
    assert_eq!(*v.deep_entry(0).or_insert(5), 5);
    assert_eq!(v, vec![5]);
}

#[test]
fn index_in_bounds_keeps_length() {
    let mut v: Vec<u32> = vec![1, 2, 3];
    assert_eq!(*v.deep_entry(1).or_default(), 2);
    assert_eq!(*v.deep_entry(2).or_insert(40), 3);
    assert_eq!(*v.deep_entry(0).or_insert_with(|| 50), 1);
    assert_eq!(v, vec![1, 2, 3]);
}

#[test]
fn last_index_keeps_length() {
    let mut v: Vec<Vec<u8>> = vec![vec![1], vec![2]];
    v.deep_entry((1, 0)).or_insert(0);
    assert_eq!(v, vec![vec![1], vec![2]]);
}

#[test]
fn insert_leaves_other_keys_alone() {
    let mut m: HashMap<u64, u32> = HashMap::new();
    m.insert(1, 10);
    *m.deep_entry(2).or_insert(5) += 1;
    assert_eq!(m.len(), 2);
    assert_eq!(m[&1], 10);
    assert_eq!(m[&2], 6);
}

#[test]
fn nested_insert_leaves_other_keys_alone() {
    let mut m: HashMap<u64, Vec<u32>> = HashMap::new();
    m.insert(1, vec![4, 5]);
    *m.deep_entry((2, 1)).or_default() = 3;
    assert_eq!(m.len(), 2);
    assert_eq!(m[&1], vec![4, 5]);
    assert_eq!(m[&2], vec![0, 3]);
}

#[test]
fn sequence_of_sequences_grows_both_levels() {
    let mut v: Vec<Vec<u8>> = vec![vec![1]];
    *v.deep_entry((2, 1)).or_default() = 6;
    assert_eq!(v, vec![vec![1], vec![], vec![0, 6]]);
}

#[test]
fn map_child_creates_and_reuses_child() {
    let mut m: HashMap<u64, Vec<u32>> = HashMap::new();
    map_child(&mut m, 3).push(1);
    map_child(&mut m, 3).push(2);
    assert_eq!(m.len(), 1);
    assert_eq!(m[&3], vec![1, 2]);
}

#[test]
fn lazy_default_runs_only_when_vacant() {
    let mut m: HashMap<u64, u32> = HashMap::new();
    let mut runs: u32 = 0;
    *entry_or_insert_with(m.entry(1), || {
        runs += 1;
        11
    }) += 1;
    assert_eq!(runs, 1);
    let got = *entry_or_insert_with(m.entry(1), || {
        runs += 1;
        99
    });
    assert_eq!(got, 12);
    assert_eq!(runs, 1);
}

#[test]
fn vec_entry_built_by_hand() {
    let mut v: Vec<u32> = Vec::new();
    *VecEntry { v: &mut v, key: 2 }.or_default() = 4;
    assert_eq!(v, vec![0, 0, 4]);
}
