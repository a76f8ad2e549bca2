use swc_bundler_util::clone_map::{CHashSet, CloneMap};
use swc_bundler_util::shared_map::{SharedCloneMap, SharedHashSet};

enum Op {
    Get(u32),
    Insert(u32, String),
}

fn script() -> Vec<Op> {
    vec![
        Op::Get(1),
        Op::Insert(1, String::from("a")),
        Op::Get(1),
        Op::Insert(2, String::from("b")),
        Op::Insert(1, String::from("c")),
        Op::Get(1),
        Op::Get(2),
        Op::Get(3),
        Op::Insert(2, String::from("d")),
        Op::Get(2),
    ]
}

#[test]
fn clone_map_get_and_insert() {
    let mut m: CloneMap<u32, String> = CloneMap::default();
    assert_eq!(m.get(&1), None);
    assert_eq!(m.insert(1, String::from("x")), None);
    assert_eq!(m.get(&1), Some(String::from("x")));
    assert_eq!(m.insert(1, String::from("y")), Some(String::from("x")));
    assert_eq!(m.get(&1), Some(String::from("y")));
    assert_eq!(m.get(&2), None);
}

#[test]
fn shared_map_get_and_insert() {
    let m: SharedCloneMap<u32, String> = SharedCloneMap::default();
    assert_eq!(m.get(&1), None);
    assert_eq!(m.insert(1, String::from("x")), None);
    assert_eq!(m.get(&1), Some(String::from("x")));
    assert_eq!(m.insert(1, String::from("y")), Some(String::from("x")));
    assert_eq!(m.get(&1), Some(String::from("y")));
    assert_eq!(m.get(&2), None);
}

#[test]
fn both_backends_replay_alike() {
    let mut seq: CloneMap<u32, String> = CloneMap::new();
    let shared: SharedCloneMap<u32, String> = SharedCloneMap::new();
    let mut from_seq = Vec::new();
    let mut from_shared = Vec::new();
    for op in script() {
        match op {
            Op::Get(k) => {
                from_seq.push(seq.get(&k));
                from_shared.push(shared.get(&k));
            }
            Op::Insert(k, v) => {
                from_seq.push(seq.insert(k, v.clone()));
                from_shared.push(shared.insert(k, v));
            }
        }
    }
    assert_eq!(from_seq, from_shared);
    assert_eq!(
        from_seq,
        vec![
            None,
            None,
            Some(String::from("a")),
            None,
            Some(String::from("a")),
            Some(String::from("c")),
            Some(String::from("b")),
            None,
            Some(String::from("b")),
            Some(String::from("d")),
        ]
    );
}

#[test]
fn set_insert_reports_new_elements() {
    let mut s: CHashSet<u64> = CHashSet::default();
    assert!(s.insert(5));
    assert!(!s.insert(5));
    assert!(s.insert(6));
    assert!(!s.insert(6));
    assert!(!s.insert(5));
}

#[test]
fn shared_set_insert_reports_new_elements() {
    let s: SharedHashSet<u64> = SharedHashSet::default();
    assert!(s.insert(5));
    assert!(!s.insert(5));
    assert!(s.insert(6));
    assert!(!s.insert(6));
    assert!(!s.insert(5));
}

#[test]
fn shared_map_from_two_threads() {
    let m: SharedCloneMap<u32, u32> = SharedCloneMap::new();
    swc_bundler_util::tasks::par_join(
        || {
            for i in 0..100 {
                m.insert(i, i);
            }
        },
        || {
            for i in 100..200 {
                m.insert(i, i);
            }
        },
    );
    for i in 0..200 {
        assert_eq!(m.get(&i), Some(i));
    }
}
