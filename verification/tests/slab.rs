use async_spdk::slab::{Key, Slab};

#[test]
fn inserted_values_are_found_under_their_keys() {
    let mut slab: Slab<&str> = Slab::new();
    let a = slab.insert("a");
    let b = slab.insert("b");
    assert_ne!(a, b);
    assert_eq!(slab.get(a), Some(&"a"));
    assert_eq!(slab.get(b), Some(&"b"));
    assert!(slab.contains(a));
    assert_eq!(slab.slots(), 2);
}

#[test]
fn first_keys_count_up_from_position_zero() {
    let mut slab: Slab<u8> = Slab::new();
    assert_eq!(slab.insert(10), Key { index: 0, generation: 0 });
    assert_eq!(slab.insert(11), Key { index: 1, generation: 0 });
    assert_eq!(slab.insert(12), Key { index: 2, generation: 0 });
}

#[test]
fn removed_key_is_dead_for_good() {
    let mut slab: Slab<u32> = Slab::new();
    let old = slab.insert(1);
    assert_eq!(slab.remove(old), Some(1));
    assert_eq!(slab.remove(old), None);
    assert_eq!(slab.get(old), None);
    assert!(!slab.contains(old));
    let new = slab.insert(2);
    assert_ne!(old, new);
    assert_eq!(slab.get(old), None);
    assert_eq!(slab.get(new), Some(&2));
}

#[test]
fn freed_position_is_used_again_under_a_later_generation() {
    let mut slab: Slab<u32> = Slab::new();
    let first = slab.insert(1);
    let keep = slab.insert(2);
    slab.remove(first);
    let second = slab.insert(3);
    assert_eq!(second, Key { index: 0, generation: 1 });
    assert_eq!(slab.slots(), 2);
    assert_eq!(slab.get(keep), Some(&2));
    assert_eq!(slab.get(second), Some(&3));
}

#[test]
fn get_mut_changes_the_value_in_place() {
    let mut slab: Slab<Vec<u8>> = Slab::new();
    let key = slab.insert(vec![1]);
    slab.get_mut(key).unwrap().push(2);
    assert_eq!(slab.get(key), Some(&vec![1, 2]));
    assert!(slab.get_mut(Key { index: 5, generation: 0 }).is_none());
    assert!(slab.get_mut(Key { index: 0, generation: 3 }).is_none());
}

#[test]
fn key_at_names_the_live_key_of_a_position() {
    let mut slab: Slab<u32> = Slab::new();
    let a = slab.insert(1);
    let b = slab.insert(2);
    assert_eq!(slab.key_at(0), Some(a));
    assert_eq!(slab.key_at(1), Some(b));
    assert_eq!(slab.key_at(2), None);
    slab.remove(a);
    assert_eq!(slab.key_at(0), None);
    let c = slab.insert(3);
    assert_eq!(slab.key_at(0), Some(c));
}

#[test]
fn keys_of_one_position_never_repeat() {
    let mut slab: Slab<u32> = Slab::new();
    let mut key = slab.insert(0);
    // Walk the position through a few generations, then check that keys keep
    // moving forward and never repeat.
    let mut seen = vec![key];
    for round in 1..50u32 {
        assert_eq!(slab.remove(key), Some(round - 1));
        key = slab.insert(round);
        assert!(!seen.contains(&key));
        assert_eq!(key.index, 0);
        assert_eq!(key.generation, round as u64);
        seen.push(key);
    }
}
