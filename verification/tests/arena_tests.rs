use mat_engine::arena::Arena;
use mat_engine::arena::ArenaKey;

#[test]
fn insert_then_get_returns_the_value() {
    let mut arena: Arena<u32, 7> = Arena::new();
    let key = arena.insert(7);
    assert_eq!(arena.get(key), Some(&7));
    assert!(arena.has_key(key));
    assert_eq!(*arena.get_unwrap(key), 7);
}

#[test]
fn removed_key_never_resolves_to_a_later_value() {
    let mut arena: Arena<&'static str, 7> = Arena::new();
    let first = arena.insert("first");
    assert_eq!(arena.remove(first), Some("first"));
    let second = arena.insert("second");
    assert_eq!(first.index(), second.index());
    assert_ne!(first.generation(), second.generation());
    assert_ne!(first, second);
    assert_eq!(arena.get(first), None);
    assert!(!arena.has_key(first));
    assert_eq!(arena.get(second), Some(&"second"));
    assert_eq!(arena.remove(first), None);
    assert_eq!(arena.get(second), Some(&"second"));
}

#[test]
fn null_key_resolves_to_nothing() {
    let mut arena: Arena<u8, 7> = Arena::new();
    let key = arena.insert(1);
    assert_ne!(key, ArenaKey::null());
    assert_eq!(ArenaKey::default(), ArenaKey::null());
    assert_eq!(arena.get(ArenaKey::null()), None);
    assert_eq!(arena.remove(ArenaKey::default()), None);
}

#[test]
fn get_mut_changes_only_the_value_at_the_key() {
    let mut arena: Arena<u32, 7> = Arena::new();
    let a = arena.insert(1);
    let b = arena.insert(2);
    *arena.get_mut(a).unwrap() = 10;
    *arena.get_mut_unwrap(b) += 5;
    assert_eq!(arena.get(a), Some(&10));
    assert_eq!(arena.get(b), Some(&7));
    assert!(arena.get_mut(ArenaKey::null()).is_none());
}

#[test]
fn removal_keeps_the_other_values_in_dense_storage() {
    let mut arena: Arena<u32, 7> = Arena::new();
    let keys: Vec<ArenaKey> = (0..10).map(|v| arena.insert(v)).collect();
    assert_eq!(arena.remove(keys[3]), Some(3));
    assert_eq!(arena.remove(keys[0]), Some(0));
    assert_eq!(arena.remove(keys[9]), Some(9));
    for (v, key) in keys.iter().enumerate() {
        if v == 3 || v == 0 || v == 9 {
            assert_eq!(arena.get(*key), None);
        } else {
            assert_eq!(arena.get(*key), Some(&(v as u32)));
        }
    }
    let again = arena.insert(100);
    assert_eq!(arena.get(again), Some(&100));
    for key in &keys {
        assert_ne!(*key, again);
    }
}

#[test]
fn many_reuses_of_one_slot_give_distinct_keys() {
    let mut arena: Arena<u32, 7> = Arena::new();
    let mut seen: Vec<ArenaKey> = Vec::new();
    for round in 0..100u32 {
        let key = arena.insert(round);
        assert!(!seen.contains(&key));
        for old in &seen {
            assert_eq!(arena.get(*old), None);
        }
        assert_eq!(arena.remove(key), Some(round));
        seen.push(key);
    }
}

#[test]
fn key_of_an_arena_of_another_kind_resolves_to_nothing() {
    let mut apples: Arena<u32, 1> = Arena::new();
    let mut pears: Arena<u32, 2> = Arena::new();
    let apple = apples.insert(1);
    let pear = pears.insert(2);
    // Same slot, same generation, another kind.
    assert_eq!(apple.index(), pear.index());
    assert_eq!(apple.generation(), pear.generation());
    assert_eq!(apple.kind(), 1);
    assert_eq!(pear.kind(), 2);
    assert_ne!(apple, pear);
    assert_eq!(apples.get(pear), None);
    assert_eq!(pears.get(apple), None);
    assert!(!apples.has_key(pear));
    assert!(pears.get_mut(apple).is_none());
    assert_eq!(pears.remove(apple), None);
    assert_eq!(pears.get(pear), Some(&2));
    assert_eq!(apples.get(apple), Some(&1));
    assert_eq!(ArenaKey::null().kind(), 0);
}

#[test]
fn arena_agrees_with_a_plain_list_over_a_long_run() {
    let mut arena: Arena<u64, 9> = Arena::new();
    // Every key that was ever handed out, with the value that it should
    // resolve to, if any.
    let mut issued: Vec<(ArenaKey, Option<u64>)> = Vec::new();
    let mut seed: u64 = 0x9e37_79b9_7f4a_7c15;
    for step in 0..4000u64 {
        seed = seed.wrapping_mul(6364136223846793005).wrapping_add(1442695040888963407);
        let choice = (seed >> 33) % 3;
        if choice == 0 || issued.is_empty() {
            let key = arena.insert(step);
            assert!(issued.iter().all(|(old, _)| *old != key));
            issued.push((key, Some(step)));
        } else {
            let at = ((seed >> 17) as usize) % issued.len();
            let (key, expected) = issued[at];
            if choice == 1 {
                assert_eq!(arena.remove(key), expected);
                issued[at].1 = None;
            } else if let Some(value) = arena.get_mut(key) {
                *value += 1;
                issued[at].1 = expected.map(|v| v + 1);
            } else {
                assert_eq!(expected, None);
            }
        }
        if step % 97 == 0 {
            for (key, expected) in &issued {
                assert_eq!(arena.get(*key), expected.as_ref());
                assert_eq!(arena.has_key(*key), expected.is_some());
            }
        }
    }
    for (key, expected) in &issued {
        assert_eq!(arena.get(*key), expected.as_ref());
    }
}
