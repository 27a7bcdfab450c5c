use signal_hook::vec_map::VecMap;

#[test]
fn vec_map_new_is_empty() {
    let m: VecMap<i32, u8> = VecMap::new();
    assert!(m.is_empty());
    assert_eq!(m.len(), 0);
    assert!(!m.contains(&1));
    assert_eq!(m.get(&1), None);
}

#[test]
fn vec_map_insert_then_get() {
    let mut m: VecMap<i32, &str> = VecMap::new();
    assert_eq!(m.insert(3, "three"), None);
    assert_eq!(m.insert(5, "five"), None);
    assert_eq!(m.get(&3), Some(&"three"));
    assert_eq!(m.get(&5), Some(&"five"));
    assert_eq!(m.get(&4), None);
    assert!(m.contains(&5));
    assert!(!m.is_empty());
}

#[test]
fn vec_map_overwrite_returns_old_and_keeps_order() {
    let mut m: VecMap<u64, u32> = VecMap::new();
    m.insert(1, 10);
    m.insert(2, 20);
    m.insert(3, 30);
    assert_eq!(m.insert(2, 21), Some(20));
    assert_eq!(m.len(), 3);
    let keys: Vec<u64> = (0..m.len()).map(|i| *m.entry(i).0).collect();
    assert_eq!(keys, vec![1, 2, 3]);
    let values: Vec<u32> = m.values().into_iter().copied().collect();
    assert_eq!(values, vec![10, 21, 30]);
}

#[test]
fn vec_map_remove() {
    let mut m: VecMap<i32, u8> = VecMap::new();
    m.insert(1, 1);
    m.insert(2, 2);
    m.insert(3, 3);
    assert_eq!(m.remove(&2), Some(2));
    assert_eq!(m.remove(&2), None);
    assert!(!m.contains(&2));
    let keys: Vec<i32> = (0..m.len()).map(|i| *m.entry(i).0).collect();
    assert_eq!(keys, vec![1, 3]);
    assert_eq!(m.remove(&7), None);
    assert_eq!(m.len(), 2);
}

#[test]
fn vec_map_get_mut_changes_value() {
    let mut m: VecMap<i32, u8> = VecMap::new();
    m.insert(9, 1);
    if let Some(v) = m.get_mut(&9) {
        *v = 42;
    }
    assert_eq!(m.get(&9), Some(&42));
    assert!(m.get_mut(&8).is_none());
}

#[test]
fn vec_map_clear() {
    let mut m: VecMap<i32, u8> = VecMap::new();
    m.insert(1, 1);
    m.insert(2, 2);
    m.clear();
    assert!(m.is_empty());
    assert!(!m.contains(&1));
    assert_eq!(m.insert(1, 5), None);
}

#[test]
fn vec_map_duplicate_keeps_entries() {
    let mut m: VecMap<i32, String> = VecMap::new();
    m.insert(4, "a".to_string());
    m.insert(2, "b".to_string());
    let d = m.duplicate();
    assert_eq!(d.len(), 2);
    assert_eq!(*d.entry(0).0, 4);
    assert_eq!(d.entry(1).1, "b");
    assert_eq!(d.get(&4).map(|s| s.as_str()), Some("a"));
}
