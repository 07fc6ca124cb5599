use ernest::named::NamedMap;

#[test]
fn named_map_starts_empty() {
    let m: NamedMap<u32> = NamedMap::new();
    assert_eq!(m.len(), 0);
    assert!(m.get("a").is_none());
    assert_eq!(m.position("a"), None);
}

#[test]
fn named_map_keeps_insertion_order() {
    let mut m: NamedMap<u32> = NamedMap::new();
    m.insert("b".to_string(), 2);
    m.insert("a".to_string(), 1);
    m.insert("c".to_string(), 3);
    assert_eq!(m.len(), 3);
    assert_eq!(m.name_at(0), "b");
    assert_eq!(m.name_at(1), "a");
    assert_eq!(m.name_at(2), "c");
    assert_eq!(*m.value_at(1), 1);
    assert_eq!(m.position("c"), Some(2));
    assert_eq!(m.get("a"), Some(&1));
}

#[test]
fn named_map_insert_replaces_in_place() {
    let mut m: NamedMap<u32> = NamedMap::new();
    m.insert("a".to_string(), 1);
    m.insert("b".to_string(), 2);
    m.insert("a".to_string(), 10);
    assert_eq!(m.len(), 2);
    assert_eq!(m.name_at(0), "a");
    assert_eq!(m.get("a"), Some(&10));
    assert_eq!(m.get("b"), Some(&2));
}

#[test]
fn named_map_remove_takes_one_name_out() {
    let mut m: NamedMap<u32> = NamedMap::new();
    m.insert("a".to_string(), 1);
    m.insert("b".to_string(), 2);
    m.insert("c".to_string(), 3);
    assert_eq!(m.remove("b"), Some(2));
    assert_eq!(m.len(), 2);
    assert_eq!(m.name_at(0), "a");
    assert_eq!(m.name_at(1), "c");
    assert_eq!(m.get("c"), Some(&3));
    assert_eq!(m.remove("b"), None);
    assert_eq!(m.len(), 2);
}
