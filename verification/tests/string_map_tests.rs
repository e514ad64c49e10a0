use containerd_mcp::string_map::StringMap;

fn pair(key: &str, value: &str) -> (String, String) {
    (key.to_string(), value.to_string())
}

#[test]
fn new_map_is_empty() {
    let map = StringMap::new();
    assert!(map.is_empty());
    assert_eq!(map.len(), 0);
    assert!(map.get("a").is_none());
    assert!(!map.contains_key("a"));
}

#[test]
fn insert_adds_or_replaces() {
    let mut map = StringMap::new();
    map.insert("a".to_string(), "1".to_string());
    map.insert("b".to_string(), "2".to_string());
    assert_eq!(map.len(), 2);
    map.insert("a".to_string(), "3".to_string());
    assert_eq!(map.len(), 2);
    assert_eq!(map.get("a").unwrap(), "3");
    assert_eq!(map.get("b").unwrap(), "2");
    assert!(map.contains_key("b"));
    assert!(!map.is_empty());
}

#[test]
fn extend_prefers_the_entries_that_are_added() {
    let mut left = StringMap::from_pairs(&vec![pair("a", "1"), pair("b", "2")]);
    let right = StringMap::from_pairs(&vec![pair("b", "3"), pair("c", "4")]);
    left.extend(&right);
    assert_eq!(left.len(), 3);
    assert_eq!(left.get("a").unwrap(), "1");
    assert_eq!(left.get("b").unwrap(), "3");
    assert_eq!(left.get("c").unwrap(), "4");
    assert_eq!(right.len(), 2);
}

#[test]
fn extend_with_nothing_changes_nothing() {
    let mut left = StringMap::from_pairs(&vec![pair("a", "1")]);
    left.extend(&StringMap::new());
    assert_eq!(left.len(), 1);
    assert_eq!(left.get("a").unwrap(), "1");
}

#[test]
fn from_pairs_keeps_the_later_of_two_pairs() {
    let map = StringMap::from_pairs(&vec![pair("a", "1"), pair("a", "2"), pair("b", "3")]);
    assert_eq!(map.len(), 2);
    assert_eq!(map.get("a").unwrap(), "2");
    assert_eq!(map.pairs().len(), 2);
}

#[test]
fn pairs_hand_out_every_entry_once() {
    let map = StringMap::from_pairs(&vec![pair("x", "1"), pair("y", "2"), pair("x", "3")]);
    let mut pairs = map.pairs().clone();
    pairs.sort();
    assert_eq!(pairs, vec![pair("x", "3"), pair("y", "2")]);
}

#[test]
fn clone_copies_the_entries() {
    let mut map = StringMap::from_pairs(&vec![pair("a", "1")]);
    let copy = map.clone();
    map.insert("a".to_string(), "2".to_string());
    assert_eq!(copy.get("a").unwrap(), "1");
    assert_eq!(map.get("a").unwrap(), "2");
}
