use sentry_performance::string_map::StringMap;

fn keys(map: &StringMap<u32>) -> Vec<String> {
    map.iter().into_iter().map(|(key, _)| key.clone()).collect()
}

#[test]
fn new_maps_are_empty() {
    let map: StringMap<u32> = StringMap::new();
    assert!(map.iter().is_empty());
    assert_eq!(map.get("key"), None);
    assert!(!map.contains_key("key"));
}

#[test]
fn last_value_wins() {
    let mut map = StringMap::new();
    assert_eq!(map.insert("key".to_owned(), 1), None);
    assert_eq!(map.insert("other".to_owned(), 2), None);
    assert_eq!(map.insert("key".to_owned(), 3), Some(1));
    assert_eq!(map.get("key"), Some(&3));
    assert_eq!(map.get("other"), Some(&2));
    assert_eq!(map.get("ke"), None);
    assert_eq!(map.get("keys"), None);
    assert_eq!(map.iter().len(), 2);
}

#[test]
fn keys_are_ordered() {
    let mut map = StringMap::new();
    for key in ["b", "", "ba", "a", "B", "\u{e4}", "\u{10000}", "\u{ffff}", "ab"] {
        map.insert(key.to_owned(), 0);
    }
    assert_eq!(
        keys(&map),
        ["", "B", "a", "ab", "b", "ba", "\u{e4}", "\u{ffff}", "\u{10000}"]
    );
}

#[test]
fn order_is_that_of_the_standard_map() {
    let texts = [
        "method", "url", "data", "query_string", "cookies", "headers", "env", "\u{fffd}",
        "\u{1f600}", "z", "\u{7f}", "\u{80}", "zz", "Z",
    ];
    let mut map = StringMap::new();
    let mut standard = std::collections::BTreeMap::new();
    for (i, text) in texts.into_iter().enumerate() {
        map.insert(text.to_owned(), i as u32);
        standard.insert(text.to_owned(), i as u32);
    }
    let entries: Vec<(&String, &u32)> = standard.iter().collect();
    assert_eq!(map.iter(), entries);
}

#[test]
fn copies_of_a_map_are_equal() {
    let mut map = StringMap::new();
    map.insert("key".to_owned(), 1);
    let mut copy = map.clone();
    assert_eq!(copy, map);
    copy.insert("key".to_owned(), 2);
    assert_eq!(map.get("key"), Some(&1));
    assert_ne!(copy, map);
}

#[test]
fn values_are_changed_in_place() {
    let mut map = StringMap::new();
    map.insert("key".to_owned(), 1);
    map.insert("other".to_owned(), 2);
    *map.get_mut("key").unwrap() = 3;
    assert_eq!(map.get("key"), Some(&3));
    assert_eq!(map.get("other"), Some(&2));
    assert_eq!(map.get_mut("none"), None);
    assert_eq!(keys(&map), ["key", "other"]);
}

#[test]
fn keys_are_removed() {
    let mut map = StringMap::new();
    for (i, key) in ["b", "c", "a"].into_iter().enumerate() {
        map.insert(key.to_owned(), i as u32);
    }
    assert_eq!(map.remove("b"), Some(0));
    assert_eq!(map.remove("b"), None);
    assert_eq!(map.remove(""), None);
    assert!(!map.contains_key("b"));
    assert_eq!(keys(&map), ["a", "c"]);
    assert_eq!(map.get("c"), Some(&1));
    assert_eq!(map.get("a"), Some(&2));
}

#[test]
fn keys_are_counted_once() {
    let mut map = StringMap::new();
    assert_eq!(map.len(), 0);
    assert!(map.is_empty());
    map.insert("key".to_owned(), 1);
    map.insert("key".to_owned(), 2);
    map.insert("other".to_owned(), 3);
    assert_eq!(map.len(), 2);
    assert!(!map.is_empty());
    map.remove("key");
    map.remove("other");
    assert_eq!(map.len(), 0);
    assert!(map.is_empty());
}
