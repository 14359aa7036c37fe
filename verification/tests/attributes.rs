use aaxion_discovery::attributes::AttributeMap;

fn text_pair(key: &str, value: &str) -> (String, String) {
    (key.to_string(), value.to_string())
}

#[test]
fn new_map_is_empty() {
    let map = AttributeMap::new();
    assert_eq!(map.len(), 0);
    assert_eq!(map.get("model"), None);
    assert!(map.to_pairs().is_empty());
}

#[test]
fn insert_then_get() {
    let mut map = AttributeMap::new();
    map.insert("model".to_string(), "X1".to_string());
    assert_eq!(map.get("model"), Some(&"X1".to_string()));
    assert_eq!(map.get("Model"), None);
    assert_eq!(map.len(), 1);
}

#[test]
fn insert_replaces_the_value_under_a_key() {
    let mut map = AttributeMap::new();
    map.insert("model".to_string(), "X1".to_string());
    map.insert("colour".to_string(), "yes".to_string());
    map.insert("model".to_string(), "X2".to_string());
    assert_eq!(map.len(), 2);
    assert_eq!(map.get("model"), Some(&"X2".to_string()));
    assert_eq!(map.get("colour"), Some(&"yes".to_string()));
    assert_eq!(map.to_pairs(), vec![text_pair("model", "X2"), text_pair("colour", "yes")]);
}

#[test]
fn from_pairs_lets_the_later_pair_win() {
    let pairs = vec![
        text_pair("model", "X1"),
        text_pair("serial", "0042"),
        text_pair("model", "X3"),
    ];
    let map = AttributeMap::from_pairs(&pairs);
    assert_eq!(map.len(), 2);
    assert_eq!(map.get("model"), Some(&"X3".to_string()));
    assert_eq!(map.get("serial"), Some(&"0042".to_string()));
}

#[test]
fn from_pairs_of_nothing_is_empty() {
    let map = AttributeMap::from_pairs(&Vec::new());
    assert_eq!(map.len(), 0);
}

#[test]
fn empty_key_and_empty_value_are_kept() {
    let mut map = AttributeMap::new();
    map.insert(String::new(), String::new());
    assert_eq!(map.get(""), Some(&String::new()));
    assert_eq!(map.len(), 1);
}

#[test]
fn clone_holds_the_same_entries() {
    let mut map = AttributeMap::new();
    map.insert("model".to_string(), "X1".to_string());
    let copy = map.clone();
    map.insert("model".to_string(), "X2".to_string());
    assert_eq!(copy.get("model"), Some(&"X1".to_string()));
    assert_eq!(map.get("model"), Some(&"X2".to_string()));
}
