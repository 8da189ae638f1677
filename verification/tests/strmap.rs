use github_actions_editor::strmap::{str_map_from_entries, StrMap};

#[test]
fn insert_get_remove() {
    let mut m: StrMap<u32> = StrMap::new();
    assert_eq!(m.len(), 0);
    assert_eq!(m.insert("b".to_string(), 1), None);
    assert_eq!(m.insert("a".to_string(), 2), None);
    assert_eq!(m.insert("b".to_string(), 3), Some(1));
    assert_eq!(m.len(), 2);
    assert_eq!(m.get("b"), Some(&3));
    assert_eq!(m.keys(), vec!["b".to_string(), "a".to_string()]);
    assert_eq!(m.first_key(), Some("b".to_string()));
    assert_eq!(m.remove("b"), Some(3));
    assert_eq!(m.get("b"), None);
    assert!(!m.contains_key("b"));
    assert_eq!(m.first_key(), Some("a".to_string()));
    assert_eq!(m.remove("zz"), None);
    m.clear();
    assert_eq!(m.first_key(), None);
}

#[test]
fn replace_keeps_place() {
    let mut m: StrMap<u32> = StrMap::new();
    m.insert("x".to_string(), 1);
    m.insert("y".to_string(), 2);
    assert_eq!(m.replace("x", 9), Some(1));
    assert_eq!(m.replace("z", 9), None);
    assert_eq!(m.keys(), vec!["x".to_string(), "y".to_string()]);
    assert_eq!(m.entry_at(0), (&"x".to_string(), &9));
    let c = m.clone();
    assert_eq!(c.into_entries(), vec![("x".to_string(), 9), ("y".to_string(), 2)]);
}

#[test]
fn from_entries_last_value_wins() {
    let m = str_map_from_entries(vec![("a".to_string(), 1), ("b".to_string(), 2), ("a".to_string(), 3)]);
    assert_eq!(m.len(), 2);
    assert_eq!(m.get("a"), Some(&3));
    assert_eq!(m.keys(), vec!["a".to_string(), "b".to_string()]);
}
