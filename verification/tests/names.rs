use nv_getter::names::{NameMap, NameSet};

fn sorted(mut names: Vec<String>) -> Vec<String> {
    names.sort();
    names
}

#[test]
fn set_holds_each_name_once() {
    let mut set = NameSet::new();
    assert_eq!(set.len(), 0);
    assert!(!set.contains("a"));
    assert!(set.insert("a".to_string()));
    assert!(set.insert("b".to_string()));
    assert!(!set.insert("a".to_string()));
    assert!(set.insert("A".to_string()));
    assert_eq!(set.len(), 3);
    assert!(set.contains("a") && set.contains("b") && set.contains("A"));
    assert!(!set.contains("c"));
    assert_eq!(set.names(), &vec!["a".to_string(), "b".to_string(), "A".to_string()]);
}

#[test]
fn extending_a_set_gives_the_union() {
    let mut set = NameSet::new();
    set.extend_from(&vec!["x".to_string(), "y".to_string(), "x".to_string()]);
    let mut other = NameSet::new();
    other.extend_from(&vec!["y".to_string(), "z".to_string()]);
    set.extend(&other);
    assert_eq!(set.len(), 3);
    assert_eq!(sorted(set.into_names()), vec!["x".to_string(), "y".to_string(), "z".to_string()]);
    assert_eq!(other.len(), 2);
}

#[test]
fn table_files_each_item_under_a_name_of_its_own() {
    let mut table: NameMap<u32> = NameMap::new();
    assert_eq!(table.len(), 0);
    assert_eq!(table.get("a"), None);
    assert_eq!(table.insert("a".to_string(), 1), None);
    assert_eq!(table.insert("b".to_string(), 2), None);
    assert_eq!(table.insert("a".to_string(), 3), Some(3));
    assert_eq!(table.len(), 2);
    assert_eq!(table.get("a"), Some(&1));
    assert_eq!(table.get("b"), Some(&2));
    assert_eq!(table.get("c"), None);
    assert_eq!(table.keys(), vec!["a".to_string(), "b".to_string()]);
    let entries = table.entries();
    assert_eq!(entries.len(), 2);
    assert_eq!((entries[0].key.as_str(), entries[0].item), ("a", 1));
    assert_eq!((entries[1].key.as_str(), entries[1].item), ("b", 2));
}
