use string_conversions::string_set::StringSet;

#[test]
fn a_new_set_is_empty() {
    let set = StringSet::new();
    assert_eq!(set.len(), 0);
    assert!(!set.contains("a"));
    assert!(set.to_vec().is_empty());
}

#[test]
fn insert_keeps_the_order_and_drops_duplicates() {
    let mut set = StringSet::new();
    assert!(set.insert("std::path::Path".to_string()));
    assert!(set.insert("std::ffi::OsStr".to_string()));
    assert!(set.insert("std::str::Utf8Error".to_string()));
    assert!(!set.insert("std::ffi::OsStr".to_string()));
    assert!(set.insert("std::ffi::CStr".to_string()));
    assert_eq!(
        set.to_vec(),
        vec!["std::ffi::CStr", "std::ffi::OsStr", "std::path::Path", "std::str::Utf8Error"]
    );
    assert_eq!(set.len(), 4);
    assert_eq!(set.get(0), "std::ffi::CStr");
    assert_eq!(set.get(3), "std::str::Utf8Error");
}

#[test]
fn contains_and_remove() {
    let mut set = StringSet::new();
    set.insert("b".to_string());
    set.insert("a".to_string());
    set.insert("c".to_string());
    assert!(set.contains("b"));
    assert!(!set.contains("d"));
    assert!(set.remove("b"));
    assert!(!set.remove("b"));
    assert!(!set.contains("b"));
    assert_eq!(set.to_vec(), vec!["a", "c"]);
    assert!(set.remove("a"));
    assert!(set.remove("c"));
    assert_eq!(set.len(), 0);
}

#[test]
fn extend_and_merge_add_every_member() {
    let mut set = StringSet::new();
    set.extend(&vec!["m", "a", "m", "z"]);
    assert_eq!(set.to_vec(), vec!["a", "m", "z"]);
    let mut other = StringSet::new();
    other.extend(&vec!["b", "z", "0"]);
    set.merge(&other);
    assert_eq!(set.to_vec(), vec!["0", "a", "b", "m", "z"]);
    assert_eq!(other.to_vec(), vec!["0", "b", "z"]);
}

#[test]
fn clone_is_a_set_of_its_own() {
    let mut set = StringSet::new();
    set.insert("x".to_string());
    let mut copy = set.clone();
    copy.insert("y".to_string());
    assert_eq!(set.to_vec(), vec!["x"]);
    assert_eq!(copy.to_vec(), vec!["x", "y"]);
}

#[test]
fn the_order_is_that_of_a_btree_set() {
    let words = ["std::ffi::{OsStr, OsString}", "std::ffi::FromBytesWithNulError", "std::ffi::CString", "Z", "a", "", "\u{fffd}", "std::ffi::CStr"];
    let mut set = StringSet::new();
    let mut tree = std::collections::BTreeSet::new();
    for w in words {
        set.insert(w.to_string());
        tree.insert(w.to_string());
    }
    assert_eq!(set.to_vec(), tree.into_iter().collect::<Vec<String>>());
}
