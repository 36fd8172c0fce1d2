use react_source_string::name_set::NameSet;

#[test]
fn new_set_is_empty() {
    let set = NameSet::new();
    assert!(set.is_empty());
    assert_eq!(set.len(), 0);
    assert!(!set.contains("Button"));
    assert!(!set.contains(""));
}

#[test]
fn insert_adds_a_name_once() {
    let mut set = NameSet::new();
    assert!(set.insert(String::from("Button")));
    assert!(!set.insert(String::from("Button")));
    assert!(set.insert(String::from("Card")));
    assert_eq!(set.len(), 2);
    assert!(!set.is_empty());
    assert!(set.contains("Button"));
    assert!(set.contains("Card"));
}

#[test]
fn names_are_told_apart_by_case() {
    let mut set = NameSet::new();
    set.insert(String::from("Button"));
    assert!(!set.contains("button"));
    assert!(!set.contains("Butto"));
    assert!(!set.contains("Buttons"));
}
