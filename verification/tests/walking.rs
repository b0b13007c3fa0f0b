use spyrun::event::EventKind;
use spyrun::walk::{synthetic_kind, walk_select};

#[test]
fn test_walk() {
    let paths: Vec<String> =
        ["x.txt", "y.log", "nested/z.txt"].iter().map(|s| s.to_string()).collect();
    let pattern = "\\.txt$".to_string();
    let kind = synthetic_kind(&None);
    let events = walk_select(&paths, Some(&pattern), kind).unwrap();
    assert_eq!(events.len(), 2);
    assert_eq!(events[0].paths, vec!["x.txt".to_string()]);
    assert_eq!(events[1].paths, vec!["nested/z.txt".to_string()]);
    assert!(events.iter().all(|e| e.kind == kind));
}

#[test]
fn test_walk_without_pattern_takes_all() {
    let paths: Vec<String> = ["a", "b", "c"].iter().map(|s| s.to_string()).collect();
    let events = walk_select(&paths, None, EventKind::Create).unwrap();
    assert_eq!(events.len(), 3);
    assert_eq!(events[2].paths, vec!["c".to_string()]);
    assert!(events.iter().all(|e| e.kind == EventKind::Create));
}

#[test]
fn test_walk_bad_pattern_is_error() {
    let paths: Vec<String> = vec!["x.txt".to_string()];
    let pattern = "(".to_string();
    assert!(walk_select(&paths, Some(&pattern), EventKind::Modify).is_err());
}

#[test]
fn test_walk_empty_input() {
    let paths: Vec<String> = vec![];
    let pattern = "\\.txt$".to_string();
    let events = walk_select(&paths, Some(&pattern), EventKind::Modify).unwrap();
    assert!(events.is_empty());
}

#[test]
fn test_synthetic_kind_choices() {
    assert_eq!(synthetic_kind(&None), EventKind::Modify);
    assert_eq!(synthetic_kind(&Some(vec![])), EventKind::Modify);
    assert_eq!(
        synthetic_kind(&Some(vec!["Create".to_string(), "Modify".to_string()])),
        EventKind::Create
    );
    assert_eq!(synthetic_kind(&Some(vec!["Remove".to_string()])), EventKind::Remove);
    assert_eq!(synthetic_kind(&Some(vec!["Any".to_string()])), EventKind::Modify);
}
