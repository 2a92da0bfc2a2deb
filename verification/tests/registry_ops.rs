use fwdispatch::device::{DeviceRecord, FirmwareInfo};
use fwdispatch::errors::flatten_error_chain;
use fwdispatch::registry::Registry;

fn record(name: &str) -> DeviceRecord {
    DeviceRecord {
        info: FirmwareInfo {
            name: name.to_string(),
            current: "1.0".to_string(),
            latest: "1.1".to_string(),
        },
        label: "1.0".to_string(),
        revealed: false,
        showing_progress: false,
        upgradeable: false,
        is_system: false,
        grouped: false,
    }
}

#[test]
fn inserted_entities_are_distinct_and_live() {
    let mut r = Registry::new();
    let a = r.insert(record("a"));
    let b = r.insert(record("b"));
    assert_ne!(a, b);
    assert!(r.contains(a.clone()));
    assert!(r.contains(b.clone()));
    assert_eq!(r.len(), 2);
    assert_eq!(r.get(a).unwrap().info.name, "a");
    assert_eq!(r.get(b).unwrap().info.name, "b");
}

#[test]
fn clear_invalidates_all_entities() {
    let mut r = Registry::new();
    let a = r.insert(record("a"));
    let b = r.insert(record("b"));
    r.mark_system(a.clone());
    r.insert_into_group(b.clone());
    r.clear();
    assert_eq!(r.len(), 0);
    assert!(!r.contains(a.clone()));
    assert!(!r.contains(b.clone()));
    assert!(r.get(a.clone()).is_none());
    assert!(!r.is_system(a.clone()));
    assert!(r.group_members.is_empty());
    // A handle allocated after the clear is distinct from the stale ones.
    let c = r.insert(record("c"));
    assert_ne!(c, a);
    assert_ne!(c, b);
    assert!(r.contains(c));
    assert!(!r.contains(a));
}

#[test]
fn set_on_stale_entity_is_a_no_op() {
    let mut r = Registry::new();
    let a = r.insert(record("a"));
    r.clear();
    r.set(a.clone(), record("ghost"));
    assert_eq!(r.len(), 0);
    assert!(r.get(a).is_none());
}

#[test]
fn mark_system_flags_only_its_entity() {
    let mut r = Registry::new();
    let a = r.insert(record("a"));
    let b = r.insert(record("b"));
    r.mark_system(a.clone());
    assert!(r.is_system(a));
    assert!(!r.is_system(b));
}

#[test]
fn group_membership_is_recorded_in_order() {
    let mut r = Registry::new();
    let a = r.insert(record("a"));
    let b = r.insert(record("b"));
    let c = r.insert(record("c"));
    r.insert_into_group(b.clone());
    r.insert_into_group(c.clone());
    assert_eq!(r.group_members.len(), 2);
    assert_eq!(r.group_members[0], b);
    assert_eq!(r.group_members[1], c);
    assert!(!r.get(a).unwrap().grouped);
    assert!(r.get(b.clone()).unwrap().grouped);
    // Re-inserting a member changes nothing.
    r.insert_into_group(b);
    assert_eq!(r.group_members.len(), 2);
}

#[test]
fn flatten_single_error_has_no_separator() {
    let chain = vec!["device busy".to_string()];
    assert_eq!(flatten_error_chain(&chain), "device busy");
}

#[test]
fn flatten_empty_chain_is_empty() {
    let chain: Vec<String> = Vec::new();
    assert_eq!(flatten_error_chain(&chain), "");
}

#[test]
fn flatten_appends_each_cause_in_order() {
    let chain = vec!["a".to_string(), "b".to_string(), "c".to_string(), "d".to_string()];
    assert_eq!(flatten_error_chain(&chain), "a: b: c: d");
}
