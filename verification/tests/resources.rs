use satox_sdk::resource::{Resource, ResourceKind, ResourceRegistry};
use serde_json::Value;

fn text_of(resource: &Resource) -> Option<&str> {
    match resource {
        Resource::Text(text) => Some(text.as_str()),
        _ => None,
    }
}

#[test]
fn a_value_of_another_kind_looks_absent() {
    let mut registry = ResourceRegistry::new();
    registry.put("r", Resource::Integer(5));
    assert!(registry.get("r", ResourceKind::Text).is_none());
    assert!(registry.get("missing", ResourceKind::Text).is_none());
    let found = registry.get("r", ResourceKind::Integer).unwrap();
    assert!(matches!(*found, Resource::Integer(5)));
}

#[test]
fn every_kind_is_found_under_its_own_tag_only() {
    let kinds = [
        ResourceKind::Integer,
        ResourceKind::Unsigned,
        ResourceKind::Boolean,
        ResourceKind::Text,
        ResourceKind::Bytes,
        ResourceKind::Json,
    ];
    let mut registry = ResourceRegistry::new();
    registry.put("i", Resource::Integer(-3));
    registry.put("u", Resource::Unsigned(3));
    registry.put("b", Resource::Boolean(true));
    registry.put("t", Resource::Text("hello".to_string()));
    registry.put("y", Resource::Bytes(vec![1, 2, 3]));
    registry.put("j", Resource::Json(Value::from("doc")));
    let names = ["i", "u", "b", "t", "y", "j"];
    for (at, name) in names.iter().enumerate() {
        for (tag, kind) in kinds.iter().enumerate() {
            assert_eq!(registry.get(name, *kind).is_some(), at == tag);
        }
    }
    assert_eq!(registry.len(), 6);
}

#[test]
fn kind_names_the_variant() {
    assert_eq!(Resource::Integer(1).kind(), ResourceKind::Integer);
    assert_eq!(Resource::Unsigned(1).kind(), ResourceKind::Unsigned);
    assert_eq!(Resource::Boolean(false).kind(), ResourceKind::Boolean);
    assert_eq!(Resource::Text(String::new()).kind(), ResourceKind::Text);
    assert_eq!(Resource::Bytes(Vec::new()).kind(), ResourceKind::Bytes);
    assert_eq!(Resource::Json(Value::Null).kind(), ResourceKind::Json);
}

#[test]
fn put_replaces_what_was_there() {
    let mut registry = ResourceRegistry::new();
    registry.put("r", Resource::Integer(5));
    registry.put("r", Resource::Text("five".to_string()));
    assert_eq!(registry.len(), 1);
    assert!(registry.get("r", ResourceKind::Integer).is_none());
    let found = registry.get("r", ResourceKind::Text).unwrap();
    assert_eq!(text_of(&found), Some("five"));
}

#[test]
fn handles_outlive_removal() {
    let mut registry = ResourceRegistry::new();
    registry.put("r", Resource::Text("kept".to_string()));
    let handle = registry.get("r", ResourceKind::Text).unwrap();
    registry.remove("r");
    assert!(registry.get("r", ResourceKind::Text).is_none());
    assert_eq!(registry.len(), 0);
    assert_eq!(text_of(&handle), Some("kept"));
}

#[test]
fn handles_outlive_clear() {
    let mut registry = ResourceRegistry::new();
    registry.put("a", Resource::Text("one".to_string()));
    registry.put("b", Resource::Unsigned(2));
    let handle = registry.get("a", ResourceKind::Text).unwrap();
    registry.clear();
    assert_eq!(registry.len(), 0);
    assert!(registry.get("a", ResourceKind::Text).is_none());
    assert!(registry.get("b", ResourceKind::Unsigned).is_none());
    assert_eq!(text_of(&handle), Some("one"));
}

#[test]
fn two_handles_point_to_one_value() {
    let mut registry = ResourceRegistry::new();
    registry.put("r", Resource::Bytes(vec![9, 8, 7]));
    let first = registry.get("r", ResourceKind::Bytes).unwrap();
    let second = registry.get("r", ResourceKind::Bytes).unwrap();
    assert!(std::sync::Arc::ptr_eq(&first, &second));
}

#[test]
fn removing_an_unused_name_changes_nothing() {
    let mut registry = ResourceRegistry::new();
    registry.put("r", Resource::Boolean(true));
    registry.remove("other");
    assert_eq!(registry.len(), 1);
    assert!(registry.get("r", ResourceKind::Boolean).is_some());
}
