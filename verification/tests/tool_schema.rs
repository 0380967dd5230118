use picocodex::schema::{
    checked_tool_schema, commands_tool_schema, select_tool_schema, tool_schema_from_root,
};
use serde_json::Value;

fn object(entries: &[(&str, Value)]) -> serde_json::Map<String, Value> {
    let mut map = serde_json::Map::new();
    for (key, value) in entries {
        map.insert((*key).to_owned(), value.clone());
    }
    map
}

fn document() -> serde_json::Map<String, Value> {
    object(&[
        ("$schema", Value::String("https://json-schema.org/draft/2019-09/schema".to_owned())),
        ("title", Value::String("SearchCommands".to_owned())),
        ("type", Value::String("object".to_owned())),
        ("properties", Value::Object(object(&[("query", Value::Bool(true))]))),
        ("required", Value::Array(vec![Value::String("query".to_owned())])),
        ("additionalProperties", Value::Bool(false)),
        ("$defs", Value::Object(object(&[("Cmd", Value::Null)]))),
        ("definitions", Value::Object(serde_json::Map::new())),
        ("description", Value::String("commands".to_owned())),
    ])
}

#[test]
fn selection_keeps_exactly_the_tool_schema_entries() {
    let source = document();
    let selected = select_tool_schema(source.clone());
    let mut keys: Vec<&str> = selected.keys().map(|key| key.as_str()).collect();
    keys.sort();
    assert_eq!(
        keys,
        vec!["$defs", "additionalProperties", "definitions", "properties", "required", "type"]
    );
    for key in keys {
        assert_eq!(selected.get(key), source.get(key));
    }
    assert!(selected.get("$schema").is_none());
    assert!(selected.get("title").is_none());
    assert!(selected.get("description").is_none());
}

#[test]
fn selection_of_missing_keys_is_empty_and_partial_documents_keep_what_they_have() {
    let empty = select_tool_schema(object(&[("title", Value::Null)]));
    assert!(empty.is_empty());
    let partial = select_tool_schema(object(&[("type", Value::String("string".to_owned()))]));
    assert_eq!(partial.len(), 1);
    assert_eq!(partial.get("type"), Some(&Value::String("string".to_owned())));
}

#[test]
fn selection_is_idempotent() {
    let once = select_tool_schema(document());
    let twice = select_tool_schema(once.clone());
    assert_eq!(once, twice);
}

#[test]
fn root_value_is_narrowed_as_an_object() {
    let narrowed = tool_schema_from_root(Value::Object(document()));
    assert_eq!(narrowed, Value::Object(select_tool_schema(document())));
}

#[test]
fn generated_document_becomes_a_tool_schema() {
    let generator = schemars::gen::SchemaGenerator::default();
    let root = generator.into_root_schema_for::<std::collections::BTreeMap<String, bool>>();
    let full = serde_json::to_value(&root).unwrap();
    assert!(full.get("$schema").is_some());
    let tool = commands_tool_schema(root);
    let tool = tool.as_object().unwrap();
    let mut keys: Vec<&str> = tool.keys().map(|key| key.as_str()).collect();
    keys.sort();
    assert_eq!(keys, vec!["additionalProperties", "type"]);
    assert_eq!(tool.get("type"), Some(&Value::String("object".to_owned())));
    assert_eq!(
        tool.get("additionalProperties"),
        full.get("additionalProperties")
    );
    let empty = commands_tool_schema(schemars::schema::RootSchema::default());
    assert_eq!(empty, Value::Object(serde_json::Map::new()));
}

#[test]
fn checked_narrowing_refuses_values_that_are_not_objects() {
    assert_eq!(checked_tool_schema(Value::Null), None);
    assert_eq!(checked_tool_schema(Value::Bool(true)), None);
    assert_eq!(checked_tool_schema(Value::Array(vec![])), None);
    assert_eq!(
        checked_tool_schema(Value::Object(document())),
        Some(Value::Object(select_tool_schema(document())))
    );
}
