//! The model-visible schema of the web-search tool: the generated JSON Schema
//! document, narrowed to the entries that a tool's parameter schema carries.

use vstd::prelude::*;

verus! {

#[verifier::external_type_specification]
#[verifier::external_body]
pub struct ExJsonValue(serde_json::Value);

#[verifier::external_type_specification]
#[verifier::external_body]
#[verifier::reject_recursive_types(K)]
#[verifier::reject_recursive_types(V)]
pub struct ExJsonMap<K, V>(serde_json::Map<K, V>);

#[verifier::external_type_specification]
#[verifier::external_body]
pub struct ExRootSchema(schemars::schema::RootSchema);

/// A JSON object: string keys and JSON values.
pub type JsonObject = serde_json::Map<String, serde_json::Value>;

/// The entries of a JSON object, by key.
pub uninterp spec fn json_object_entries(
    object: JsonObject,
) -> Map<Seq<char>, serde_json::Value>;

/// The entries of a JSON value that is an object; `None` for any other value.
pub uninterp spec fn json_value_object(value: serde_json::Value) -> Option<
    Map<Seq<char>, serde_json::Value>,
>;

/// The JSON value that a generated schema document serializes to; `None` when
/// serialization fails.
pub uninterp spec fn root_schema_value(schema: schemars::schema::RootSchema) -> Option<
    serde_json::Value,
>;

/// The entries of an empty object.
pub open spec fn no_entries() -> Map<Seq<char>, serde_json::Value> {
    Map::empty()
}

/// Calls `serde_json::Map::<String, Value>::new`: an empty object.
#[verifier::external_body]
fn json_object_new() -> (object: JsonObject)
    ensures
        json_object_entries(object) == no_entries(),
{
    serde_json::Map::new()
}

/// Calls `serde_json::Map::<String, Value>::remove`: the entry under `key` leaves
/// the object, and its value, if there was one, is returned.
#[verifier::external_body]
fn json_object_remove(
    object: &mut JsonObject,
    key: &str,
) -> (removed: Option<serde_json::Value>)
    ensures
        json_object_entries(*final(object)) == json_object_entries(*old(object)).remove(key@),
        removed == json_object_entries(*old(object)).get(key@),
{
    object.remove(key)
}

/// Calls `serde_json::Map::<String, Value>::insert`: `key` maps to `value`
/// afterwards, and the value it replaced, if any, is returned.
#[verifier::external_body]
fn json_object_insert(
    object: &mut JsonObject,
    key: String,
    value: serde_json::Value,
) -> (replaced: Option<serde_json::Value>)
    ensures
        json_object_entries(*final(object)) == json_object_entries(*old(object)).insert(
            key@,
            value,
        ),
        replaced == json_object_entries(*old(object)).get(key@),
{
    object.insert(key, value)
}

/// Calls `serde_json::Value::is_object`: whether the value is an object.
#[verifier::external_body]
fn json_value_is_object(value: &serde_json::Value) -> (is_object: bool)
    ensures
        is_object == json_value_object(*value) is Some,
{
    value.is_object()
}

/// Takes the object out of a JSON value (`Value::Object`); `None` for any other
/// variant.
#[verifier::external_body]
fn json_value_into_object(value: serde_json::Value) -> (object: Option<
    JsonObject,
>)
    ensures
        json_value_object(value) is Some <==> object is Some,
        object matches Some(inner) ==> json_value_object(value) == Some(
            json_object_entries(inner),
        ),
{
    match value {
        serde_json::Value::Object(inner) => Some(inner),
        _ => None,
    }
}

/// Wraps an object as a JSON value (`Value::Object`).
#[verifier::external_body]
fn json_object_into_value(object: JsonObject) -> (value:
    serde_json::Value)
    ensures
        json_value_object(value) == Some(json_object_entries(object)),
{
    serde_json::Value::Object(object)
}

/// Calls `serde_json::to_value` on a generated schema document. A document
/// serializes as a map with string keys, and non-finite numbers in it become
/// `null`, so serialization always succeeds and always gives an object.
#[verifier::external_body]
fn root_schema_to_value(schema: schemars::schema::RootSchema) -> (value: Option<
    serde_json::Value,
>)
    ensures
        value == root_schema_value(schema),
        value is Some,
        json_value_object(value.unwrap()) is Some,
{
    serde_json::to_value(schema).ok()
}

/// The keys of a generated schema document that a tool's parameter schema
/// keeps, in the order they are moved.
pub open spec fn tool_schema_keys() -> Seq<Seq<char>> {
    seq![
        "properties"@,
        "required"@,
        "type"@,
        "additionalProperties"@,
        "$defs"@,
        "definitions"@,
    ]
}

/// Whether a key of a schema document belongs in a tool's parameter schema.
pub open spec fn is_tool_schema_key(key: Seq<char>) -> bool {
    tool_schema_keys().contains(key)
}

/// A tool's parameter schema drawn from the entries of a schema document:
/// exactly the entries under the tool schema keys, with their values.
pub open spec fn tool_schema_selection(entries: Map<Seq<char>, serde_json::Value>) -> Map<
    Seq<char>,
    serde_json::Value,
> {
    entries.restrict(Set::new(|key: Seq<char>| is_tool_schema_key(key)))
}

/// The entries of `entries` under the first `count` tool schema keys.
pub open spec fn selected_prefix(entries: Map<Seq<char>, serde_json::Value>, count: int) -> Map<
    Seq<char>,
    serde_json::Value,
> {
    entries.restrict(Set::new(|key: Seq<char>| tool_schema_keys().take(count).contains(key)))
}

/// The entries of `entries` under none of the first `count` tool schema keys.
pub open spec fn unselected_rest(entries: Map<Seq<char>, serde_json::Value>, count: int) -> Map<
    Seq<char>,
    serde_json::Value,
> {
    entries.remove_keys(Set::new(|key: Seq<char>| tool_schema_keys().take(count).contains(key)))
}

/// The tool schema keys as strings.
fn tool_schema_key_list() -> (keys: Vec<&'static str>)
    ensures
        keys@.len() == tool_schema_keys().len(),
        forall|i: int| 0 <= i < keys@.len() ==> #[trigger] keys@[i]@ == tool_schema_keys()[i],
{
    let mut keys: Vec<&'static str> = Vec::new();
    keys.push("properties");
    keys.push("required");
    keys.push("type");
    keys.push("additionalProperties");
    keys.push("$defs");
    keys.push("definitions");
    keys
}

/// Moves the entries of a generated schema object that a tool's parameter
/// schema carries (`properties`, `required`, `type`, `additionalProperties`,
/// `$defs`, `definitions`) into a new object, leaving every other entry behind.
pub fn select_tool_schema(schema: JsonObject) -> (tool_schema:
    JsonObject)
    ensures
        json_object_entries(tool_schema) == tool_schema_selection(json_object_entries(schema)),
{
    let ghost original = json_object_entries(schema);
    let keys = tool_schema_key_list();
    let mut schema = schema;
    let mut tool_schema = json_object_new();
    let mut index: usize = 0;
    assert(selected_prefix(original, 0) =~= json_object_entries(tool_schema));
    assert(unselected_rest(original, 0) =~= original);
    while index < keys.len()
        invariant
            index <= keys@.len(),
            keys@.len() == tool_schema_keys().len(),
            forall|i: int| 0 <= i < keys@.len() ==> #[trigger] keys@[i]@ == tool_schema_keys()[i],
            json_object_entries(tool_schema) == selected_prefix(original, index as int),
            json_object_entries(schema) == unselected_rest(original, index as int),
        decreases keys@.len() - index,
    {
        let key: &str = keys[index];
        let ghost taken = tool_schema_keys().take(index as int);
        let ghost next = tool_schema_keys().take(index + 1);
        assert forall|k: Seq<char>| next.contains(k) <==> (taken.contains(k) || k == key@) by {
            if next.contains(k) {
                let j = choose|j: int| 0 <= j < next.len() && next[j] == k;
                if j < index {
                    assert(taken[j] == k);
                }
            }
            if taken.contains(k) {
                let j = choose|j: int| 0 <= j < taken.len() && taken[j] == k;
                assert(next[j] == k);
            }
            if k == key@ {
                assert(next[index as int] == k);
            }
        }
        if let Some(value) = json_object_remove(&mut schema, key) {
            json_object_insert(&mut tool_schema, key.to_owned(), value);
        }
        assert(json_object_entries(tool_schema) =~= selected_prefix(original, index + 1));
        assert(json_object_entries(schema) =~= unselected_rest(original, index + 1));
        index = index + 1;
    }
    assert(tool_schema_keys().take(keys@.len() as int) =~= tool_schema_keys());
    assert(json_object_entries(tool_schema) =~= tool_schema_selection(original));
    tool_schema
}

/// Narrows a generated schema document, given as the JSON object it
/// serializes to, to a tool's parameter schema.
pub fn tool_schema_from_root(root: serde_json::Value) -> (tool_schema: serde_json::Value)
    requires
        json_value_object(root) is Some,
    ensures
        json_value_object(tool_schema) == Some(
            tool_schema_selection(json_value_object(root)->0),
        ),
{
    match json_value_into_object(root) {
        Some(schema) => json_object_into_value(select_tool_schema(schema)),
        None => {
            assert(false);
            json_object_into_value(json_object_new())
        },
    }
}

/// Narrows any JSON value to a tool's parameter schema: `None` unless the
/// value is an object.
pub fn checked_tool_schema(root: serde_json::Value) -> (tool_schema: Option<serde_json::Value>)
    ensures
        (match json_value_object(root) {
            None => tool_schema is None,
            Some(entries) => tool_schema matches Some(value) && json_value_object(value) == Some(
                tool_schema_selection(entries),
            ),
        }),
{
    if json_value_is_object(&root) {
        Some(tool_schema_from_root(root))
    } else {
        None
    }
}

/// Serializes a generated schema document and narrows it to a tool's parameter
/// schema: the entries under `properties`, `required`, `type`,
/// `additionalProperties`, `$defs` and `definitions`, with their values.
pub fn commands_tool_schema(schema: schemars::schema::RootSchema) -> (tool_schema:
    serde_json::Value)
    ensures
        is_tool_schema_of(schema, tool_schema),
{
    match root_schema_to_value(schema) {
        Some(root) => tool_schema_from_root(root),
        None => {
            assert(false);
            json_object_into_value(json_object_new())
        },
    }
}

/// A tool's parameter schema holds exactly the tool schema entries of the
/// document it was drawn from: a key appears in it just when the document has
/// it and it is one of `properties`, `required`, `type`,
/// `additionalProperties`, `$defs`, `definitions`, and it keeps the
/// document's value.
pub proof fn lemma_tool_schema_keeps_exactly_listed_entries(entries: Map<Seq<char>, serde_json::Value>)
    ensures
        forall|key: Seq<char>|
            #[trigger] tool_schema_selection(entries).dom().contains(key) <==> (
            entries.dom().contains(key) && is_tool_schema_key(key)),
        forall|key: Seq<char>|
            #[trigger] tool_schema_selection(entries).dom().contains(key) ==> tool_schema_selection(
                entries,
            )[key] == entries[key],
{
}

/// Whether `value` is the tool parameter schema drawn from the document
/// `schema`: the document serializes to an object, and `value` is an object
/// that holds exactly its tool schema entries.
pub open spec fn is_tool_schema_of(schema: schemars::schema::RootSchema, value: serde_json::Value) -> bool {
    &&& root_schema_value(schema) matches Some(root)
    &&& json_value_object(root) matches Some(entries)
    &&& json_value_object(value) == Some(tool_schema_selection(entries))
}

/// The tool schema of a document does not depend on the call that draws it:
/// any two tool schemas drawn from the same document hold the same entries.
pub proof fn lemma_tool_schema_depends_on_the_document_alone(
    schema: schemars::schema::RootSchema,
    first: serde_json::Value,
    second: serde_json::Value,
)
    requires
        is_tool_schema_of(schema, first),
        is_tool_schema_of(schema, second),
    ensures
        json_value_object(first) == json_value_object(second),
{
}

/// A tool's parameter schema keeps a key of the document it was drawn from
/// exactly when the key is `properties`, `required`, `type`,
/// `additionalProperties`, `$defs` or `definitions`, and keeps it with the
/// document's value; every other entry of the document is left behind.
pub proof fn lemma_tool_schema_keeps_the_six_parameter_keys(
    entries: Map<Seq<char>, serde_json::Value>,
)
    ensures
        forall|key: Seq<char>|
            #[trigger] tool_schema_selection(entries).dom().contains(key) <==> (
            entries.dom().contains(key) && (key == "properties"@ || key == "required"@ || key
                == "type"@ || key == "additionalProperties"@ || key == "$defs"@ || key
                == "definitions"@)),
        forall|key: Seq<char>|
            #[trigger] tool_schema_selection(entries).dom().contains(key) ==> tool_schema_selection(
                entries,
            )[key] == entries[key],
{
    let keys = tool_schema_keys();
    assert forall|key: Seq<char>|
        is_tool_schema_key(key) <==> (key == "properties"@ || key == "required"@ || key
            == "type"@ || key == "additionalProperties"@ || key == "$defs"@ || key
            == "definitions"@) by {
        if keys.contains(key) {
            let i = choose|i: int| 0 <= i < keys.len() && keys[i] == key;
            assert(0 <= i < 6);
        }
        if key == "properties"@ {
            assert(keys[0] == key);
        }
        if key == "required"@ {
            assert(keys[1] == key);
        }
        if key == "type"@ {
            assert(keys[2] == key);
        }
        if key == "additionalProperties"@ {
            assert(keys[3] == key);
        }
        if key == "$defs"@ {
            assert(keys[4] == key);
        }
        if key == "definitions"@ {
            assert(keys[5] == key);
        }
    }
}

/// Narrowing is idempotent: a tool schema narrowed again is unchanged.
pub proof fn lemma_tool_schema_selection_idempotent(entries: Map<Seq<char>, serde_json::Value>)
    ensures
        tool_schema_selection(tool_schema_selection(entries)) == tool_schema_selection(entries),
{
    assert(tool_schema_selection(tool_schema_selection(entries)) =~= tool_schema_selection(
        entries,
    ));
}

} // verus!
