use json_value_merge::Merge;
use serde_json::Value;
use vstd::prelude::*;

verus! {

/// The type `serde_json::Value`. Nothing is known of a value but what [`json`] and the
/// functions of this module say of it.
#[verifier::external_type_specification]
#[verifier::external_body]
pub struct ExValue(serde_json::Value);

/// A JSON document, as mathematics. A number is given by the text that it is written with.
#[verifier::ext_equal]
pub enum Json {
    Null,
    Bool(bool),
    Number(Seq<char>),
    Text(Seq<char>),
    Array(Seq<Json>),
    Object(Map<Seq<char>, Json>),
}

/// What a `serde_json::Value` holds.
pub uninterp spec fn json(value: Value) -> Json;

/// What is left of `base` when `addition` is merged into it. Objects merge field by field,
/// an array takes the elements of another array, or an object as one element, at its end;
/// in every other case the addition takes the place of what was there.
pub open spec fn merged(base: Json, addition: Json) -> Json
    decreases addition,
{
    match (base, addition) {
        (Json::Object(old_fields), Json::Object(new_fields)) => Json::Object(
            Map::new(
                |name: Seq<char>| old_fields.contains_key(name) || new_fields.contains_key(name),
                |name: Seq<char>|
                    if !new_fields.contains_key(name) {
                        old_fields[name]
                    } else if old_fields.contains_key(name) {
                        merged(old_fields[name], new_fields[name])
                    } else {
                        new_fields[name]
                    },
            ),
        ),
        (Json::Array(old_items), Json::Array(new_items)) => Json::Array(old_items + new_items),
        (Json::Array(old_items), Json::Object(_)) => Json::Array(old_items.push(addition)),
        _ => addition,
    }
}

/// Whether a field can be written into a document: it is an object, or null, which counts as
/// an empty object.
pub open spec fn takes_fields(document: Json) -> bool {
    document is Object || document is Null
}

/// A document that takes fields, with field `name` set to `value`.
pub open spec fn with_field(document: Json, name: Seq<char>, value: Json) -> Json {
    match document {
        Json::Object(fields) => Json::Object(fields.insert(name, value)),
        _ => Json::Object(map![name => value]),
    }
}

/// Calls `serde_json::Map::insert` on an empty map and makes an object of it. Claims that
/// the object has the one field `name`, with `value` as it was given.
#[verifier::external_body]
pub(crate) fn object_of(name: &str, value: Value) -> (object: Value)
    ensures
        json(object) == Json::Object(map![name@ => json(value)]),
{
    let mut fields = serde_json::Map::new();
    fields.insert(name.to_string(), value);
    Value::Object(fields)
}

/// Calls `json_value_merge::Merge::merge`. Claims that the target then holds [`merged`] of
/// what the two values held.
#[verifier::external_body]
pub(crate) fn merge_into(target: &mut Value, addition: &Value)
    ensures
        json(*final(target)) == merged(json(*old(target)), json(*addition)),
{
    target.merge(addition);
}

/// Calls `serde_json`'s `IndexMut` by a field name and assigns a boolean. Claims that the
/// field then holds the boolean and that the other fields are as before; a null target
/// counts as an empty object. The index panics on every other target, which `requires`
/// leaves out.
#[verifier::external_body]
pub(crate) fn set_flag(target: &mut Value, name: &str, flag: bool)
    requires
        takes_fields(json(*old(target))),
    ensures
        json(*final(target)) == with_field(json(*old(target)), name@, Json::Bool(flag)),
{
    target[name] = Value::Bool(flag);
}

/// Calls `serde_json::Value::is_object`. Claims that it tells objects from every other
/// document.
#[verifier::external_body]
pub(crate) fn is_object(value: &Value) -> (answer: bool)
    ensures
        answer == json(*value) is Object,
{
    value.is_object()
}

/// Calls `serde_json::Value::is_null`. Claims that it tells null from every other document.
#[verifier::external_body]
pub(crate) fn is_null(value: &Value) -> (answer: bool)
    ensures
        answer == json(*value) is Null,
{
    value.is_null()
}

} // verus!
