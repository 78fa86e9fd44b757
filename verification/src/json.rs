//! The boundary to `serde_json`: the mathematical content of a JSON value and
//! the contracts that are taken on trust for the `serde_json` functions that
//! this library calls.

use vstd::prelude::*;

verus! {

/// The content of a JSON value as a mathematical tree.
///
/// Strings are sequences of characters and an object is a map from member
/// names to member values.  Of a number the model keeps only that it is one.
pub enum JsonModel {
    Null,
    Boolean(bool),
    Number,
    Text(Seq<char>),
    Array(Seq<JsonModel>),
    Object(Map<Seq<char>, JsonModel>),
}

#[verifier::external_type_specification]
#[verifier::external_body]
pub struct ExValue(serde_json::Value);

#[verifier::external_type_specification]
#[verifier::external_body]
#[verifier::reject_recursive_types(K)]
#[verifier::reject_recursive_types(V)]
pub struct ExMap<K, V>(serde_json::Map<K, V>);

/// The content of a `serde_json::Value`.
pub uninterp spec fn json_model(value: serde_json::Value) -> JsonModel;

/// The members that a `serde_json::Map` holds, each name with the content of
/// the value stored under it.
pub uninterp spec fn map_members(map: serde_json::Map<String, serde_json::Value>) -> Map<
    Seq<char>,
    JsonModel,
>;

/// `serde_json::Value::as_object` is trusted to hand out the map of an object,
/// holding exactly the object's members, and `None` for every other value.
pub assume_specification<'a>[ serde_json::Value::as_object ](
    value: &'a serde_json::Value,
) -> (result: Option<&'a serde_json::Map<String, serde_json::Value>>)
    ensures
        match result {
            Some(map) => json_model(*value) == JsonModel::Object(map_members(*map)),
            None => !(json_model(*value) is Object),
        },
;

/// `serde_json::Value::as_str` is trusted to hand out the text of a JSON
/// string, character for character, and `None` for every other value.
pub assume_specification<'a>[ serde_json::Value::as_str ](value: &'a serde_json::Value) -> (result:
    Option<&'a str>)
    ensures
        match result {
            Some(text) => json_model(*value) == JsonModel::Text(text@),
            None => !(json_model(*value) is Text),
        },
;

/// Calls `serde_json::Map::get` with a string slice as the key.  It is trusted
/// to hand out the value stored under exactly that name, and `None` when the
/// map has no member of that name.
#[verifier::external_body]
pub(crate) fn member<'a>(map: &'a serde_json::Map<String, serde_json::Value>, name: &str) -> (result:
    Option<&'a serde_json::Value>)
    ensures
        match result {
            Some(value) => map_members(*map).contains_key(name@) && map_members(*map)[name@]
                == json_model(*value),
            None => !map_members(*map).contains_key(name@),
        },
{
    map.get(name)
}

/// Makes `serde_json::Value::Null`, which is trusted to be the JSON null.
#[verifier::external_body]
pub(crate) fn null_value() -> (value: serde_json::Value)
    ensures
        json_model(value) == JsonModel::Null,
{
    serde_json::Value::Null
}

/// Calls `serde_json::Value::from` on a string slice.  It is trusted to make
/// the JSON string that holds a copy of exactly that text.
#[verifier::external_body]
pub(crate) fn text_value(text: &str) -> (value: serde_json::Value)
    ensures
        json_model(value) == JsonModel::Text(text@),
{
    serde_json::Value::from(text)
}

} // verus!
