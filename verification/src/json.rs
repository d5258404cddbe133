//! JSON documents, as the `serde_json` crate reads them.
//!
//! The crate's `Value` is kept as it is. What a value holds is told by
//! [`json_model`], and the contracts of the few functions of `serde_json` that
//! this library calls are stated over it. None of these contracts is proved.

use vstd::prelude::*;

verus! {

/// A JSON value as `serde_json` holds it.
#[verifier::external_type_specification]
#[verifier::external_body]
pub struct ExValue(serde_json::Value);

/// Why `serde_json` could not read a text.
#[verifier::external_type_specification]
#[verifier::external_body]
pub struct ExError(serde_json::Error);

/// What a JSON value holds. Of a number only that it is one.
pub enum JsonModel {
    Null,
    Bool(bool),
    Number,
    Text(Seq<char>),
    List(Seq<JsonModel>),
    Object(Map<Seq<char>, JsonModel>),
}

/// What a `serde_json::Value` holds.
pub uninterp spec fn json_model(value: serde_json::Value) -> JsonModel;

/// The JSON document that a text is, as `serde_json::from_str` reads it into
/// a `Value`; `None` where it reports an error.
pub uninterp spec fn json_document(text: Seq<char>) -> Option<JsonModel>;

/// What each value of a list holds.
pub open spec fn json_models(values: Seq<serde_json::Value>) -> Seq<JsonModel> {
    Seq::new(values.len(), |i: int| json_model(values[i]))
}

/// Reads a text with `serde_json::from_str` into a `Value`. The value holds
/// the document that the text is; an error means that the text is none.
#[verifier::external_body]
pub(crate) fn parse_document(text: &str) -> (parsed: Result<serde_json::Value, serde_json::Error>)
    ensures
        match parsed {
            Ok(value) => json_document(text@) == Some(json_model(value)),
            Err(_) => json_document(text@) is None,
        },
{
    serde_json::from_str::<serde_json::Value>(text)
}

/// Looks a key up with `Value::get`. Only an object has members, and only
/// under the keys it holds.
#[verifier::external_body]
pub(crate) fn member<'a>(value: &'a serde_json::Value, key: &str) -> (found: Option<
    &'a serde_json::Value,
>)
    ensures
        match found {
            Some(held) => json_model(*value) matches JsonModel::Object(fields)
                && fields.contains_key(key@) && fields[key@] == json_model(*held),
            None => !(json_model(*value) matches JsonModel::Object(fields) && fields.contains_key(
                key@,
            )),
        },
{
    value.get(key)
}

/// `Value::as_str` gives the text of a string and nothing for any other value.
pub assume_specification[ serde_json::Value::as_str ](value: &serde_json::Value) -> (text: Option<
    &str,
>)
    ensures
        match text {
            Some(t) => json_model(*value) == JsonModel::Text(t@),
            None => !(json_model(*value) is Text),
        },
;

/// `Value::as_array` gives the values of an array, in their order, and
/// nothing for any other value.
pub assume_specification[ serde_json::Value::as_array ](value: &serde_json::Value) -> (items:
    Option<&Vec<serde_json::Value>>)
    ensures
        match items {
            Some(list) => json_model(*value) == JsonModel::List(json_models(list@)),
            None => !(json_model(*value) is List),
        },
;

/// `Value::is_null` tells whether the value is `null`.
pub assume_specification[ serde_json::Value::is_null ](value: &serde_json::Value) -> (null: bool)
    ensures
        null == (json_model(*value) is Null),
;

/// `Value::is_object` tells whether the value is an object.
pub assume_specification[ serde_json::Value::is_object ](value: &serde_json::Value) -> (object:
    bool)
    ensures
        object == (json_model(*value) is Object),
;

} // verus!
