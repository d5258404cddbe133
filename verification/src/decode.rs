//! Decoding of a status report from the body of a response.
//!
//! A report is a JSON object. Its members `host` and `status` are strings.
//! Its member `statusMessage` is a string, or `null`, or missing. Its member
//! `endpoints` is an array, or `null`, or missing; each value of the array is
//! an object whose members `statusMessage` and `grade` are, each of them, a
//! string, or `null`, or missing. Other members are passed over.

use vstd::prelude::*;
use crate::error::DecodeError;
use crate::json::{JsonModel, json_document, json_model, json_models, member, parse_document};
use crate::response::{Endpoint, EndpointView, Response, ResponseView};

verus! {

/// The text under a key that must hold a string.
pub open spec fn required_text(fields: Map<Seq<char>, JsonModel>, key: Seq<char>) -> Result<
    Seq<char>,
    DecodeError,
> {
    if fields.contains_key(key) {
        match fields[key] {
            JsonModel::Text(text) => Ok(text),
            _ => Err(DecodeError::Schema),
        }
    } else {
        Err(DecodeError::Schema)
    }
}

/// The text under a key that may hold a string, hold `null` or be missing.
pub open spec fn optional_text(fields: Map<Seq<char>, JsonModel>, key: Seq<char>) -> Result<
    Option<Seq<char>>,
    DecodeError,
> {
    if fields.contains_key(key) {
        match fields[key] {
            JsonModel::Text(text) => Ok(Some(text)),
            JsonModel::Null => Ok(None),
            _ => Err(DecodeError::Schema),
        }
    } else {
        Ok(None)
    }
}

/// The endpoint that a JSON value describes.
pub open spec fn decode_endpoint_model(value: JsonModel) -> Result<EndpointView, DecodeError> {
    match value {
        JsonModel::Object(fields) => match (
            optional_text(fields, "statusMessage"@),
            optional_text(fields, "grade"@),
        ) {
            (Ok(status_message), Ok(grade)) => Ok(EndpointView { status_message, grade }),
            _ => Err(DecodeError::Schema),
        },
        _ => Err(DecodeError::Schema),
    }
}

/// The endpoints that the values of a JSON array describe: all of them, in
/// their order, or an error if one of the values describes none.
pub open spec fn decode_endpoints_model(items: Seq<JsonModel>) -> Result<
    Seq<EndpointView>,
    DecodeError,
> {
    if forall|i: int| 0 <= i < items.len() ==> (#[trigger] decode_endpoint_model(items[i])) is Ok {
        Ok(Seq::new(items.len(), |i: int| decode_endpoint_model(items[i])->Ok_0))
    } else {
        Err(DecodeError::Schema)
    }
}

/// The endpoints under the key `endpoints`, which may hold an array, hold
/// `null` or be missing.
pub open spec fn optional_endpoints(fields: Map<Seq<char>, JsonModel>) -> Result<
    Option<Seq<EndpointView>>,
    DecodeError,
> {
    if fields.contains_key("endpoints"@) {
        match fields["endpoints"@] {
            JsonModel::List(items) => match decode_endpoints_model(items) {
                Ok(endpoints) => Ok(Some(endpoints)),
                Err(e) => Err(e),
            },
            JsonModel::Null => Ok(None),
            _ => Err(DecodeError::Schema),
        }
    } else {
        Ok(None)
    }
}

/// The status report that a JSON value describes.
pub open spec fn decode_model(value: JsonModel) -> Result<ResponseView, DecodeError> {
    match value {
        JsonModel::Object(fields) => match (
            required_text(fields, "host"@),
            required_text(fields, "status"@),
            optional_text(fields, "statusMessage"@),
            optional_endpoints(fields),
        ) {
            (Ok(host), Ok(status), Ok(status_message), Ok(endpoints)) => Ok(
                ResponseView { host, status, status_message, endpoints },
            ),
            _ => Err(DecodeError::Schema),
        },
        _ => Err(DecodeError::Schema),
    }
}

/// The status report that a body holds: a body that is no JSON document is a
/// syntax error, a document that describes no report a schema error.
pub open spec fn decode_document(document: Option<JsonModel>) -> Result<ResponseView, DecodeError> {
    match document {
        Some(value) => decode_model(value),
        None => Err(DecodeError::Syntax),
    }
}

/// Whether a decoded report is the one that the model asks for.
pub open spec fn decoded_as(
    decoded: Result<Response, DecodeError>,
    expected: Result<ResponseView, DecodeError>,
) -> bool {
    match expected {
        Ok(report) => decoded matches Ok(r) && r@ == report,
        Err(e) => decoded == Err::<Response, DecodeError>(e),
    }
}

/// Reads the member under `key` of an object as a text that may be absent.
fn text_member(object: &serde_json::Value, key: &str) -> (text: Result<Option<String>, DecodeError>)
    requires
        json_model(*object) is Object,
    ensures
        match optional_text(json_model(*object)->Object_0, key@) {
            Ok(expected) => text matches Ok(t) && t.deep_view() == expected,
            Err(e) => text == Err::<Option<String>, DecodeError>(e),
        },
{
    match member(object, key) {
        None => Ok(None),
        Some(held) => {
            if held.is_null() {
                Ok(None)
            } else {
                match held.as_str() {
                    Some(t) => Ok(Some(t.to_owned())),
                    None => Err(DecodeError::Schema),
                }
            }
        },
    }
}

/// Reads the member under `key` of an object as a text that must be there.
fn required_member(object: &serde_json::Value, key: &str) -> (text: Result<String, DecodeError>)
    requires
        json_model(*object) is Object,
    ensures
        match required_text(json_model(*object)->Object_0, key@) {
            Ok(expected) => text matches Ok(t) && t@ == expected,
            Err(e) => text == Err::<String, DecodeError>(e),
        },
{
    match member(object, key) {
        None => Err(DecodeError::Schema),
        Some(held) => match held.as_str() {
            Some(t) => Ok(t.to_owned()),
            None => Err(DecodeError::Schema),
        },
    }
}

/// Decodes one endpoint from the JSON value that describes it.
fn decode_endpoint(value: &serde_json::Value) -> (decoded: Result<Endpoint, DecodeError>)
    ensures
        match decode_endpoint_model(json_model(*value)) {
            Ok(expected) => decoded matches Ok(endpoint) && endpoint@ == expected,
            Err(e) => decoded == Err::<Endpoint, DecodeError>(e),
        },
{
    if !value.is_object() {
        return Err(DecodeError::Schema);
    }
    let status_message = match text_member(value, "statusMessage") {
        Ok(text) => text,
        Err(e) => { return Err(e); },
    };
    let grade = match text_member(value, "grade") {
        Ok(text) => text,
        Err(e) => { return Err(e); },
    };
    Ok(Endpoint { status_message, grade })
}

/// Decodes the endpoints from the values of a JSON array.
fn decode_endpoints(items: &Vec<serde_json::Value>) -> (decoded: Result<Vec<Endpoint>, DecodeError>)
    ensures
        match decode_endpoints_model(json_models(items@)) {
            Ok(expected) => decoded matches Ok(endpoints) && endpoints.deep_view() == expected,
            Err(e) => decoded == Err::<Vec<Endpoint>, DecodeError>(e),
        },
{
    let ghost models = json_models(items@);
    let mut endpoints: Vec<Endpoint> = Vec::new();
    let mut i: usize = 0;
    while i < items.len()
        invariant
            i <= items.len(),
            endpoints.len() == i,
            models == json_models(items@),
            forall|j: int|
                0 <= j < i ==> (#[trigger] decode_endpoint_model(models[j])) == Ok::<
                    EndpointView,
                    DecodeError,
                >(endpoints@[j]@),
        decreases items.len() - i,
    {
        match decode_endpoint(&items[i]) {
            Ok(endpoint) => {
                endpoints.push(endpoint);
            },
            Err(e) => {
                assert(decode_endpoint_model(models[i as int]) is Err);
                return Err(e);
            },
        }
        i += 1;
    }
    assert(endpoints.deep_view() =~= decode_endpoints_model(models)->Ok_0);
    Ok(endpoints)
}

/// Reads the member `endpoints` of an object.
fn endpoints_member(object: &serde_json::Value) -> (decoded: Result<
    Option<Vec<Endpoint>>,
    DecodeError,
>)
    requires
        json_model(*object) is Object,
    ensures
        match optional_endpoints(json_model(*object)->Object_0) {
            Ok(expected) => decoded matches Ok(endpoints) && endpoints.deep_view() == expected,
            Err(e) => decoded == Err::<Option<Vec<Endpoint>>, DecodeError>(e),
        },
{
    match member(object, "endpoints") {
        None => Ok(None),
        Some(held) => {
            if held.is_null() {
                Ok(None)
            } else {
                match held.as_array() {
                    Some(items) => match decode_endpoints(items) {
                        Ok(endpoints) => Ok(Some(endpoints)),
                        Err(e) => Err(e),
                    },
                    None => Err(DecodeError::Schema),
                }
            }
        },
    }
}

/// Decodes a status report from the JSON value that describes it.
pub fn decode_value(value: &serde_json::Value) -> (decoded: Result<Response, DecodeError>)
    ensures
        decoded_as(decoded, decode_model(json_model(*value))),
{
    if !value.is_object() {
        return Err(DecodeError::Schema);
    }
    let host = match required_member(value, "host") {
        Ok(text) => text,
        Err(e) => { return Err(e); },
    };
    let status = match required_member(value, "status") {
        Ok(text) => text,
        Err(e) => { return Err(e); },
    };
    let status_message = match text_member(value, "statusMessage") {
        Ok(text) => text,
        Err(e) => { return Err(e); },
    };
    let endpoints = match endpoints_member(value) {
        Ok(list) => list,
        Err(e) => { return Err(e); },
    };
    Ok(Response { host, status, status_message, endpoints })
}

/// A report needs no more than its `host` and its `status`: the members that
/// may be missing are no error when they are missing.
pub proof fn lemma_host_and_status_suffice(
    fields: Map<Seq<char>, JsonModel>,
    host: Seq<char>,
    status: Seq<char>,
)
    requires
        fields.contains_key("host"@) && fields["host"@] == JsonModel::Text(host),
        fields.contains_key("status"@) && fields["status"@] == JsonModel::Text(status),
        !fields.contains_key("statusMessage"@),
        !fields.contains_key("endpoints"@),
    ensures
        decode_model(JsonModel::Object(fields)) == Ok::<ResponseView, DecodeError>(
            ResponseView { host, status, status_message: None, endpoints: None },
        ),
{
}

/// Decodes a status report from the body of a response.
pub fn decode_json(body: &str) -> (decoded: Result<Response, DecodeError>)
    ensures
        decoded_as(decoded, decode_document(json_document(body@))),
{
    match parse_document(body) {
        Ok(value) => decode_value(&value),
        Err(_) => Err(DecodeError::Syntax),
    }
}

} // verus!
