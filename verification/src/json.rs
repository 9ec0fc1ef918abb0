//! JSON documents, as `serde_json` reads them.

use serde_json::Error as JsonError;
use serde_json::Value;
use vstd::prelude::*;

verus! {

/// `serde_json::Value`: a JSON document.
#[verifier::external_type_specification]
#[verifier::external_body]
pub struct ExValue(Value);

/// `serde_json::Error`: why a text is no JSON document.
#[verifier::external_type_specification]
#[verifier::external_body]
pub struct ExJsonError(JsonError);

/// What a JSON document holds.
pub enum Json {
    Null,
    Bool(bool),
    /// A number, with its value where that is an integer from 0 to `u64::MAX`.
    Number(Option<u64>),
    Text(Seq<char>),
    Array(Seq<Json>),
    Object(Map<Seq<char>, Json>),
}

impl Json {
    /// The member `key` of an object.
    pub open spec fn member(self, key: Seq<char>) -> Option<Json> {
        match self {
            Json::Object(members) => if members.contains_key(key) {
                Some(members[key])
            } else {
                None
            },
            _ => None,
        }
    }

    /// The text of a string.
    pub open spec fn text(self) -> Option<Seq<char>> {
        match self {
            Json::Text(text) => Some(text),
            _ => None,
        }
    }

    /// The value of a number from 0 to 255.
    pub open spec fn small(self) -> Option<u8> {
        match self {
            Json::Number(Some(n)) => if n <= u8::MAX {
                Some(n as u8)
            } else {
                None
            },
            _ => None,
        }
    }

    /// The value of `true` or `false`.
    pub open spec fn flag(self) -> Option<bool> {
        match self {
            Json::Bool(flag) => Some(flag),
            _ => None,
        }
    }

    /// The items of an array.
    pub open spec fn items(self) -> Option<Seq<Json>> {
        match self {
            Json::Array(items) => Some(items),
            _ => None,
        }
    }
}

/// The document that a `serde_json::Value` holds.
pub uninterp spec fn json_view(value: Value) -> Json;

/// The document that `serde_json::from_slice` reads from `body`, where it reads one.
pub uninterp spec fn json_document(body: Seq<u8>) -> Option<Json>;

/// `serde_json::from_slice` at `serde_json::Value`: reads `body` as one JSON document.
/// Claimed: whether it reads one, and which, depends on the bytes alone.
#[verifier::external_body]
pub(crate) fn parse(body: &[u8]) -> (r: Result<Value, JsonError>)
    ensures
        r is Ok <==> json_document(body@) is Some,
        r matches Ok(value) ==> json_document(body@) == Some(json_view(value)),
{
    serde_json::from_slice::<Value>(body)
}

/// `serde_json::Value::get` with a text as index: the member of that name, where the
/// value is an object that has one.
#[verifier::external_body]
pub(crate) fn member<'a>(value: &'a Value, key: &str) -> (r: Option<&'a Value>)
    ensures
        r is Some <==> json_view(*value).member(key@) is Some,
        r matches Some(found) ==> json_view(*value).member(key@) == Some(json_view(*found)),
{
    value.get(key)
}

/// `serde_json::Value::as_str`: the text of a string, nothing for any other value.
pub assume_specification[ Value::as_str ](value: &Value) -> (r: Option<&str>)
    ensures
        r is Some <==> json_view(*value).text() is Some,
        r matches Some(text) ==> json_view(*value).text() == Some(text@),
;

/// `serde_json::Value::as_u64`: the value of a number that is an integer from 0 to
/// `u64::MAX`, nothing for any other value.
pub assume_specification[ Value::as_u64 ](value: &Value) -> (r: Option<u64>)
    ensures
        r == match json_view(*value) {
            Json::Number(n) => n,
            _ => None,
        },
;

/// `serde_json::Value::as_bool`: the value of `true` or `false`, nothing for any other value.
pub assume_specification[ Value::as_bool ](value: &Value) -> (r: Option<bool>)
    ensures
        r == json_view(*value).flag(),
;

/// `serde_json::Value::is_null`.
pub assume_specification[ Value::is_null ](value: &Value) -> (r: bool)
    ensures
        r == (json_view(*value) is Null),
;

/// `serde_json::Value::is_object`.
pub assume_specification[ Value::is_object ](value: &Value) -> (r: bool)
    ensures
        r == (json_view(*value) is Object),
;

/// `serde_json::Value::as_array`: the items of an array, nothing for any other value.
pub assume_specification[ Value::as_array ](value: &Value) -> (r: Option<&Vec<Value>>)
    ensures
        r is Some <==> json_view(*value).items() is Some,
        r matches Some(items) ==> json_view(*value).items() == Some(
            Seq::new(items@.len(), |i: int| json_view(items@[i])),
        ),
;

} // verus!
