//! JSON values of the `serde_json` crate, as far as the hub reads them.
//!
//! Nothing in this file is proved. A JSON value is opaque here: what the
//! hub reads of one is named below, and each function makes one call into
//! `serde_json` and says that it returns what the name stands for.

use vstd::prelude::*;

verus! {

/// `serde_json::Value`, carried as an opaque value.
#[verifier::external_type_specification]
#[verifier::external_body]
pub struct ExValue(serde_json::Value);

/// The value that a JSON object holds under `key`. There is none where the
/// value is not an object or the object has no such key.
pub uninterp spec fn json_member(value: serde_json::Value, key: Seq<char>) -> Option<serde_json::Value>;

/// The text of a JSON string. There is none where the value is not a string.
pub uninterp spec fn json_text(value: serde_json::Value) -> Option<Seq<char>>;

/// The number that a JSON value holds, where it is an integer from 0 to
/// `u64::MAX`. There is none for any other value.
pub uninterp spec fn json_unsigned(value: serde_json::Value) -> Option<u64>;

/// `Value::get` with a string index: the member of an object under `key`.
#[verifier::external_body]
pub(crate) fn member<'a>(value: &'a serde_json::Value, key: &str) -> (found: Option<&'a serde_json::Value>)
    ensures
        (match found {
            Some(inner) => json_member(*value, key@) == Some(*inner),
            None => json_member(*value, key@) is None,
        }),
{
    value.get(key)
}

/// `Value::as_str`: the text of a string.
#[verifier::external_body]
pub(crate) fn text<'a>(value: &'a serde_json::Value) -> (found: Option<&'a str>)
    ensures
        (match found {
            Some(inner) => json_text(*value) == Some(inner@),
            None => json_text(*value) is None,
        }),
{
    value.as_str()
}

/// `Value::as_u64`: the number, where it is an integer that fits `u64`.
#[verifier::external_body]
pub(crate) fn unsigned(value: &serde_json::Value) -> (found: Option<u64>)
    ensures
        found == json_unsigned(*value),
{
    value.as_u64()
}

/// `Value::clone`: a copy that is the same JSON value.
#[verifier::external_body]
pub(crate) fn copy(value: &serde_json::Value) -> (same: serde_json::Value)
    ensures
        same == *value,
{
    value.clone()
}

} // verus!
