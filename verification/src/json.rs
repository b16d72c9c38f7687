//! The pieces of `serde_json` that this crate builds and prints JSON with.
//!
//! Verus does not look inside `serde_json`. What is stated of it here is taken
//! on trust from its source; everything else in the crate is proved from
//! these statements.

use crate::error::{VtxError, VtxResult};
use crate::text::decimal;
use vstd::prelude::*;
use vstd::utf8::encode_utf8;

verus! {

/// Trusted: `serde_json::Value`, taken as an opaque type. What a value holds
/// is spoken of only through `json_text`.
#[verifier::external_type_specification]
#[verifier::external_body]
pub struct ExJsonValue(serde_json::Value);

/// Trusted: `serde_json::Map`, taken as an opaque type. What an object holds
/// is spoken of only through `entries`.
#[verifier::external_type_specification]
#[verifier::external_body]
#[verifier::reject_recursive_types(K)]
#[verifier::reject_recursive_types(V)]
pub struct ExJsonMap<K, V>(serde_json::Map<K, V>);

/// Trusted: `serde_json::Error`, taken as an opaque type. Nothing is stated of
/// what an error holds.
#[verifier::external_type_specification]
#[verifier::external_body]
pub struct ExJsonError(serde_json::Error);

/// A JSON object under construction: string keys, any JSON values.
pub type JsonObject = serde_json::Map<String, serde_json::Value>;

/// The compact JSON text of a value, as `serde_json` prints it.
pub uninterp spec fn json_text(value: serde_json::Value) -> Seq<char>;

/// The compact JSON text of a string: the string in double quotes, with the
/// characters escaped that JSON asks to escape.
pub uninterp spec fn string_text(s: Seq<char>) -> Seq<char>;

/// What an object holds: for each key, the compact JSON text of its value.
pub uninterp spec fn entries(object: JsonObject) -> Map<Seq<char>, Seq<char>>;

/// What `serde_json` makes of an object with the given entries when asked to
/// serialize it: the compact JSON text, or `None` where it reports an error.
/// With its default features `serde_json` keeps an object's keys sorted, so
/// the outcome depends on the entries alone.
pub uninterp spec fn object_text(entries: Map<Seq<char>, Seq<char>>) -> Option<Seq<char>>;

/// The JSON text of a truth value.
pub open spec fn bool_text(b: bool) -> Seq<char> {
    if b {
        "true"@
    } else {
        "false"@
    }
}

/// Trusted: `serde_json::Value::Bool`. The value prints as `true` or `false`.
#[verifier::external_body]
pub(crate) fn json_bool(b: bool) -> (value: serde_json::Value)
    ensures
        json_text(value) == bool_text(b),
{
    serde_json::Value::Bool(b)
}

/// Trusted: `serde_json::Value::from` on a `u64`. The value is a number that
/// prints as the decimal numeral of `n`.
#[verifier::external_body]
pub(crate) fn json_number(n: u64) -> (value: serde_json::Value)
    ensures
        json_text(value) == decimal(n as nat),
{
    serde_json::Value::from(n)
}

/// Trusted: `serde_json::Value::String`. The value prints as the quoted and
/// escaped form of `s`.
#[verifier::external_body]
pub(crate) fn json_string(s: String) -> (value: serde_json::Value)
    ensures
        json_text(value) == string_text(s@),
{
    serde_json::Value::String(s)
}

/// Trusted: `serde_json::Map::new`. The new object has no entries.
#[verifier::external_body]
pub(crate) fn new_object() -> (object: JsonObject)
    ensures
        entries(object) == (Map::<Seq<char>, Seq<char>>::empty()),
{
    serde_json::Map::new()
}

/// Trusted: `serde_json::Map::insert`. The object then holds `value` under
/// `key`, in place of what it held there before; its other entries stay.
#[verifier::external_body]
pub(crate) fn object_insert(object: &mut JsonObject, key: String, value: serde_json::Value)
    ensures
        entries(*final(object)) == entries(*old(object)).insert(key@, json_text(value)),
{
    object.insert(key, value);
}

/// Trusted: `serde_json::to_string` on an object. The outcome is the one that
/// `object_text` names: the compact text of the object where the call
/// succeeds, none where it fails.
#[verifier::external_body]
pub(crate) fn object_to_string(object: &JsonObject) -> (r: Result<String, serde_json::Error>)
    ensures
        match r {
            Ok(text) => object_text(entries(*object)) == Some(text@),
            Err(_) => object_text(entries(*object)) is None,
        },
{
    serde_json::to_string(object)
}

/// Trusted: `serde_json::to_vec` on an object. It succeeds exactly where
/// `serde_json::to_string` does, which is built on it, and the bytes are then
/// the UTF-8 encoding of the same text.
#[verifier::external_body]
pub(crate) fn object_to_vec(object: &JsonObject) -> (r: Result<Vec<u8>, serde_json::Error>)
    ensures
        match r {
            Ok(bytes) => object_text(entries(*object)) matches Some(text) && bytes@ == encode_utf8(
                text,
            ),
            Err(_) => object_text(entries(*object)) is None,
        },
{
    serde_json::to_vec(object)
}

/// Trusted: the `Display` form of a `serde_json::Error`. Nothing is stated of
/// the text.
#[verifier::external_body]
pub(crate) fn error_text(error: &serde_json::Error) -> String {
    error.to_string()
}

/// What `decode` makes of the outcome of a JSON conversion: a value passes
/// through, a failure becomes a serialization error.
pub open spec fn decoded<T>(outcome: Result<T, serde_json::Error>, r: VtxResult<T>) -> bool {
    match outcome {
        Ok(value) => r == Ok::<T, VtxError>(value),
        Err(_) => r matches Err(e) && e is SerializationError,
    }
}

/// Turns the outcome of a JSON conversion into this crate's result type. The
/// error carries the text that `serde_json` gives for the failure.
pub fn decode<T>(outcome: Result<T, serde_json::Error>) -> (r: VtxResult<T>)
    ensures
        decoded(outcome, r),
{
    match outcome {
        Ok(value) => Ok(value),
        Err(error) => Err(VtxError::SerializationError(error_text(&error))),
    }
}

/// `r` is what comes of handing `text` to `parse`: the value that the parser
/// gave, or a serialization error where it gave none.
pub open spec fn parsed_from<T, P: FnOnce(&str) -> Result<T, serde_json::Error>>(
    parse: P,
    text: &str,
    r: VtxResult<T>,
) -> bool {
    exists|outcome: Result<T, serde_json::Error>|
        call_ensures(parse, (text,), outcome) && #[trigger] decoded(outcome, r)
}

/// Hands `text` to `parse` and turns the outcome into this crate's result
/// type.
pub fn parse_with<T, P: FnOnce(&str) -> Result<T, serde_json::Error>>(text: &str, parse: P) -> (r:
    VtxResult<T>)
    requires
        call_requires(parse, (text,)),
    ensures
        parsed_from(parse, text, r),
{
    let outcome = parse(text);
    let ghost seen = outcome;
    let r = decode(outcome);
    assert(call_ensures(parse, (text,), seen) && decoded(seen, r));
    r
}

} // verus!
