//! JSON values as `serde_json` holds them, and the little this library needs
//! to know about them: which values are objects, and what an object holds.

use serde_json::Value;
use vstd::prelude::*;

verus! {

/// A JSON value. What is inside it is known only through
/// [`value_object`].
#[verifier::external_type_specification]
#[verifier::external_body]
pub struct ExValue(serde_json::Value);

/// A JSON object: keys with their values. What it holds is
/// [`object_entries`].
#[verifier::external_type_specification]
#[verifier::external_body]
#[verifier::reject_recursive_types(K)]
#[verifier::reject_recursive_types(V)]
pub struct ExJsonObject<K, V>(serde_json::Map<K, V>);

/// The error that `serde_json` reports when a value cannot be serialised or
/// parsed.
#[verifier::external_type_specification]
#[verifier::external_body]
pub struct ExJsonError(serde_json::Error);

/// A JSON object with string keys.
pub type JsonObject = serde_json::Map<String, Value>;

/// What a JSON object holds, as a mathematical map from keys to values.
pub type JsonEntries = Map<Seq<char>, Value>;

/// The entries of a JSON object: each key with the value stored under it.
pub uninterp spec fn object_entries(object: JsonObject) -> JsonEntries;

/// The object that a JSON value is, if it is one: `Some` for
/// `Value::Object`, `None` for null, booleans, numbers, strings and arrays.
pub uninterp spec fn value_object(value: Value) -> Option<JsonObject>;

/// The text that a `serde_json::Error` displays.
pub uninterp spec fn json_error_text(error: serde_json::Error) -> Seq<char>;

/// Whether a `serde_json::Error` reports a failure to read or write bytes.
pub uninterp spec fn json_error_is_io(error: serde_json::Error) -> bool;

/// `Clone` for `serde_json::Value`: the copy is the same JSON value.
pub assume_specification[ <Value as Clone>::clone ](value: &Value) -> (copy: Value)
    ensures
        copy == *value,
;

/// `Clone` for `serde_json::Map`: the copy is the same JSON object.
pub assume_specification[ <serde_json::Map<String, Value> as Clone>::clone ](
    source: &serde_json::Map<String, Value>,
) -> (copy: serde_json::Map<String, Value>)
    ensures
        copy == *source,
;

/// `serde_json::Map::new`: an object without entries.
#[verifier::external_body]
pub(crate) fn new_object() -> (created: JsonObject)
    ensures
        object_entries(created) == JsonEntries::empty(),
{
    serde_json::Map::new()
}

/// `serde_json::Map::insert`: afterwards the object holds `value` under
/// `key`, in place of what it may have held there, and every other entry as
/// before. The value that was replaced is dropped.
#[verifier::external_body]
pub(crate) fn object_insert(object: &mut JsonObject, key: String, value: Value)
    ensures
        object_entries(*final(object)) == object_entries(*old(object)).insert(key@, value),
{
    object.insert(key, value);
}

/// Tells the `Object` variant of `serde_json::Value` from the others: an
/// object comes back as `Ok` with the map it held, any other value comes back
/// unchanged as `Err`.
#[verifier::external_body]
pub(crate) fn into_object(value: Value) -> (outcome: Result<JsonObject, Value>)
    ensures
        match outcome {
            Ok(object) => value_object(value) == Some(object),
            Err(other) => value_object(value).is_none() && other == value,
        },
{
    match value {
        Value::Object(object) => Ok(object),
        other => Err(other),
    }
}

/// `Display` of `serde_json::Error`: the description of what went wrong,
/// followed by the line and column where the error has them. The text is a
/// function of the error, except where the error reports a failure of input
/// or output: there it quotes the operating system's own message, which is
/// not the same on every machine, so nothing is stated of it.
#[verifier::external_body]
pub(crate) fn error_text(error: &serde_json::Error) -> (text: String)
    ensures
        !json_error_is_io(*error) ==> text@ == json_error_text(*error),
{
    error.to_string()
}

/// `serde_json::Error::is_io`: whether the error was caused by a failure to
/// read or write bytes on a stream.
#[verifier::external_body]
fn error_is_io(error: &serde_json::Error) -> (io: bool)
    ensures
        io == json_error_is_io(*error),
{
    error.is_io()
}

/// Whether a serialiser's error reports a failure of input or output. Of
/// every other error the displayed text is [`json_error_text`], and a tool
/// error made of it carries that text; this is how a caller tells the two
/// apart.
pub fn is_io_error(error: &serde_json::Error) -> (io: bool)
    ensures
        io == json_error_is_io(*error),
{
    error_is_io(error)
}

} // verus!
