use vstd::prelude::*;
use std::collections::HashMap;

verus! {

#[verifier::external_type_specification]
#[verifier::external_body]
pub struct ExJsonValue(serde_json::Value);

/// Relies on serde_json::Value's Clone: a deep copy, equal to the original.
pub assume_specification[ <serde_json::Value as std::clone::Clone>::clone ](v: &serde_json::Value) -> (r: serde_json::Value)
    ensures
        r == *v,
;

/// The map that holds a partition's entries, keyed by the bits of each key.
pub type StorageMap = HashMap<u128, Vec<u8>>;

/// A storage mapping seen through the byte sequences it holds.
pub open spec fn contents_of(m: Map<u128, Vec<u8>>) -> Map<u128, Seq<u8>> {
    m.map_values(|v: Vec<u8>| v@)
}

/// The JSON value that serde_json builds for a storage mapping: an object from
/// the decimal text of each key to the array of its bytes.
pub uninterp spec fn storage_json(m: Map<u128, Seq<u8>>) -> serde_json::Value;

/// The storage mapping that serde_json decodes from a JSON value, if the value
/// has that shape.
pub uninterp spec fn storage_of_json(v: serde_json::Value) -> Option<Map<u128, Seq<u8>>>;

/// The JSON value that serde_json parses from a text, if the text is JSON.
pub uninterp spec fn json_parsed(text: Seq<char>) -> Option<serde_json::Value>;

/// The member of a JSON object under a name, if the value is an object with it.
pub uninterp spec fn json_field(v: serde_json::Value, name: Seq<char>) -> Option<serde_json::Value>;

/// The characters of a JSON string, if the value is a string.
pub uninterp spec fn json_text(v: serde_json::Value) -> Option<Seq<char>>;

/// Relies on serde_json::to_value for a map from u128 to byte vectors: the
/// value depends on the entries alone (objects are ordered by key), and
/// serializing never fails, since integer keys become strings (so the
/// default that stands in for an error is never taken).
#[verifier::external_body]
pub(crate) fn storage_to_json(m: &StorageMap) -> (r: serde_json::Value)
    ensures
        r == storage_json(contents_of(m@)),
{
    serde_json::to_value(m).unwrap_or_default()
}

/// Relies on serde_json::from_value for a map from u128 to byte vectors: the
/// result depends on the JSON value alone, and the value that to_value built
/// for a mapping decodes to that mapping again.
#[verifier::external_body]
pub(crate) fn storage_from_json(v: serde_json::Value) -> (r: Option<StorageMap>)
    ensures
        r is Some <==> storage_of_json(v) is Some,
        r is Some ==> storage_of_json(v) == Some(contents_of(r->0@)),
        forall|c: Map<u128, Seq<u8>>| v == storage_json(c) ==> r is Some,
        forall|c: Map<u128, Seq<u8>>| v == storage_json(c) ==> contents_of(r->0@) == c,
{
    serde_json::from_value(v).ok()
}

/// Relies on serde_json::from_str parsing a text into a JSON value.
#[verifier::external_body]
pub(crate) fn parse_json(text: &str) -> (r: Option<serde_json::Value>)
    ensures
        r == json_parsed(text@),
{
    serde_json::from_str(text).ok()
}

/// Relies on serde_json::Value::get: the member under `name` of an object.
#[verifier::external_body]
pub(crate) fn member(v: &serde_json::Value, name: &str) -> (r: Option<serde_json::Value>)
    ensures
        r == json_field(*v, name@),
{
    v.get(name).cloned()
}

/// Relies on serde_json::Value::as_str: the characters of a JSON string.
#[verifier::external_body]
pub(crate) fn text_of(v: &serde_json::Value) -> (r: Option<String>)
    ensures
        r matches Some(s) ==> json_text(*v) == Some(s@),
        r is None ==> json_text(*v) is None,
{
    v.as_str().map(String::from)
}

} // verus!
