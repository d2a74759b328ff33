//! Field lookup in the upstream's JSON body.
//!
//! The library never interprets JSON itself: serde_json does, behind the two
//! trusted wrappers below. Each wrapper's result is a function of the body
//! text and the key alone, and is given a name that the contracts of the
//! verified parsing code speak of exactly.

use vstd::prelude::*;

verus! {

/// The string value stored under `key` in the top-level object of the JSON
/// document `body`; `None` when `body` is not valid JSON, its top level is
/// not an object, `key` is absent, or the value under `key` is not a string.
pub uninterp spec fn string_field(body: Seq<char>, key: Seq<char>) -> Option<Seq<char>>;

/// The decimal text of the number stored under `key` in the top-level object
/// of the JSON document `body`, as serde_json serializes that number; `None`
/// when `body` is not valid JSON, its top level is not an object, `key` is
/// absent, or the value under `key` is not a number.
pub uninterp spec fn number_field(body: Seq<char>, key: Seq<char>) -> Option<Seq<char>>;

/// Relies on serde_json::from_str, serde_json::Value::get and
/// serde_json::Value::as_str: `from_str` parses the document, `get` looks the
/// key up in a top-level object (`None` on any other top level or a missing
/// key), and `as_str` keeps only a string value. The outcome depends on
/// `body` and `key` alone.
#[verifier::external_body]
pub(crate) fn lookup_string_field(body: &str, key: &str) -> (r: Option<String>)
    ensures
        r matches Some(v) ==> string_field(body@, key@) == Some(v@),
        r is None ==> string_field(body@, key@) is None,
{
    let doc: serde_json::Value = serde_json::from_str(body).ok()?;
    Some(doc.get(key)?.as_str()?.to_string())
}

/// Relies on serde_json::from_str, serde_json::Value::get,
/// serde_json::Value::as_number and the Display impl of serde_json::Number:
/// `as_number` keeps only a numeric value, and `Number`'s `Display` writes
/// its decimal text. The outcome depends on `body` and `key` alone.
#[verifier::external_body]
pub(crate) fn lookup_number_field(body: &str, key: &str) -> (r: Option<String>)
    ensures
        r matches Some(v) ==> number_field(body@, key@) == Some(v@),
        r is None ==> number_field(body@, key@) is None,
{
    let doc: serde_json::Value = serde_json::from_str(body).ok()?;
    Some(doc.get(key)?.as_number()?.to_string())
}

} // verus!
