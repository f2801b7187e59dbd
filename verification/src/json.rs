//! The JSON values the backend sends, carried through opaquely, and the two
//! JSON lookups the error handling needs (both done by `serde_json`).

use vstd::prelude::*;

verus! {

/// A JSON value (`serde_json::Value`), carried through unexamined.
#[verifier::external_type_specification]
#[verifier::external_body]
pub struct ExJsonValue(serde_json::Value);

/// A JSON object (`serde_json::Map`), carried through unexamined.
#[verifier::external_type_specification]
#[verifier::external_body]
#[verifier::reject_recursive_types(K)]
#[verifier::reject_recursive_types(V)]
pub struct ExJsonMap<K, V>(serde_json::Map<K, V>);

/// Copying a JSON value (`Value`'s derived `Clone`) gives an equal value.
pub assume_specification[ <serde_json::Value as Clone>::clone ](v: &serde_json::Value) -> (r:
    serde_json::Value)
    ensures
        r == *v,
;

/// Copying a JSON object (`Map<String, Value>::clone`, which copies its
/// entries) gives an equal object.
pub assume_specification[ <serde_json::Map<String, serde_json::Value> as Clone>::clone ](
    m: &serde_json::Map<String, serde_json::Value>,
) -> (r: serde_json::Map<String, serde_json::Value>)
    ensures
        r == *m,
;

/// The string member `key` of the JSON object that `body` holds, if `body`
/// parses as JSON, is an object, has that member and the member is a string.
pub uninterp spec fn json_str_member(body: Seq<char>, key: Seq<char>) -> Option<Seq<char>>;

/// The integer member `key` of the JSON object that `body` holds, if `body`
/// parses as JSON, is an object, has that member and the member is an integer
/// that fits in `i64`.
pub uninterp spec fn json_i64_member(body: Seq<char>, key: Seq<char>) -> Option<i64>;

/// Looks up a string member of a JSON text: `serde_json::from_str::<Value>`,
/// then `Value::get(key)`, then `Value::as_str`.
///
/// The contract claims that the result is a function of `body` and `key`
/// alone, named [`json_str_member`]; JSON parsing itself is not stated.
#[verifier::external_body]
pub fn lookup_json_str(body: &str, key: &str) -> (r: Option<String>)
    ensures
        match r {
            Some(s) => json_str_member(body@, key@) == Some(s@),
            None => json_str_member(body@, key@) is None,
        },
{
    serde_json::from_str::<serde_json::Value>(body).ok().and_then(
        |v| v.get(key).and_then(|x| x.as_str()).map(|s| s.to_string()),
    )
}

/// Looks up an integer member of a JSON text: `serde_json::from_str::<Value>`,
/// then `Value::get(key)`, then `Value::as_i64`.
///
/// The contract claims that the result is a function of `body` and `key`
/// alone, named [`json_i64_member`]; JSON parsing itself is not stated.
#[verifier::external_body]
pub fn lookup_json_i64(body: &str, key: &str) -> (r: Option<i64>)
    ensures
        r == json_i64_member(body@, key@),
{
    serde_json::from_str::<serde_json::Value>(body).ok().and_then(|v| v.get(key).and_then(|x| x.as_i64()))
}

} // verus!
