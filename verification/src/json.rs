//! JSON documents, as `serde_json` reads them.
//!
//! A `serde_json::Value` is carried through unopened. The client asks three
//! things of the decoder: to read a text, to list the members of an object,
//! and to read a value as a string.

use vstd::prelude::*;

verus! {

/// `serde_json::Value`: a JSON value, carried through unopened.
#[verifier::external_type_specification]
#[verifier::external_body]
pub struct ExValue(serde_json::Value);

/// What `serde_json::from_str` makes of a text read as a `serde_json::Value`:
/// the value, or the text of its error.
pub uninterp spec fn json_document(text: Seq<char>) -> Result<serde_json::Value, Seq<char>>;

/// The members of a JSON object, each with its key, in the order in which
/// `serde_json::Map` yields them; `None` for a value that is no object.
pub uninterp spec fn json_members(value: serde_json::Value) -> Option<
    Seq<(Seq<char>, serde_json::Value)>,
>;

/// What `serde_json::from_value` makes of a value read as a `String`: the
/// characters of the string, or the text of its error.
pub uninterp spec fn json_string(value: serde_json::Value) -> Result<Seq<char>, Seq<char>>;

/// No key occurs twice among the members.
pub open spec fn distinct_keys<V>(members: Seq<(Seq<char>, V)>) -> bool {
    forall|i: int, j: int|
        0 <= i < j < members.len() ==> (#[trigger] members[i]).0 != (#[trigger] members[j]).0
}

/// The members of a list, each key as its characters.
pub open spec fn member_views<V>(members: Seq<(String, V)>) -> Seq<(Seq<char>, V)> {
    members.map_values(|member: (String, V)| (member.0@, member.1))
}

/// Reads a text with `serde_json::from_str` as a `serde_json::Value`. An error
/// is handed back as the text that its `Display` prints.
#[verifier::external_body]
pub(crate) fn parse_document(text: &str) -> (document: Result<serde_json::Value, String>)
    ensures
        match document {
            Ok(value) => json_document(text@) == Ok::<serde_json::Value, Seq<char>>(value),
            Err(reason) => json_document(text@) == Err::<serde_json::Value, Seq<char>>(reason@),
        },
{
    serde_json::from_str::<serde_json::Value>(text).map_err(|e| e.to_string())
}

/// Lists the members of an object: `serde_json::Value::as_object`, then the
/// map's iterator, each key and value cloned. A `serde_json::Map` holds each
/// key once.
#[verifier::external_body]
pub(crate) fn object_members(value: &serde_json::Value) -> (members: Option<
    Vec<(String, serde_json::Value)>,
>)
    ensures
        match members {
            Some(list) => json_members(*value) == Some(member_views(list@)),
            None => json_members(*value) is None,
        },
        members matches Some(list) ==> distinct_keys(member_views(list@)),
{
    value.as_object().map(|map| map.iter().map(|(k, v)| (k.clone(), v.clone())).collect())
}

/// Reads a value with `serde_json::from_value` as a `String`. An error is
/// handed back as the text that its `Display` prints.
#[verifier::external_body]
pub(crate) fn decode_string(value: &serde_json::Value) -> (decoded: Result<String, String>)
    ensures
        match decoded {
            Ok(text) => json_string(*value) == Ok::<Seq<char>, Seq<char>>(text@),
            Err(reason) => json_string(*value) == Err::<Seq<char>, Seq<char>>(reason@),
        },
{
    serde_json::from_value::<String>(value.clone()).map_err(|e| e.to_string())
}

} // verus!
