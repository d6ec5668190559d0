//! A JSON document tree as plain values, and its reading from text.

use serde_json::Value;
use vstd::prelude::*;

verus! {

/// A JSON number, told apart the way the decoder reports it.
#[derive(Debug, PartialEq)]
pub enum JsonNumber {
    /// An integer from zero up to `u64::MAX`.
    Unsigned(u64),
    /// A negative integer that fits in an `i64`.
    Negative(i64),
    /// Any other number, as the decoder writes it back out.
    Decimal(String),
}

/// A JSON value. An object keeps its members in the order the decoder
/// hands them over.
#[derive(Debug, PartialEq)]
pub enum Json {
    Null,
    Bool(bool),
    Number(JsonNumber),
    Str(String),
    Array(Vec<Json>),
    Object(Vec<(String, Json)>),
}

/// The value of the first member named `key`.
pub open spec fn field(entries: Seq<(String, Json)>, key: Seq<char>) -> Option<Json>
    decreases entries.len(),
{
    if entries.len() == 0 {
        None
    } else if entries[0].0@ == key {
        Some(entries[0].1)
    } else {
        field(entries.drop_first(), key)
    }
}

/// The member `key` of `doc`, when `doc` is an object that has one.
pub open spec fn member(doc: Json, key: Seq<char>) -> Option<Json> {
    match doc {
        Json::Object(entries) => field(entries@, key),
        _ => None,
    }
}

/// The document that a JSON text denotes, or `None` when it is not JSON.
pub uninterp spec fn json_parse(text: Seq<char>) -> Option<Json>;

/// Relies on `serde_json::from_str::<serde_json::Value>`, which reads one
/// JSON document and fails on anything else; the result depends on the
/// text alone. The tree is then copied node for node into `Json`.
#[verifier::external_body]
pub(crate) fn parse_json(text: &str) -> (r: Option<Json>)
    ensures
        r == json_parse(text@),
{
    serde_json::from_str::<Value>(text).ok().map(json_of_value)
}

/// Declares `serde_json::Value`, the decoder's own tree, so that it can be
/// handed to the copy below; nothing is assumed of its contents.
#[verifier::external_type_specification]
#[verifier::external_body]
pub struct ExValue(Value);

/// Copies a `serde_json::Value` into `Json`, variant for variant; used by
/// `parse_json` alone.
#[verifier::external_body]
fn json_of_value(v: Value) -> Json {
    match v {
        Value::Null => Json::Null,
        Value::Bool(b) => Json::Bool(b),
        Value::Number(n) => Json::Number(match (n.as_u64(), n.as_i64()) {
            (Some(u), _) => JsonNumber::Unsigned(u),
            (None, Some(i)) => JsonNumber::Negative(i),
            (None, None) => JsonNumber::Decimal(n.to_string()),
        }),
        Value::String(s) => Json::Str(s),
        Value::Array(a) => Json::Array(a.into_iter().map(json_of_value).collect()),
        Value::Object(m) => Json::Object(m.into_iter().map(|(k, x)| (k, json_of_value(x))).collect()),
    }
}

/// Index of the first member of `entries` named `key`.
pub fn find_member(entries: &Vec<(String, Json)>, key: &str) -> (r: Option<usize>)
    ensures
        match r {
            Some(i) => i < entries@.len() && entries@[i as int].0@ == key@
                && field(entries@, key@) == Some(entries@[i as int].1),
            None => field(entries@, key@) is None,
        },
{
    let wanted = key.to_owned();
    let mut i: usize = 0;
    assert(entries@.subrange(0, entries@.len() as int) =~= entries@);
    while i < entries.len()
        invariant
            i <= entries@.len(),
            wanted@ == key@,
            field(entries@, key@) == field(entries@.subrange(i as int, entries@.len() as int), key@),
        decreases entries@.len() - i,
    {
        let ghost rest = entries@.subrange(i as int, entries@.len() as int);
        assert(rest.drop_first() =~= entries@.subrange(i + 1, entries@.len() as int));
        if entries[i].0 == wanted {
            return Some(i);
        }
        i = i + 1;
    }
    None
}

} // verus!
