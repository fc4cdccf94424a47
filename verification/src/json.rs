//! A JSON document as plain values, and the reads the log parser makes on it.
//!
//! Text is turned into a `Json` by `serde_json`; everything after that is
//! verified code over this type.
use vstd::prelude::*;
use crate::text::{chars_of, chars_eq};

verus! {

/// A JSON value. Numbers keep what `serde_json::Number::as_u64` gives (the value when
/// it is a non-negative integer that fits in a `u64`, `None` otherwise); object
/// members come in the order of `serde_json`'s map (sorted by key) and their keys are
/// distinct.
#[derive(Debug)]
pub enum Json {
    Null,
    Bool(bool),
    Number(Option<u64>),
    Str(String),
    Array(Vec<Json>),
    Object(Vec<(String, Json)>),
}

#[verifier::external_type_specification]
#[verifier::external_body]
pub struct ExJsonValue(serde_json::Value);

/// One-for-one conversion of a `serde_json::Value` into a `Json`, variant by
/// variant; used only by `parse_json`.
#[verifier::external_body]
fn json_from_value(v: serde_json::Value) -> Json {
    match v {
        serde_json::Value::Null => Json::Null,
        serde_json::Value::Bool(b) => Json::Bool(b),
        serde_json::Value::Number(n) => Json::Number(n.as_u64()),
        serde_json::Value::String(s) => Json::Str(s),
        serde_json::Value::Array(a) => Json::Array(a.into_iter().map(json_from_value).collect()),
        serde_json::Value::Object(m) => Json::Object(
            m.into_iter().map(|(k, x)| (k, json_from_value(x))).collect(),
        ),
    }
}

/// The document that `serde_json::from_str::<serde_json::Value>` reads from `text`,
/// or `None` where it reports an error.
pub uninterp spec fn json_of_text(text: Seq<char>) -> Option<Json>;

/// Parses `text` with `serde_json::from_str` into a `serde_json::Value` and converts it:
/// the document `json_of_text(text)`, a result of the text alone, or `None` where
/// `serde_json` rejects the text.
#[verifier::external_body]
pub(crate) fn parse_json(text: &str) -> (r: Option<Json>)
    ensures
        r == json_of_text(text@),
{
    serde_json::from_str::<serde_json::Value>(text).ok().map(json_from_value)
}

/// The first member of `fields` whose key is `key`.
pub open spec fn lookup(fields: Seq<(String, Json)>, key: Seq<char>) -> Option<Json>
    decreases fields.len(),
{
    if fields.len() == 0 {
        None
    } else if fields[0].0@ == key {
        Some(fields[0].1)
    } else {
        lookup(fields.drop_first(), key)
    }
}

/// `j[key]` when `j` is an object holding `key` (what `serde_json::Value::get` gives).
pub open spec fn get(j: Json, key: Seq<char>) -> Option<Json> {
    match j {
        Json::Object(fields) => lookup(fields@, key),
        _ => None,
    }
}

/// `get` lifted to an optional value.
pub open spec fn field(o: Option<Json>, key: Seq<char>) -> Option<Json> {
    match o {
        Some(j) => get(j, key),
        None => None,
    }
}

/// The string an optional value holds.
pub open spec fn str_of(o: Option<Json>) -> Option<Seq<char>> {
    match o {
        Some(Json::Str(s)) => Some(s@),
        _ => None,
    }
}

/// The boolean an optional value holds.
pub open spec fn bool_of(o: Option<Json>) -> Option<bool> {
    match o {
        Some(Json::Bool(b)) => Some(b),
        _ => None,
    }
}

/// The `u64` an optional value holds.
pub open spec fn u64_of(o: Option<Json>) -> Option<u64> {
    match o {
        Some(Json::Number(Some(n))) => Some(n),
        _ => None,
    }
}

/// The elements of an optional array value.
pub open spec fn array_of(o: Option<Json>) -> Option<Seq<Json>> {
    match o {
        Some(Json::Array(items)) => Some(items@),
        _ => None,
    }
}

/// An optional reference read as an optional value.
pub open spec fn deref_opt(o: Option<&Json>) -> Option<Json> {
    match o {
        Some(j) => Some(*j),
        None => None,
    }
}

/// `j[key]`.
pub fn get_exec<'a>(j: &'a Json, key: &str) -> (r: Option<&'a Json>)
    ensures
        deref_opt(r) == get(*j, key@),
{
    match j {
        Json::Object(fields) => {
            let k = chars_of(key);
            let mut i: usize = 0;
            assert(fields@.skip(0) =~= fields@);
            while i < fields.len()
                invariant
                    0 <= i <= fields@.len(),
                    k@ == key@,
                    get(*j, key@) == lookup(fields@, key@),
                    lookup(fields@, key@) == lookup(fields@.skip(i as int), key@),
                decreases fields.len() - i,
            {
                let name = chars_of(fields[i].0.as_str());
                assert(fields@.skip(i as int)[0] == fields@[i as int]);
                if chars_eq(&name, &k) {
                    assert(fields@.skip(i as int).len() > 0);
                    assert(fields@.skip(i as int)[0].0@ == key@);
                    assert(lookup(fields@.skip(i as int), key@) == Some(fields@[i as int].1));
                    return Some(&fields[i].1);
                }
                assert(fields@.skip(i as int).drop_first() =~= fields@.skip(i + 1));
                i += 1;
            }
            None
        },
        _ => None,
    }
}

/// `o[key]` for an optional value.
pub fn field_exec<'a>(o: Option<&'a Json>, key: &str) -> (r: Option<&'a Json>)
    ensures
        deref_opt(r) == field(deref_opt(o), key@),
{
    match o {
        Some(j) => get_exec(j, key),
        None => None,
    }
}

/// The string an optional value holds.
pub fn str_exec<'a>(o: Option<&'a Json>) -> (r: Option<&'a String>)
    ensures
        r matches Some(s) ==> str_of(deref_opt(o)) == Some(s@),
        r is None ==> str_of(deref_opt(o)) is None,
{
    match o {
        Some(Json::Str(s)) => Some(s),
        _ => None,
    }
}

/// The boolean an optional value holds.
pub fn bool_exec(o: Option<&Json>) -> (r: Option<bool>)
    ensures
        r == bool_of(deref_opt(o)),
{
    match o {
        Some(Json::Bool(b)) => Some(*b),
        _ => None,
    }
}

/// The `u64` an optional value holds.
pub fn u64_exec(o: Option<&Json>) -> (r: Option<u64>)
    ensures
        r == u64_of(deref_opt(o)),
{
    match o {
        Some(Json::Number(Some(n))) => Some(*n),
        _ => None,
    }
}

/// The elements of an optional array value.
pub fn array_exec<'a>(o: Option<&'a Json>) -> (r: Option<&'a Vec<Json>>)
    ensures
        r matches Some(v) ==> array_of(deref_opt(o)) == Some(v@),
        r is None ==> array_of(deref_opt(o)) is None,
{
    match o {
        Some(Json::Array(items)) => Some(items),
        _ => None,
    }
}

} // verus!
