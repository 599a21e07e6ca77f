//! JSON documents as `serde_json` holds them, and their mathematical model.
//!
//! Reading and printing JSON is left to `serde_json`. Verified code sees a
//! `serde_json::Value` only through the functions of this module, whose
//! contracts are believed, not proved; each names the `serde_json` item it
//! stands for.

use vstd::prelude::*;

verus! {

/// The mathematical model of a JSON document.
///
/// A number is modelled by the text that `serde_json` prints for it: this
/// library never computes with numbers, it only carries them.
pub enum Json {
    Null,
    Bool(bool),
    Number(Seq<char>),
    Text(Seq<char>),
    Array(Seq<Json>),
    Object(Map<Seq<char>, Json>),
}

#[verifier::external_type_specification]
#[verifier::external_body]
pub struct ExValue(serde_json::Value);

#[verifier::external_type_specification]
#[verifier::external_body]
pub struct ExError(serde_json::Error);

/// The document that a `serde_json::Value` holds.
pub uninterp spec fn json_model(v: serde_json::Value) -> Json;

/// The document that `serde_json` reads from a text; `None` where it rejects the text.
pub uninterp spec fn json_parse(text: Seq<char>) -> Option<Json>;

/// The compact text that `serde_json` prints for a document.
pub uninterp spec fn json_text(doc: Json) -> Seq<char>;

/// The member of `doc` under `key`; `None` where `doc` is no object or has
/// no member of that name.
pub open spec fn member(doc: Json, key: Seq<char>) -> Option<Json> {
    match doc {
        Json::Object(members) => if members.contains_key(key) {
            Some(members[key])
        } else {
            None
        },
        _ => None,
    }
}

/// `serde_json::from_str::<Value>`. Believed: the call succeeds exactly on
/// the texts that `json_parse` accepts, and the value then holds the
/// document that `json_parse` names.
#[verifier::external_body]
pub(crate) fn parse_value(text: &str) -> (r: Result<serde_json::Value, serde_json::Error>)
    ensures
        r is Ok <==> json_parse(text@) is Some,
        r matches Ok(v) ==> json_parse(text@) == Some(json_model(v)),
{
    serde_json::from_str::<serde_json::Value>(text)
}

/// `Value::get` with a string index. Believed: the result is the member
/// under `key` where the value is an object that has one, and `None` for an
/// object without it and for every value that is no object.
#[verifier::external_body]
pub(crate) fn value_get<'a>(v: &'a serde_json::Value, key: &str) -> (r: Option<
    &'a serde_json::Value,
>)
    ensures
        match r {
            Some(m) => member(json_model(*v), key@) == Some(json_model(*m)),
            None => member(json_model(*v), key@) is None,
        },
{
    v.get(key)
}

/// `Value::as_str`. Believed: the result is the text of a JSON string, and
/// `None` for every other value.
#[verifier::external_body]
pub(crate) fn value_as_str<'a>(v: &'a serde_json::Value) -> (r: Option<&'a str>)
    ensures
        match r {
            Some(s) => json_model(*v) == Json::Text(s@),
            None => !(json_model(*v) is Text),
        },
{
    v.as_str()
}

/// `Value`'s `to_string`, which prints the compact form. Believed: the
/// result is the text that `json_text` names for the document held.
#[verifier::external_body]
pub(crate) fn value_to_string(v: &serde_json::Value) -> (r: String)
    ensures
        r@ == json_text(json_model(*v)),
{
    v.to_string()
}

/// `Value`'s `clone`. Believed: the copy holds the same document.
#[verifier::external_body]
pub(crate) fn value_clone(v: &serde_json::Value) -> (r: serde_json::Value)
    ensures
        json_model(r) == json_model(*v),
{
    v.clone()
}

/// `Value::from(&str)`. Believed: the result is the JSON string with the
/// given text.
#[verifier::external_body]
pub(crate) fn string_value(text: &str) -> (r: serde_json::Value)
    ensures
        json_model(r) == Json::Text(text@),
{
    serde_json::Value::from(text)
}

} // verus!
