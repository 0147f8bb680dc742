//! Reading JSON documents.
//!
//! The text is parsed by `serde_json`. A parsed document stays in
//! `serde_json`'s own representation; this module names what such a value
//! holds and offers the few accessors the decoders of this crate need. Only
//! the items marked `external_body` here are taken on trust: each of them
//! makes one call into `serde_json`.

use crate::text::{copy_str, opt_text};
use serde_json::Value;
use vstd::prelude::*;

verus! {

/// The mathematical form of a JSON value, as far as this crate reads it.
pub enum Json {
    Null,
    /// `true` or `false`.
    Boolean,
    /// A number, with its value where it is a non-negative integer below
    /// 2^64 written without fraction or exponent.
    Number(Option<u64>),
    Text(Seq<char>),
    Array(Seq<Json>),
    /// An object; of several members with one key the last one counts.
    Object(Map<Seq<char>, Json>),
}

impl Json {
    /// The member `key` of an object.
    pub open spec fn member(self, key: Seq<char>) -> Option<Json> {
        match self {
            Json::Object(members) => if members.contains_key(key) {
                Some(members[key])
            } else {
                None
            },
            _ => None,
        }
    }

    /// The value of a number that is an unsigned integer.
    pub open spec fn unsigned(self) -> Option<u64> {
        match self {
            Json::Number(n) => n,
            _ => None,
        }
    }

    /// The characters of a string.
    pub open spec fn text(self) -> Option<Seq<char>> {
        match self {
            Json::Text(s) => Some(s),
            _ => None,
        }
    }

    /// The items of an array.
    pub open spec fn items(self) -> Option<Seq<Json>> {
        match self {
            Json::Array(items) => Some(items),
            _ => None,
        }
    }
}

/// `serde_json::Value`: a parsed JSON value. Nothing of its inside is
/// known here but what the accessors below tell.
#[verifier::external_type_specification]
#[verifier::external_body]
pub struct ExJsonValue(serde_json::Value);

/// `serde_json::Error`: the parser's account of a text that is not JSON. It
/// is carried along for the caller to show and is never looked into.
#[verifier::external_type_specification]
#[verifier::external_body]
pub struct ExJsonError(serde_json::Error);

/// What a parsed value holds.
pub uninterp spec fn json_of(v: Value) -> Json;

/// The document that a text is, where it is well-formed JSON.
pub uninterp spec fn json_document(text: Seq<char>) -> Option<Json>;

/// What each of a list of parsed values holds.
pub open spec fn jsons_of(values: Seq<Value>) -> Seq<Json> {
    Seq::new(values.len(), |i: int| json_of(values[i]))
}

/// `serde_json::from_str::<Value>`: parses a text as one JSON document. The
/// grammar is `serde_json`'s and is only named here: the call succeeds
/// exactly on the texts that [`json_document`] accepts, and the value it
/// returns holds that document.
#[verifier::external_body]
pub(crate) fn parse_json(text: &str) -> (r: Result<Value, serde_json::Error>)
    ensures
        match r {
            Ok(v) => json_document(text@) == Some(json_of(v)),
            Err(_) => json_document(text@) is None,
        },
{
    serde_json::from_str::<Value>(text)
}

/// `Value::get` with a string index: the member of that name if the value is
/// an object that has one, and `None` otherwise.
#[verifier::external_body]
pub(crate) fn json_get<'a>(v: &'a Value, key: &str) -> (r: Option<&'a Value>)
    ensures
        match r {
            Some(member) => json_of(*v).member(key@) == Some(json_of(*member)),
            None => json_of(*v).member(key@) is None,
        },
{
    v.get(key)
}

/// `Value::as_u64`: the number as a `u64` if the value is a non-negative
/// integer that fits; `None` for any other value.
#[verifier::external_body]
pub(crate) fn json_as_u64(v: &Value) -> (r: Option<u64>)
    ensures
        r == json_of(*v).unsigned(),
{
    v.as_u64()
}

/// `Value::as_str`: the text if the value is a string, `None` otherwise.
#[verifier::external_body]
pub(crate) fn json_as_str<'a>(v: &'a Value) -> (r: Option<&'a str>)
    ensures
        match r {
            Some(s) => json_of(*v).text() == Some(s@),
            None => json_of(*v).text() is None,
        },
{
    v.as_str()
}

/// `Value::as_array`: the items if the value is an array, `None` otherwise.
#[verifier::external_body]
pub(crate) fn json_as_array<'a>(v: &'a Value) -> (r: Option<&'a Vec<Value>>)
    ensures
        match r {
            Some(items) => json_of(*v).items() == Some(jsons_of(items@)),
            None => json_of(*v).items() is None,
        },
{
    v.as_array()
}

/// `Value::is_null`: whether the value is `null`.
#[verifier::external_body]
pub(crate) fn json_is_null(v: &Value) -> (r: bool)
    ensures
        r == (json_of(*v) is Null),
{
    v.is_null()
}

/// Why a response of the service could not be decoded.
#[derive(Debug)]
pub enum JsonFault {
    /// The text is not a JSON document.
    Syntax(serde_json::Error),
    /// The text is JSON, but has none of the layouts that the service is
    /// known to send.
    Layout,
}

/// A [`JsonFault`] without the parser's own account.
pub enum JsonFaultKind {
    Syntax,
    Layout,
}

impl View for JsonFault {
    type V = JsonFaultKind;

    open spec fn view(&self) -> JsonFaultKind {
        match self {
            JsonFault::Syntax(_) => JsonFaultKind::Syntax,
            JsonFault::Layout => JsonFaultKind::Layout,
        }
    }
}

/// The member `key` of `doc` as a text, if `doc` is an object that has a
/// string under that key.
pub open spec fn field_text(doc: Json, key: Seq<char>) -> Option<Seq<char>> {
    match doc.member(key) {
        Some(member) => member.text(),
        None => None,
    }
}

/// The member `key` of `doc` as an unsigned integer, if `doc` is an object
/// that has one under that key.
pub open spec fn field_u64(doc: Json, key: Seq<char>) -> Option<u64> {
    match doc.member(key) {
        Some(member) => member.unsigned(),
        None => None,
    }
}

/// The member `key` of `doc` as an unsigned integer of 32 bits.
pub open spec fn field_u32(doc: Json, key: Seq<char>) -> Option<u32> {
    match field_u64(doc, key) {
        Some(n) => if n <= u32::MAX {
            Some(n as u32)
        } else {
            None
        },
        None => None,
    }
}

/// Reads a string member of an object.
pub fn text_field(doc: &Value, key: &str) -> (r: Option<String>)
    ensures
        opt_text(r) == field_text(json_of(*doc), key@),
{
    match json_get(doc, key) {
        Some(member) => match json_as_str(member) {
            Some(s) => Some(copy_str(s)),
            None => None,
        },
        None => None,
    }
}

/// Reads an unsigned integer member of an object.
pub fn u64_field(doc: &Value, key: &str) -> (r: Option<u64>)
    ensures
        r == field_u64(json_of(*doc), key@),
{
    match json_get(doc, key) {
        Some(member) => json_as_u64(member),
        None => None,
    }
}

/// Reads a member of an object that is an unsigned integer of 32 bits.
pub fn u32_field(doc: &Value, key: &str) -> (r: Option<u32>)
    ensures
        r == field_u32(json_of(*doc), key@),
{
    match u64_field(doc, key) {
        Some(n) => if n <= 0xffff_ffff {
            Some(n as u32)
        } else {
            None
        },
        None => None,
    }
}

} // verus!
