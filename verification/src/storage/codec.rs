//! How records are written as JSON documents and read back.
//!
//! A record is one JSON object with a member for each field. Reading asks
//! for every field but an optional one, with the type the field has, and
//! passes over members it does not know.

use crate::models::user::opt_text;
use crate::storage::error::StorageError;
use crate::storage::json::{
    array_value, as_flag, as_integer, as_items, as_text, error_text, is_null, item_docs, json_doc,
    json_text, json_written, member, null_value, text_value, to_bytes, JsonDoc,
};
use crate::storage::text::join;
use vstd::prelude::*;

verus! {

/// The member `name` of an object; `None` for any other document.
pub open spec fn member_of(d: JsonDoc, name: Seq<char>) -> Option<JsonDoc> {
    match d {
        JsonDoc::Object(o) => if o.contains_key(name) {
            Some(o[name])
        } else {
            None
        },
        _ => None,
    }
}

/// A member that must be a string.
pub open spec fn text_of(d: Option<JsonDoc>) -> Option<Seq<char>> {
    match d {
        Some(JsonDoc::Text(s)) => Some(s),
        _ => None,
    }
}

/// A member that must be an integer of 64 bits.
pub open spec fn integer_of(d: Option<JsonDoc>) -> Option<i64> {
    match d {
        Some(JsonDoc::Integer(n)) => if i64::MIN <= n <= i64::MAX {
            Some(n as i64)
        } else {
            None
        },
        _ => None,
    }
}

/// A member that must be a boolean.
pub open spec fn flag_of(d: Option<JsonDoc>) -> Option<bool> {
    match d {
        Some(JsonDoc::Bool(b)) => Some(b),
        _ => None,
    }
}

/// Every element is a string.
pub open spec fn all_texts(items: Seq<JsonDoc>) -> bool {
    forall|i: int| 0 <= i < items.len() ==> #[trigger] items[i] is Text
}

/// A member that must be an array of strings.
pub open spec fn texts_of(d: Option<JsonDoc>) -> Option<Seq<Seq<char>>> {
    match d {
        Some(JsonDoc::Array(items)) => if all_texts(items) {
            Some(items.map_values(|x: JsonDoc| x->Text_0))
        } else {
            None
        },
        _ => None,
    }
}

/// A member that may be missing or `null`, and is a string otherwise.
pub open spec fn optional_text_of(d: Option<JsonDoc>) -> Option<Option<Seq<char>>> {
    match d {
        None => Some(None),
        Some(JsonDoc::Null) => Some(None),
        Some(JsonDoc::Text(s)) => Some(Some(s)),
        _ => None,
    }
}

/// A list of texts as a JSON array.
pub open spec fn texts_doc(items: Seq<Seq<char>>) -> JsonDoc {
    JsonDoc::Array(items.map_values(|s: Seq<char>| JsonDoc::Text(s)))
}

/// An optional text as a JSON string or `null`.
pub open spec fn optional_text_doc(s: Option<Seq<char>>) -> JsonDoc {
    match s {
        Some(t) => JsonDoc::Text(t),
        None => JsonDoc::Null,
    }
}

/// The error for bytes that `serde_json` does not accept.
pub(crate) fn unreadable(e: &serde_json::Error) -> (r: StorageError)
    ensures
        r is Serialization,
{
    StorageError::Serialization(error_text(e))
}

/// The error for a document that lacks a field or has one of another type.
pub(crate) fn misshapen(what: &str) -> (r: StorageError)
    ensures
        r is Serialization,
        r->Serialization_0@ == "missing or invalid field in "@ + what@,
{
    StorageError::Serialization(join("missing or invalid field in ", what))
}

/// Reads the string member `name`.
pub(crate) fn read_text(v: &serde_json::Value, name: &str) -> (r: Option<String>)
    ensures
        opt_text(r) == text_of(member_of(json_doc(*v), name@)),
{
    match member(v, name) {
        Some(m) => match as_text(m) {
            Some(s) => Some(s.to_string()),
            None => None,
        },
        None => None,
    }
}

/// Reads the integer member `name`.
pub(crate) fn read_integer(v: &serde_json::Value, name: &str) -> (r: Option<i64>)
    ensures
        r == integer_of(member_of(json_doc(*v), name@)),
{
    match member(v, name) {
        Some(m) => as_integer(m),
        None => None,
    }
}

/// Reads the boolean member `name`.
pub(crate) fn read_flag(v: &serde_json::Value, name: &str) -> (r: Option<bool>)
    ensures
        r == flag_of(member_of(json_doc(*v), name@)),
{
    match member(v, name) {
        Some(m) => as_flag(m),
        None => None,
    }
}

/// Reads the member `name`, which may be missing or `null`.
pub(crate) fn read_optional_text(v: &serde_json::Value, name: &str) -> (r: Option<Option<String>>)
    ensures
        match r {
            Some(t) => optional_text_of(member_of(json_doc(*v), name@)) == Some(
                opt_text(t),
            ),
            None => optional_text_of(member_of(json_doc(*v), name@)) is None,
        },
{
    match member(v, name) {
        Some(m) => {
            if is_null(m) {
                Some(None)
            } else {
                match as_text(m) {
                    Some(s) => Some(Some(s.to_string())),
                    None => None,
                }
            }
        },
        None => Some(None),
    }
}

/// Reads the member `name`, an array of strings.
pub(crate) fn read_texts(v: &serde_json::Value, name: &str) -> (r: Option<Vec<String>>)
    ensures
        match r {
            Some(t) => texts_of(member_of(json_doc(*v), name@)) == Some(t.deep_view()),
            None => texts_of(member_of(json_doc(*v), name@)) is None,
        },
{
    let m = match member(v, name) {
        Some(m) => m,
        None => {
            return None;
        },
    };
    let items = match as_items(m) {
        Some(items) => items,
        None => {
            return None;
        },
    };
    let ghost docs = item_docs(items@);
    let mut out: Vec<String> = Vec::new();
    let mut i: usize = 0;
    while i < items.len()
        invariant
            i <= items.len(),
            docs == item_docs(items@),
            member_of(json_doc(*v), name@) == Some(JsonDoc::Array(docs)),
            out.len() == i,
            forall|k: int| 0 <= k < i ==> (#[trigger] docs[k]) == JsonDoc::Text(out[k]@),
        decreases items.len() - i,
    {
        match as_text(&items[i]) {
            Some(s) => {
                out.push(s.to_string());
            },
            None => {
                assert(!(docs[i as int] is Text));
                assert(!all_texts(docs));
                return None;
            },
        }
        i += 1;
    }
    proof {
        assert(all_texts(docs));
        assert(docs.map_values(|x: JsonDoc| x->Text_0) =~= out.deep_view());
    }
    Some(out)
}

/// A list of texts as a JSON array value.
pub(crate) fn texts_value(items: &Vec<String>) -> (r: serde_json::Value)
    ensures
        json_doc(r) == texts_doc(items.deep_view()),
{
    let mut out: Vec<serde_json::Value> = Vec::new();
    let mut i: usize = 0;
    while i < items.len()
        invariant
            i <= items.len(),
            out.len() == i,
            forall|k: int| 0 <= k < i ==> json_doc(#[trigger] out[k]) == JsonDoc::Text(items[k]@),
        decreases items.len() - i,
    {
        out.push(text_value(items[i].as_str()));
        i += 1;
    }
    proof {
        assert(item_docs(out@) =~= items.deep_view().map_values(|s: Seq<char>| JsonDoc::Text(s)));
    }
    array_value(out)
}

/// An optional text as a JSON value.
pub(crate) fn optional_text_value(s: &Option<String>) -> (r: serde_json::Value)
    ensures
        json_doc(r) == optional_text_doc(opt_text(*s)),
{
    match s {
        Some(t) => text_value(t.as_str()),
        None => null_value(),
    }
}

/// Writes a value as bytes: the bytes where `serde_json` writes the
/// document of the value, a serialization error where it does not.
pub(crate) fn written(v: &serde_json::Value) -> (r: Result<Vec<u8>, StorageError>)
    ensures
        match r {
            Ok(bytes) => json_written(json_doc(*v)) == Some(bytes@) && bytes@ == json_text(
                json_doc(*v),
            ),
            Err(e) => e is Serialization && json_written(json_doc(*v)) is None,
        },
{
    match to_bytes(v) {
        Ok(bytes) => Ok(bytes),
        Err(e) => Err(unreadable(&e)),
    }
}

} // verus!
