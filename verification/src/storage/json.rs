//! JSON documents, as `serde_json` reads and writes them.
//!
//! A `serde_json::Value` is opaque to the verifier. Its contents are named by
//! [`json_doc`], a tree of plain values, and every function below says what
//! the `serde_json` call it makes does in terms of that tree. None of these
//! contracts is proved: they restate the documentation of `serde_json`.

use vstd::prelude::*;

verus! {

#[verifier::external_type_specification]
#[verifier::external_body]
pub struct ExJsonValue(serde_json::Value);

#[verifier::external_type_specification]
#[verifier::external_body]
pub struct ExJsonError(serde_json::Error);

/// A JSON document as a mathematical value.
pub enum JsonDoc {
    Null,
    Bool(bool),
    /// A number written without fraction or exponent that fits 64 bits.
    Integer(int),
    /// Any other number, by the bits of its binary64 form.
    Fraction(u64),
    Text(Seq<char>),
    Array(Seq<JsonDoc>),
    Object(Map<Seq<char>, JsonDoc>),
}

/// The document that a `serde_json::Value` holds.
pub uninterp spec fn json_doc(v: serde_json::Value) -> JsonDoc;

/// The document that `serde_json::from_slice` reads from `bytes`, if it
/// accepts them.
pub uninterp spec fn json_parse(bytes: Seq<u8>) -> Option<JsonDoc>;

/// What `serde_json::to_vec` makes of a document: the bytes that it
/// writes, or `None` where it fails.
pub uninterp spec fn json_written(doc: JsonDoc) -> Option<Seq<u8>>;

/// The bytes that `serde_json::to_vec` writes for a document, and no bytes
/// for a document that it does not write.
pub open spec fn json_text(doc: JsonDoc) -> Seq<u8> {
    match json_written(doc) {
        Some(bytes) => bytes,
        None => Seq::empty(),
    }
}

/// The object whose members are `fields`, a later field replacing an earlier
/// one of the same name.
pub open spec fn object_of(fields: Seq<(Seq<char>, JsonDoc)>) -> Map<Seq<char>, JsonDoc>
    decreases fields.len(),
{
    if fields.len() == 0 {
        Map::empty()
    } else {
        object_of(fields.drop_last()).insert(fields.last().0, fields.last().1)
    }
}

/// The members of an exec field list, as documents.
pub open spec fn field_docs(fields: Seq<(String, serde_json::Value)>) -> Seq<(Seq<char>, JsonDoc)> {
    fields.map_values(|f: (String, serde_json::Value)| (f.0@, json_doc(f.1)))
}

/// The elements of an exec list of values, as documents.
pub open spec fn item_docs(items: Seq<serde_json::Value>) -> Seq<JsonDoc> {
    items.map_values(|v: serde_json::Value| json_doc(v))
}

/// No two fields share a name.
pub open spec fn distinct_names(fields: Seq<(Seq<char>, JsonDoc)>) -> bool {
    forall|i: int, j: int|
        0 <= i < j < fields.len() ==> (#[trigger] fields[i]).0 != (#[trigger] fields[j]).0
}

/// `serde_json::from_slice::<Value>`: reads one JSON document from `bytes`.
/// The outcome depends on the bytes alone, so it is the named `json_parse`.
#[verifier::external_body]
pub(crate) fn parse(bytes: &[u8]) -> (r: Result<serde_json::Value, serde_json::Error>)
    ensures
        match r {
            Ok(v) => json_parse(bytes@) == Some(json_doc(v)),
            Err(_) => json_parse(bytes@) is None,
        },
{
    serde_json::from_slice::<serde_json::Value>(bytes)
}

/// `serde_json::to_vec`: writes a value as compact JSON text. Whether it
/// writes, and what, depends on the document alone, so the outcome is the
/// named `json_written`. Nothing is claimed of when it writes.
#[verifier::external_body]
pub(crate) fn to_bytes(v: &serde_json::Value) -> (r: Result<Vec<u8>, serde_json::Error>)
    ensures
        match r {
            Ok(bytes) => json_written(json_doc(*v)) == Some(bytes@),
            Err(_) => json_written(json_doc(*v)) is None,
        },
{
    serde_json::to_vec(v)
}

/// `Display` of `serde_json::Error`: the error's message.
#[verifier::external_body]
pub(crate) fn error_text(e: &serde_json::Error) -> String {
    e.to_string()
}

/// `Value::get` with a string index: the member of that name if the value is
/// an object that has one, `None` for any other value or name.
#[verifier::external_body]
pub(crate) fn member<'a>(v: &'a serde_json::Value, name: &str) -> (r: Option<&'a serde_json::Value>)
    ensures
        match r {
            Some(m) => json_doc(*v) matches JsonDoc::Object(o) && o.contains_key(name@)
                && o[name@] == json_doc(*m),
            None => !(json_doc(*v) matches JsonDoc::Object(o) && o.contains_key(name@)),
        },
{
    v.get(name)
}

/// `Value::as_str`: the string if the value is one, `None` otherwise.
#[verifier::external_body]
pub(crate) fn as_text<'a>(v: &'a serde_json::Value) -> (r: Option<&'a str>)
    ensures
        match r {
            Some(s) => json_doc(*v) == JsonDoc::Text(s@),
            None => !(json_doc(*v) is Text),
        },
{
    v.as_str()
}

/// `Value::as_i64`: the number if the value is an integer that fits `i64`,
/// `None` otherwise.
#[verifier::external_body]
pub(crate) fn as_integer(v: &serde_json::Value) -> (r: Option<i64>)
    ensures
        match r {
            Some(n) => json_doc(*v) == JsonDoc::Integer(n as int),
            None => !(json_doc(*v) matches JsonDoc::Integer(n) && i64::MIN <= n <= i64::MAX),
        },
{
    v.as_i64()
}

/// `Value::as_bool`: the boolean if the value is one, `None` otherwise.
#[verifier::external_body]
pub(crate) fn as_flag(v: &serde_json::Value) -> (r: Option<bool>)
    ensures
        match r {
            Some(b) => json_doc(*v) == JsonDoc::Bool(b),
            None => !(json_doc(*v) is Bool),
        },
{
    v.as_bool()
}

/// `Value::is_null`: whether the value is `null`.
#[verifier::external_body]
pub(crate) fn is_null(v: &serde_json::Value) -> (r: bool)
    ensures
        r == (json_doc(*v) is Null),
{
    v.is_null()
}

/// `Value::as_array`: the elements if the value is an array, `None`
/// otherwise.
#[verifier::external_body]
pub(crate) fn as_items<'a>(v: &'a serde_json::Value) -> (r: Option<&'a Vec<serde_json::Value>>)
    ensures
        match r {
            Some(items) => json_doc(*v) == JsonDoc::Array(item_docs(items@)),
            None => !(json_doc(*v) is Array),
        },
{
    v.as_array()
}

/// `Value::Null`.
#[verifier::external_body]
pub(crate) fn null_value() -> (r: serde_json::Value)
    ensures
        json_doc(r) == JsonDoc::Null,
{
    serde_json::Value::Null
}

/// `Value::Bool`.
#[verifier::external_body]
pub(crate) fn flag_value(b: bool) -> (r: serde_json::Value)
    ensures
        json_doc(r) == JsonDoc::Bool(b),
{
    serde_json::Value::Bool(b)
}

/// `Value::from(i64)`: the integer as a JSON number.
#[verifier::external_body]
pub(crate) fn integer_value(n: i64) -> (r: serde_json::Value)
    ensures
        json_doc(r) == JsonDoc::Integer(n as int),
{
    serde_json::Value::from(n)
}

/// `Value::from(&str)`: the string as a JSON string.
#[verifier::external_body]
pub(crate) fn text_value(s: &str) -> (r: serde_json::Value)
    ensures
        json_doc(r) == JsonDoc::Text(s@),
{
    serde_json::Value::from(s)
}

/// `Value::Array`: the array of the given elements, in their order.
#[verifier::external_body]
pub(crate) fn array_value(items: Vec<serde_json::Value>) -> (r: serde_json::Value)
    ensures
        json_doc(r) == JsonDoc::Array(item_docs(items@)),
{
    serde_json::Value::Array(items)
}

/// `Map::from_iter` and `Value::Object`: the object with the given members.
/// The names must differ, so that no member is dropped.
#[verifier::external_body]
pub(crate) fn object_value(fields: Vec<(String, serde_json::Value)>) -> (r: serde_json::Value)
    requires
        distinct_names(field_docs(fields@)),
    ensures
        json_doc(r) == JsonDoc::Object(object_of(field_docs(fields@))),
{
    serde_json::Value::Object(fields.into_iter().collect())
}

} // verus!
