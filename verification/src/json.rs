//! What this codec knows of JSON documents, of base64 text and of UTF-8
//! text. The documents themselves are built, read, parsed and printed by
//! `serde_json`, base64 by `base64`; the contracts in this file are stated
//! and not proved.
use vstd::prelude::*;
use vstd::utf8::{decode_utf8, valid_utf8};
use base64::Engine;

verus! {

/// A JSON number, as `serde_json` holds it without arbitrary precision.
pub enum JsonNumber {
    /// A whole number that is not negative.
    PosInt(u64),
    /// A whole number below zero.
    NegInt(i64),
    /// Any other number, by the bits of its binary64 form.
    Float(u64),
}

/// The mathematical content of a JSON document.
pub enum Json {
    Null,
    Bool(bool),
    Number(JsonNumber),
    Text(Seq<char>),
    Array(Seq<Json>),
    Object(Map<Seq<char>, Json>),
}

/// `serde_json::Value`, a JSON document in memory; opaque here.
#[verifier::external_type_specification]
#[verifier::external_body]
pub struct ExJsonValue(serde_json::Value);

/// `serde_json::Number`, a JSON number in memory; opaque here.
#[verifier::external_type_specification]
#[verifier::external_body]
pub struct ExJsonNumber(serde_json::Number);

/// `serde_json::Map`, the members of a JSON object in memory; opaque here.
#[verifier::external_type_specification]
#[verifier::external_body]
#[verifier::reject_recursive_types(K)]
#[verifier::reject_recursive_types(V)]
pub struct ExJsonMap<K, V>(serde_json::Map<K, V>);

/// `base64::DecodeError`, why a text is no base64; opaque here.
#[verifier::external_type_specification]
#[verifier::external_body]
pub struct ExDecodeError(base64::DecodeError);

/// The maps that hold the members of JSON objects.
pub type JsonMap = serde_json::Map<String, serde_json::Value>;

/// The document that a `serde_json::Value` holds.
pub uninterp spec fn json_model(value: serde_json::Value) -> Json;

/// The members that a `serde_json::Map` holds, by key. The map is built
/// without `preserve_order`, so it keeps no memory of the order of insertion.
pub uninterp spec fn json_fields(fields: JsonMap) -> Map<Seq<char>, Json>;

/// The document that `serde_json::from_str` reads from a text, if it reads one.
pub uninterp spec fn json_parsed(text: Seq<char>) -> Option<Json>;

/// The compact text that `serde_json` prints for a document.
pub uninterp spec fn json_text(doc: Json) -> Seq<char>;

/// The number that a `serde_json::Number` holds.
pub uninterp spec fn number_model(number: serde_json::Number) -> JsonNumber;

/// The message of the error with which `std::str::from_utf8` refuses bytes.
pub uninterp spec fn utf8_error_text(bytes: Seq<u8>) -> Seq<char>;

/// The message of the error with which `serde_json::from_str` refuses a text.
pub uninterp spec fn json_error_text(text: Seq<char>) -> Seq<char>;

/// The bytes that standard, padded base64 text stands for, if it is such text.
pub uninterp spec fn base64_decoded(text: Seq<char>) -> Option<Seq<u8>>;

/// The standard, padded base64 text of a byte string.
pub uninterp spec fn base64_encoded(bytes: Seq<u8>) -> Seq<char>;

/// The members of an object without members.
pub open spec fn no_fields() -> Map<Seq<char>, Json> {
    Map::empty()
}

/// The member of an object under a key; nothing for a missing key or for a
/// document that is no object.
pub open spec fn json_member(doc: Json, key: Seq<char>) -> Option<Json> {
    match doc {
        Json::Object(fields) => if fields.contains_key(key) {
            Some(fields[key])
        } else {
            None
        },
        _ => None,
    }
}

/// The document read as an unsigned whole number.
pub open spec fn json_u64(doc: Json) -> Option<u64> {
    match doc {
        Json::Number(JsonNumber::PosInt(n)) => Some(n),
        _ => None,
    }
}

/// The document read as a signed whole number.
pub open spec fn json_i64(doc: Json) -> Option<i64> {
    match doc {
        Json::Number(JsonNumber::PosInt(n)) => if n <= i64::MAX {
            Some(n as i64)
        } else {
            None
        },
        Json::Number(JsonNumber::NegInt(n)) => Some(n),
        _ => None,
    }
}

/// The document read as a number of any kind.
pub open spec fn json_number(doc: Json) -> Option<JsonNumber> {
    match doc {
        Json::Number(number) => Some(number),
        _ => None,
    }
}

/// The document read as a string.
pub open spec fn json_str(doc: Json) -> Option<Seq<char>> {
    match doc {
        Json::Text(text) => Some(text),
        _ => None,
    }
}

/// The documents that a list of values holds, in order.
pub open spec fn json_models(values: Seq<serde_json::Value>) -> Seq<Json> {
    Seq::new(values.len(), |i: int| json_model(values[i]))
}

/// The document a signed whole number becomes.
pub open spec fn json_of_i64(n: i64) -> Json {
    if n < 0 {
        Json::Number(JsonNumber::NegInt(n))
    } else {
        Json::Number(JsonNumber::PosInt(n as u64))
    }
}

/// `std::str::from_utf8`: the bytes as text, exactly when they are valid
/// UTF-8; the text is then what the bytes encode. A failure comes as the
/// message of its error, which depends on the bytes alone.
#[verifier::external_body]
pub(crate) fn utf8_text(bytes: &[u8]) -> (r: Result<&str, String>)
    ensures
        r is Ok <==> valid_utf8(bytes@),
        r is Ok ==> r->Ok_0@ == decode_utf8(bytes@),
        r is Err ==> r->Err_0@ == utf8_error_text(bytes@),
{
    match std::str::from_utf8(bytes) {
        Ok(text) => Ok(text),
        Err(e) => Err(e.to_string()),
    }
}

/// `serde_json::from_str` at type `Value`: whether a text parses, and to
/// which document, depends on the text alone. A failure comes as the
/// message of the parser's error, which names what was wrong and the line
/// and column, and depends on the text alone.
#[verifier::external_body]
pub(crate) fn json_from_str(text: &str) -> (r: Result<serde_json::Value, String>)
    ensures
        match r {
            Ok(value) => json_parsed(text@) == Some(json_model(value)),
            Err(message) => json_parsed(text@) is None && message@ == json_error_text(text@),
        },
{
    match serde_json::from_str(text) {
        Ok(value) => Ok(value),
        Err(e) => Err(e.to_string()),
    }
}

/// `Value::get` with a string key: the member of an object under that key.
#[verifier::external_body]
pub(crate) fn value_get<'a>(value: &'a serde_json::Value, key: &str) -> (r: Option<
    &'a serde_json::Value,
>)
    ensures
        match r {
            Some(member) => json_member(json_model(*value), key@) == Some(json_model(*member)),
            None => json_member(json_model(*value), key@) is None,
        },
{
    value.get(key)
}

/// `Value::is_null`.
#[verifier::external_body]
pub(crate) fn value_is_null(value: &serde_json::Value) -> (r: bool)
    ensures
        r == (json_model(*value) is Null),
{
    value.is_null()
}

/// `Value::is_object`.
#[verifier::external_body]
pub(crate) fn value_is_object(value: &serde_json::Value) -> (r: bool)
    ensures
        r == (json_model(*value) is Object),
{
    value.is_object()
}

/// `Value::as_u64`: a whole number that is not negative, and nothing else.
#[verifier::external_body]
pub(crate) fn value_as_u64(value: &serde_json::Value) -> (r: Option<u64>)
    ensures
        r == json_u64(json_model(*value)),
{
    value.as_u64()
}

/// `Value::as_i64`: a whole number that fits in 64 signed bits, and nothing else.
#[verifier::external_body]
pub(crate) fn value_as_i64(value: &serde_json::Value) -> (r: Option<i64>)
    ensures
        r == json_i64(json_model(*value)),
{
    value.as_i64()
}

/// `Value::as_number`: the number of a JSON number, and nothing else.
#[verifier::external_body]
pub(crate) fn value_as_number<'a>(value: &'a serde_json::Value) -> (r: Option<
    &'a serde_json::Number,
>)
    ensures
        match r {
            Some(number) => json_number(json_model(*value)) == Some(number_model(*number)),
            None => json_number(json_model(*value)) is None,
        },
{
    value.as_number()
}

/// `Number`'s `clone`: a number that holds the same.
pub assume_specification[ <serde_json::Number as Clone>::clone ](
    number: &serde_json::Number,
) -> (r: serde_json::Number)
    ensures
        number_model(r) == number_model(*number),
;

/// `Value::as_str`: the text of a JSON string, and nothing else.
#[verifier::external_body]
pub(crate) fn value_as_str<'a>(value: &'a serde_json::Value) -> (r: Option<&'a str>)
    ensures
        match r {
            Some(text) => json_str(json_model(*value)) == Some(text@),
            None => json_str(json_model(*value)) is None,
        },
{
    value.as_str()
}

/// `Value::as_array`: the items of a JSON array, and nothing else.
#[verifier::external_body]
pub(crate) fn value_as_array<'a>(value: &'a serde_json::Value) -> (r: Option<
    &'a Vec<serde_json::Value>,
>)
    ensures
        match r {
            Some(items) => json_model(*value) == Json::Array(json_models(items@)),
            None => !(json_model(*value) is Array),
        },
{
    value.as_array()
}

/// `Value::from` on a `u64`.
#[verifier::external_body]
pub(crate) fn json_from_u64(n: u64) -> (r: serde_json::Value)
    ensures
        json_model(r) == Json::Number(JsonNumber::PosInt(n)),
{
    serde_json::Value::from(n)
}

/// `Value::from` on an `i64`: negative numbers are held signed, the others unsigned.
#[verifier::external_body]
pub(crate) fn json_from_i64(n: i64) -> (r: serde_json::Value)
    ensures
        json_model(r) == json_of_i64(n),
{
    serde_json::Value::from(n)
}

/// The variant `Value::Number` around a number.
#[verifier::external_body]
pub(crate) fn json_from_number(number: serde_json::Number) -> (r: serde_json::Value)
    ensures
        json_model(r) == Json::Number(number_model(number)),
{
    serde_json::Value::Number(number)
}

/// `Value::from` on a `String`.
#[verifier::external_body]
pub(crate) fn json_from_text(text: String) -> (r: serde_json::Value)
    ensures
        json_model(r) == Json::Text(text@),
{
    serde_json::Value::from(text)
}

/// The variant `Value::Array` around a list of values.
#[verifier::external_body]
pub(crate) fn json_from_items(items: Vec<serde_json::Value>) -> (r: serde_json::Value)
    ensures
        json_model(r) == Json::Array(json_models(items@)),
{
    serde_json::Value::Array(items)
}

/// `Map::new`: a map without members.
#[verifier::external_body]
pub(crate) fn json_map_new() -> (r: JsonMap)
    ensures
        json_fields(r) == no_fields(),
{
    serde_json::Map::new()
}

/// `Map::insert`: the member stands under the key afterwards, in place
/// of an earlier one if there was one; the other members stay.
#[verifier::external_body]
pub(crate) fn json_map_insert(fields: &mut JsonMap, key: String, member: serde_json::Value)
    ensures
        json_fields(*final(fields)) == json_fields(*old(fields)).insert(key@, json_model(member)),
{
    fields.insert(key, member);
}

/// The variant `Value::Object` around a map.
#[verifier::external_body]
pub(crate) fn json_from_map(fields: JsonMap) -> (r: serde_json::Value)
    ensures
        json_model(r) == Json::Object(json_fields(fields)),
{
    serde_json::Value::Object(fields)
}

/// `Value`'s `to_string`: the compact text of the document, which depends
/// on the document alone; the members of an object come in the order of
/// their keys.
#[verifier::external_body]
pub(crate) fn json_to_text(value: &serde_json::Value) -> (r: String)
    ensures
        r@ == json_text(json_model(*value)),
{
    value.to_string()
}

/// `Engine::decode` of `base64::engine::general_purpose::STANDARD`: the
/// standard alphabet, padding required.
#[verifier::external_body]
pub(crate) fn base64_decode(text: &str) -> (r: Result<Vec<u8>, base64::DecodeError>)
    ensures
        match r {
            Ok(bytes) => base64_decoded(text@) == Some(bytes@),
            Err(_) => base64_decoded(text@) is None,
        },
{
    base64::engine::general_purpose::STANDARD.decode(text)
}

/// `Engine::encode` of `base64::engine::general_purpose::STANDARD`. Its
/// size computation cannot overflow: a slice is never longer than
/// `isize::MAX` bytes. What it writes, the same engine's `decode` reads
/// back: it writes the standard alphabet with canonical padding, which is
/// what that `decode` asks for.
#[verifier::external_body]
pub(crate) fn base64_encode(bytes: &[u8]) -> (r: String)
    ensures
        r@ == base64_encoded(bytes@),
        base64_decoded(r@) == Some(bytes@),
{
    base64::engine::general_purpose::STANDARD.encode(bytes)
}

} // verus!
