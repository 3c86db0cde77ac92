//! JSON documents, as `serde_json` holds them and as contracts speak of them.
//!
//! A `serde_json::Value` is opaque to the verifier. Contracts speak of the
//! document it holds, a [`Json`], through [`json_model`]; the functions at the
//! end of this file are the only places where `serde_json` is called, and
//! their contracts are taken on trust.

use vstd::prelude::*;
use serde_json::Value;

verus! {

/// A JSON document.
pub enum Json {
    Null,
    Bool(bool),
    Number(serde_json::Number),
    Text(Seq<char>),
    Array(Seq<Json>),
    Object(Map<Seq<char>, Json>),
}

/// The members of a JSON object, by key.
pub type Members = Map<Seq<char>, Json>;

/// An object without members.
pub open spec fn no_members() -> Members {
    Map::empty()
}

/// The text member `key` of an object, if it has one.
pub open spec fn text_member(m: Members, key: Seq<char>) -> Option<Seq<char>> {
    if m.contains_key(key) && m[key] is Text {
        Some(m[key]->Text_0)
    } else {
        None
    }
}

/// The boolean member `key` of an object, if it has one.
pub open spec fn bool_member(m: Members, key: Seq<char>) -> Option<bool> {
    if m.contains_key(key) && m[key] is Bool {
        Some(m[key]->Bool_0)
    } else {
        None
    }
}

/// The number member `key` of an object, if it has one.
pub open spec fn number_member(m: Members, key: Seq<char>) -> Option<serde_json::Number> {
    if m.contains_key(key) && m[key] is Number {
        Some(m[key]->Number_0)
    } else {
        None
    }
}

/// The object member `key` of an object, if it has one.
pub open spec fn object_member(m: Members, key: Seq<char>) -> Option<Members> {
    if m.contains_key(key) && m[key] is Object {
        Some(m[key]->Object_0)
    } else {
        None
    }
}

/// The member `key` of an object, whatever it holds, if it is there.
pub open spec fn any_member(m: Members, key: Seq<char>) -> Option<Json> {
    if m.contains_key(key) {
        Some(m[key])
    } else {
        None
    }
}

/// A text member that may be left out: a missing or null member reads as
/// `Some(None)`, a text as `Some(Some(..))`, anything else does not read.
pub open spec fn optional_text_member(m: Members, key: Seq<char>) -> Option<Option<Seq<char>>> {
    if !m.contains_key(key) || m[key] is Null {
        Some(None)
    } else if m[key] is Text {
        Some(Some(m[key]->Text_0))
    } else {
        None
    }
}

/// `m` with the text member `key` added when `value` is there.
pub open spec fn with_optional_text(m: Members, key: Seq<char>, value: Option<Seq<char>>) -> Members {
    match value {
        Some(s) => m.insert(key, Json::Text(s)),
        None => m,
    }
}

/// Whether two strings hold the same text.
pub fn str_eq(a: &str, b: &str) -> (r: bool)
    ensures
        r == (a@ == b@),
{
    a.to_owned() == b.to_owned()
}

/// Reads the text member `key`.
pub fn get_text(m: &serde_json::Map<String, Value>, key: &str) -> (r: Option<String>)
    ensures
        match r {
            Some(s) => text_member(object_model(*m), key@) == Some(s@),
            None => text_member(object_model(*m), key@) is None,
        },
{
    match object_get(m, key) {
        Some(v) => match value_as_str(v) {
            Some(s) => Some(s.to_owned()),
            None => None,
        },
        None => None,
    }
}

/// Reads the boolean member `key`.
pub fn get_bool(m: &serde_json::Map<String, Value>, key: &str) -> (r: Option<bool>)
    ensures
        r == bool_member(object_model(*m), key@),
{
    match object_get(m, key) {
        Some(v) => value_as_bool(v),
        None => None,
    }
}

/// Reads the number member `key`.
pub fn get_number(m: &serde_json::Map<String, Value>, key: &str) -> (r: Option<serde_json::Number>)
    ensures
        r == number_member(object_model(*m), key@),
{
    match object_get(m, key) {
        Some(v) => value_as_number(v),
        None => None,
    }
}

/// Reads the object member `key`.
pub fn get_object<'a>(m: &'a serde_json::Map<String, Value>, key: &str) -> (r: Option<
    &'a serde_json::Map<String, Value>,
>)
    ensures
        match r {
            Some(o) => object_member(object_model(*m), key@) == Some(object_model(*o)),
            None => object_member(object_model(*m), key@) is None,
        },
{
    match object_get(m, key) {
        Some(v) => value_as_object(v),
        None => None,
    }
}

/// Reads the member `key`, whatever it holds, as a value of its own.
pub fn get_value(m: &serde_json::Map<String, Value>, key: &str) -> (r: Option<Value>)
    ensures
        match r {
            Some(v) => any_member(object_model(*m), key@) == Some(json_model(v)),
            None => any_member(object_model(*m), key@) is None,
        },
{
    match object_get(m, key) {
        Some(v) => Some(v.clone()),
        None => None,
    }
}

/// Reads a text member that may be left out or null.
pub fn get_optional_text(m: &serde_json::Map<String, Value>, key: &str) -> (r: Option<Option<String>>)
    ensures
        match r {
            Some(Some(s)) => optional_text_member(object_model(*m), key@) == Some(Some(s@)),
            Some(None) => optional_text_member(object_model(*m), key@) == Some(None::<Seq<char>>),
            None => optional_text_member(object_model(*m), key@) is None,
        },
{
    match object_get(m, key) {
        Some(v) => {
            if value_is_null(v) {
                Some(None)
            } else {
                match value_as_str(v) {
                    Some(s) => Some(Some(s.to_owned())),
                    None => None,
                }
            }
        },
        None => Some(None),
    }
}

/// Adds the text member `key`.
pub fn put_text(m: &mut serde_json::Map<String, Value>, key: &str, text: &str)
    ensures
        object_model(*final(m)) == object_model(*old(m)).insert(key@, Json::Text(text@)),
{
    object_insert(m, key.to_owned(), value_from_text(text.to_owned()));
}

/// Adds the boolean member `key`.
pub fn put_bool(m: &mut serde_json::Map<String, Value>, key: &str, flag: bool)
    ensures
        object_model(*final(m)) == object_model(*old(m)).insert(key@, Json::Bool(flag)),
{
    object_insert(m, key.to_owned(), value_from_bool(flag));
}

/// Adds the number member `key`.
pub fn put_number(m: &mut serde_json::Map<String, Value>, key: &str, number: &serde_json::Number)
    ensures
        object_model(*final(m)) == object_model(*old(m)).insert(key@, Json::Number(*number)),
{
    object_insert(m, key.to_owned(), value_from_number(number.clone()));
}

/// Adds the member `key` holding a copy of `value`.
pub fn put_value(m: &mut serde_json::Map<String, Value>, key: &str, value: &Value)
    ensures
        object_model(*final(m)) == object_model(*old(m)).insert(key@, json_model(*value)),
{
    object_insert(m, key.to_owned(), value.clone());
}

/// Adds the object member `key`.
pub fn put_object(
    m: &mut serde_json::Map<String, Value>,
    key: &str,
    inner: serde_json::Map<String, Value>,
)
    ensures
        object_model(*final(m)) == object_model(*old(m)).insert(
            key@,
            Json::Object(object_model(inner)),
        ),
{
    object_insert(m, key.to_owned(), value_from_object(inner));
}

/// Adds the text member `key` when `text` is there.
pub fn put_optional_text(m: &mut serde_json::Map<String, Value>, key: &str, text: &Option<String>)
    ensures
        object_model(*final(m)) == with_optional_text(
            object_model(*old(m)),
            key@,
            match *text {
                Some(s) => Some(s@),
                None => None,
            },
        ),
{
    match text {
        Some(s) => put_text(m, key, s.as_str()),
        None => {},
    }
}

// ---------------------------------------------------------------------------
// The boundary with `serde_json`. Nothing below is proved.
// ---------------------------------------------------------------------------

#[verifier::external_type_specification]
#[verifier::external_body]
pub struct ExValue(serde_json::Value);

#[verifier::external_type_specification]
#[verifier::external_body]
pub struct ExNumber(serde_json::Number);

#[verifier::external_type_specification]
#[verifier::external_body]
#[verifier::reject_recursive_types(K)]
#[verifier::reject_recursive_types(V)]
pub struct ExMap<K, V>(serde_json::Map<K, V>);

/// The document that a `serde_json::Value` holds.
pub uninterp spec fn json_model(v: serde_json::Value) -> Json;

/// The members that a `serde_json::Map` holds.
pub uninterp spec fn object_model(m: serde_json::Map<String, serde_json::Value>) -> Map<
    Seq<char>,
    Json,
>;

/// The document that `serde_json::from_slice` reads from `bytes`, or `None`
/// where it reports an error.
pub uninterp spec fn parsed_json(bytes: Seq<u8>) -> Option<Json>;

/// The compact text that `serde_json::to_string` writes for a document, or
/// `None` where it reports an error.
pub uninterp spec fn rendered_json(doc: Json) -> Option<Seq<char>>;

/// `serde_json::from_slice` at type `Value`: the whole of `bytes` is read as
/// one JSON document. The outcome depends on the bytes alone.
#[verifier::external_body]
pub(crate) fn parse_json(bytes: &[u8]) -> (r: Option<Value>)
    ensures
        match r {
            Some(v) => parsed_json(bytes@) == Some(json_model(v)),
            None => parsed_json(bytes@) is None,
        },
{
    serde_json::from_slice::<Value>(bytes).ok()
}

/// `serde_json::to_string` on a `Value`: the compact text of the document.
/// The text depends on the document alone (object members are written in
/// key order).
#[verifier::external_body]
pub(crate) fn render_json(v: &Value) -> (r: Option<String>)
    ensures
        match r {
            Some(s) => rendered_json(json_model(*v)) == Some(s@),
            None => rendered_json(json_model(*v)) is None,
        },
{
    serde_json::to_string(v).ok()
}

/// `Value::as_str`: the text of a string value, `None` for any other value.
#[verifier::external_body]
pub(crate) fn value_as_str(v: &Value) -> (r: Option<&str>)
    ensures
        match r {
            Some(s) => json_model(*v) == Json::Text(s@),
            None => !(json_model(*v) is Text),
        },
{
    v.as_str()
}

/// `Value::as_bool`: the flag of a boolean value, `None` for any other value.
#[verifier::external_body]
pub(crate) fn value_as_bool(v: &Value) -> (r: Option<bool>)
    ensures
        match r {
            Some(b) => json_model(*v) == Json::Bool(b),
            None => !(json_model(*v) is Bool),
        },
{
    v.as_bool()
}

/// `Value::as_number`, copied: the number of a number value, `None` for any
/// other value.
#[verifier::external_body]
pub(crate) fn value_as_number(v: &Value) -> (r: Option<serde_json::Number>)
    ensures
        match r {
            Some(n) => json_model(*v) == Json::Number(n),
            None => !(json_model(*v) is Number),
        },
{
    v.as_number().cloned()
}

/// `Value::as_object`: the members of an object value, `None` for any other
/// value.
#[verifier::external_body]
pub(crate) fn value_as_object(v: &Value) -> (r: Option<&serde_json::Map<String, Value>>)
    ensures
        match r {
            Some(m) => json_model(*v) == Json::Object(object_model(*m)),
            None => !(json_model(*v) is Object),
        },
{
    v.as_object()
}

/// `Value::is_null`: whether the value is `null`.
#[verifier::external_body]
pub(crate) fn value_is_null(v: &Value) -> (r: bool)
    ensures
        r == (json_model(*v) is Null),
{
    v.is_null()
}

/// `Value::clone`: a value holding the same document.
pub assume_specification[ <serde_json::Value as Clone>::clone ](v: &serde_json::Value) -> (r:
    serde_json::Value)
    ensures
        json_model(r) == json_model(*v),
;

/// `Number::clone`: the same number.
pub assume_specification[ <serde_json::Number as Clone>::clone ](n: &serde_json::Number) -> (r:
    serde_json::Number)
    ensures
        r == *n,
;

/// `Value::from` a `String`: the string value with that text.
#[verifier::external_body]
pub(crate) fn value_from_text(text: String) -> (r: Value)
    ensures
        json_model(r) == Json::Text(text@),
{
    Value::from(text)
}

/// `Value::from` a `bool`: the boolean value with that flag.
#[verifier::external_body]
pub(crate) fn value_from_bool(flag: bool) -> (r: Value)
    ensures
        json_model(r) == Json::Bool(flag),
{
    Value::from(flag)
}

/// `Value::from` a `Number`: the number value holding it.
#[verifier::external_body]
pub(crate) fn value_from_number(number: serde_json::Number) -> (r: Value)
    ensures
        json_model(r) == Json::Number(number),
{
    Value::from(number)
}

/// `Value::from` a `Map`: the object value with those members.
#[verifier::external_body]
pub(crate) fn value_from_object(members: serde_json::Map<String, Value>) -> (r: Value)
    ensures
        json_model(r) == Json::Object(object_model(members)),
{
    Value::from(members)
}

/// `Map::new`: an object without members.
#[verifier::external_body]
pub(crate) fn object_new() -> (r: serde_json::Map<String, Value>)
    ensures
        object_model(r) == no_members(),
{
    serde_json::Map::new()
}

/// `Map::insert`: the member `key` now holds `value`, whether or not the key
/// was there before; the other members stay.
#[verifier::external_body]
pub(crate) fn object_insert(m: &mut serde_json::Map<String, Value>, key: String, value: Value)
    ensures
        object_model(*final(m)) == object_model(*old(m)).insert(key@, json_model(value)),
{
    m.insert(key, value);
}

/// `Map::get`: the value of the member `key`, `None` where the object has no
/// such member.
#[verifier::external_body]
pub(crate) fn object_get<'a>(m: &'a serde_json::Map<String, Value>, key: &str) -> (r: Option<
    &'a Value,
>)
    ensures
        match r {
            Some(v) => object_model(*m).contains_key(key@) && object_model(*m)[key@] == json_model(
                *v,
            ),
            None => !object_model(*m).contains_key(key@),
        },
{
    m.get(key)
}

/// `Map::keys`, collected: every key of the object, each once.
#[verifier::external_body]
pub(crate) fn object_keys(m: &serde_json::Map<String, Value>) -> (r: Vec<String>)
    ensures
        forall|i: int, j: int| 0 <= i < j < r@.len() ==> r@[i]@ != r@[j]@,
        forall|i: int| 0 <= i < r@.len() ==> object_model(*m).contains_key(#[trigger] r@[i]@),
        forall|k: Seq<char>|
            object_model(*m).contains_key(k) ==> exists|i: int|
                0 <= i < r@.len() && #[trigger] r@[i]@ == k,
{
    m.keys().cloned().collect()
}

} // verus!
