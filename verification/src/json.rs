//! JSON documents as `serde_json` holds them, and what is assumed of it.
//!
//! Nothing in this module is proved: each function states what the
//! `serde_json` call in its body is taken to do.

use vstd::prelude::*;

verus! {

#[verifier::external_type_specification]
#[verifier::external_body]
pub struct ExValue(serde_json::Value);

#[verifier::external_type_specification]
#[verifier::external_body]
#[verifier::reject_recursive_types(K)]
#[verifier::reject_recursive_types(V)]
pub struct ExObject<K, V>(serde_json::Map<K, V>);

#[verifier::external_type_specification]
#[verifier::external_body]
pub struct ExJsonError(serde_json::Error);

/// A JSON number: an integer, or anything else by the digits that stand for it.
pub enum JsonNumber {
    Integer(int),
    Fraction(Seq<char>),
}

/// The mathematical content of a JSON document.
pub enum Json {
    Null,
    Boolean(bool),
    Number(JsonNumber),
    Text(Seq<char>),
    Array(Seq<Json>),
    Object(Map<Seq<char>, Json>),
}

/// The document that a `serde_json::Value` holds.
pub uninterp spec fn json_of(v: serde_json::Value) -> Json;

/// The members that a `serde_json::Map` holds, by key.
pub uninterp spec fn members(m: serde_json::Map<String, serde_json::Value>) -> Map<Seq<char>, Json>;

/// The keys of a `serde_json::Map` in the order in which it hands them out.
pub uninterp spec fn key_order(m: serde_json::Map<String, serde_json::Value>) -> Seq<Seq<char>>;

/// The document that `serde_json::from_str` reads from a text, if it reads one.
pub uninterp spec fn parsed_json(text: Seq<char>) -> Option<Json>;

/// The members of an object that has none.
pub open spec fn no_members() -> Map<Seq<char>, Json> {
    Map::empty()
}

/// `serde_json::from_str` at type `Value`: the result is a function of the
/// text alone, and the error stands for every text it does not accept.
#[verifier::external_body]
pub(crate) fn parse_json(text: &str) -> (r: Result<serde_json::Value, serde_json::Error>)
    ensures
        match r {
            Ok(v) => parsed_json(text@) == Some(json_of(v)),
            Err(_) => parsed_json(text@) is None,
        },
{
    serde_json::from_str::<serde_json::Value>(text)
}

/// `Value::as_object`: the map inside an object, nothing for any other value.
#[verifier::external_body]
pub(crate) fn value_as_object(v: &serde_json::Value) -> (r: Option<
    &serde_json::Map<String, serde_json::Value>,
>)
    ensures
        match r {
            Some(m) => json_of(*v) == Json::Object(members(*m)),
            None => !(json_of(*v) is Object),
        },
{
    v.as_object()
}

/// `Value::as_str`: the text inside a string, nothing for any other value.
#[verifier::external_body]
pub(crate) fn value_as_str(v: &serde_json::Value) -> (r: Option<&str>)
    ensures
        match r {
            Some(s) => json_of(*v) == Json::Text(s@),
            None => !(json_of(*v) is Text),
        },
{
    v.as_str()
}

/// `Value::as_i64`: the integer inside a number that is an integer and fits
/// in `i64`, nothing for any other value.
#[verifier::external_body]
pub(crate) fn value_as_i64(v: &serde_json::Value) -> (r: Option<i64>)
    ensures
        match r {
            Some(n) => json_of(*v) == Json::Number(JsonNumber::Integer(n as int)),
            None => !(json_of(*v) matches Json::Number(JsonNumber::Integer(i)) && i64::MIN <= i
                <= i64::MAX),
        },
{
    v.as_i64()
}

/// `Value::clone`: the copy holds the same document.
#[verifier::external_body]
pub(crate) fn value_clone(v: &serde_json::Value) -> (r: serde_json::Value)
    ensures
        json_of(r) == json_of(*v),
{
    v.clone()
}

/// `Map::new`: a map without members.
#[verifier::external_body]
pub(crate) fn object_new() -> (r: serde_json::Map<String, serde_json::Value>)
    ensures
        members(r) == no_members(),
{
    serde_json::Map::new()
}

/// `Map::clone`: the copy holds the same members and hands its keys out in
/// the same order.
#[verifier::external_body]
pub(crate) fn object_clone(m: &serde_json::Map<String, serde_json::Value>) -> (r: serde_json::Map<
    String,
    serde_json::Value,
>)
    ensures
        members(r) == members(*m),
        key_order(r) == key_order(*m),
{
    m.clone()
}

/// `Map::len`: the number of members.
#[verifier::external_body]
pub(crate) fn object_len(m: &serde_json::Map<String, serde_json::Value>) -> (r: usize)
    ensures
        r == members(*m).len(),
{
    m.len()
}

/// `Map::contains_key`: whether a member has this key.
#[verifier::external_body]
pub(crate) fn object_contains_key(
    m: &serde_json::Map<String, serde_json::Value>,
    key: &str,
) -> (r: bool)
    ensures
        r == members(*m).contains_key(key@),
{
    m.contains_key(key)
}

/// `Map::get`: the member with this key, if there is one.
#[verifier::external_body]
pub(crate) fn object_get<'a>(
    m: &'a serde_json::Map<String, serde_json::Value>,
    key: &str,
) -> (r: Option<&'a serde_json::Value>)
    ensures
        match r {
            Some(v) => members(*m).contains_key(key@) && members(*m)[key@] == json_of(*v),
            None => !members(*m).contains_key(key@),
        },
{
    m.get(key)
}

/// `Map::insert`: the member with this key is set, the others stay, and the
/// value that the key had before is handed back.
#[verifier::external_body]
pub(crate) fn object_insert(
    m: &mut serde_json::Map<String, serde_json::Value>,
    key: String,
    value: serde_json::Value,
) -> (r: Option<serde_json::Value>)
    ensures
        members(*final(m)) == members(*old(m)).insert(key@, json_of(value)),
        match r {
            Some(v) => members(*old(m)).contains_key(key@) && members(*old(m))[key@] == json_of(v),
            None => !members(*old(m)).contains_key(key@),
        },
{
    m.insert(key, value)
}

/// `Map::keys`, each key copied: every key of the map once, in the order in
/// which the map hands them out.
#[verifier::external_body]
pub(crate) fn object_keys(m: &serde_json::Map<String, serde_json::Value>) -> (r: Vec<String>)
    ensures
        r.deep_view() == key_order(*m),
        r.deep_view().no_duplicates(),
        r.deep_view().to_set() == members(*m).dom(),
{
    m.keys().cloned().collect()
}

} // verus!
