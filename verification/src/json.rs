//! The boundary to `serde_json`: a mathematical model of a JSON document and
//! the calls into the crate, each with the contract that the rest of the
//! library relies on. No contract in this file is proved; everything else is
//! proved from them.

use vstd::prelude::*;

verus! {

/// A JSON document as a mathematical value.
pub enum Json {
    Null,
    Bool(bool),
    /// A number that is held as an integer.
    Int(int),
    /// Any other number, identified by the bits of its double.
    Real(u64),
    Str(Seq<char>),
    /// The items, in order.
    Array(Seq<Json>),
    /// The members, each under its key.
    Object(Map<Seq<char>, Json>),
}

impl Json {
    /// The member of an object under `key`; nothing for a missing key and for
    /// a document that is no object.
    pub open spec fn member(self, key: Seq<char>) -> Option<Json> {
        match self {
            Json::Object(members) => if members.contains_key(key) {
                Some(members[key])
            } else {
                None
            },
            _ => None,
        }
    }

    /// The text of a string; nothing for any other document.
    pub open spec fn text(self) -> Option<Seq<char>> {
        match self {
            Json::Str(s) => Some(s),
            _ => None,
        }
    }

    /// The value of an integer that fits 64 signed bits; nothing for any
    /// other document.
    pub open spec fn integer(self) -> Option<i64> {
        match self {
            Json::Int(n) => if i64::MIN <= n <= i64::MAX {
                Some(n as i64)
            } else {
                None
            },
            _ => None,
        }
    }

    /// The text of the string member under `key`; nothing where the member
    /// is missing or is no string.
    pub open spec fn member_text(self, key: Seq<char>) -> Option<Seq<char>> {
        match self.member(key) {
            Some(found) => found.text(),
            None => None,
        }
    }

    /// The value of the integer member under `key`; nothing where the member
    /// is missing or is no integer of 64 signed bits.
    pub open spec fn member_integer(self, key: Seq<char>) -> Option<i64> {
        match self.member(key) {
            Some(found) => found.integer(),
            None => None,
        }
    }

    /// The members of an object that has none.
    pub open spec fn no_members() -> Map<Seq<char>, Json> {
        Map::empty()
    }

    /// An object with the single member `key`.
    pub open spec fn single(key: Seq<char>, value: Json) -> Json {
        Json::Object(Json::no_members().insert(key, value))
    }
}

/// `serde_json::Value`, carried through as it is.
#[verifier::external_type_specification]
#[verifier::external_body]
pub struct ExValue(serde_json::Value);

/// `serde_json::Map`, carried through as it is.
#[verifier::external_type_specification]
#[verifier::external_body]
#[verifier::reject_recursive_types(K)]
#[verifier::reject_recursive_types(V)]
pub struct ExMembers<K, V>(serde_json::Map<K, V>);

/// `serde_json::Error`, carried through as it is.
#[verifier::external_type_specification]
#[verifier::external_body]
pub struct ExJsonError(serde_json::Error);

/// The document that a `serde_json::Value` holds.
pub uninterp spec fn json_view(v: serde_json::Value) -> Json;

/// The members that a `serde_json::Map` holds, each under its key.
pub uninterp spec fn json_members(m: serde_json::Map<String, serde_json::Value>) -> Map<
    Seq<char>,
    Json,
>;

/// The document that `serde_json::from_slice` reads from bytes, if it reads one.
pub uninterp spec fn json_parse_bytes(bytes: Seq<u8>) -> Option<Json>;

/// The document that `serde_json::from_str` reads from a text, if it reads one.
pub uninterp spec fn json_parse_text(text: Seq<char>) -> Option<Json>;

/// The compact text that `serde_json::to_string` writes for a document. The
/// crate is used without its `preserve_order` feature: the members of an
/// object are written in the order of their keys, so the text depends on the
/// document alone.
pub uninterp spec fn json_print(doc: Json) -> Seq<char>;

/// `serde_json::from_slice` at `Value`: the value holds the document named by
/// `json_parse_bytes`, and the call fails exactly where there is none.
#[verifier::external_body]
pub(crate) fn parse_bytes(bytes: &[u8]) -> (r: Result<serde_json::Value, serde_json::Error>)
    ensures
        match r {
            Ok(v) => json_parse_bytes(bytes@) == Some(json_view(v)),
            Err(_) => json_parse_bytes(bytes@) is None,
        },
{
    serde_json::from_slice(bytes)
}

/// `serde_json::from_str` at `Value`: the value holds the document named by
/// `json_parse_text`, and the call fails exactly where there is none.
#[verifier::external_body]
pub(crate) fn parse_text(text: &str) -> (r: Result<serde_json::Value, serde_json::Error>)
    ensures
        match r {
            Ok(v) => json_parse_text(text@) == Some(json_view(v)),
            Err(_) => json_parse_text(text@) is None,
        },
{
    serde_json::from_str(text)
}

/// `serde_json::to_string` at `Value`: the text named by `json_print`. The
/// call is documented to fail only where a `Serialize` impl fails or a map
/// has a key that is no string; a `Value` has neither, so it succeeds.
#[verifier::external_body]
pub(crate) fn to_text(v: &serde_json::Value) -> (r: Result<String, serde_json::Error>)
    ensures
        match r {
            Ok(t) => t@ == json_print(json_view(*v)),
            Err(_) => false,
        },
{
    serde_json::to_string(v)
}

/// `serde_json::Value::get` with a string index: the member of an object
/// under that key; nothing for a missing key and for any other document.
#[verifier::external_body]
pub(crate) fn member<'a>(v: &'a serde_json::Value, key: &str) -> (r: Option<&'a serde_json::Value>)
    ensures
        match json_view(*v).member(key@) {
            Some(j) => r matches Some(m) && json_view(*m) == j,
            None => r is None,
        },
{
    v.get(key)
}

/// `serde_json::Value::as_str`: the text of a string; nothing for any other
/// document.
#[verifier::external_body]
pub(crate) fn as_str<'a>(v: &'a serde_json::Value) -> (r: Option<&'a str>)
    ensures
        match json_view(*v).text() {
            Some(s) => r matches Some(t) && t@ == s,
            None => r is None,
        },
{
    v.as_str()
}

/// `serde_json::Value::as_i64`: the value of an integer that fits 64 signed
/// bits; nothing for a larger one, a fraction and any other document.
#[verifier::external_body]
pub(crate) fn as_i64(v: &serde_json::Value) -> (r: Option<i64>)
    ensures
        r == json_view(*v).integer(),
{
    v.as_i64()
}

/// `serde_json::Value::from` at `&str`: the string with that text.
#[verifier::external_body]
pub(crate) fn string_value(text: &str) -> (r: serde_json::Value)
    ensures
        json_view(r) == Json::Str(text@),
{
    serde_json::Value::from(text)
}

/// `serde_json::Value::from` at `i64`: the integer with that value.
#[verifier::external_body]
pub(crate) fn integer_value(n: i64) -> (r: serde_json::Value)
    ensures
        json_view(r) == Json::Int(n as int),
{
    serde_json::Value::from(n)
}

/// `serde_json::Value::Array`: the array of the items' documents, in order.
#[verifier::external_body]
pub(crate) fn array_value(items: Vec<serde_json::Value>) -> (r: serde_json::Value)
    ensures
        json_view(r) == Json::Array(Seq::new(items@.len(), |i: int| json_view(items@[i]))),
{
    serde_json::Value::Array(items)
}

/// `serde_json::Value::Object`: the object with the map's members.
#[verifier::external_body]
pub(crate) fn object_value(members: serde_json::Map<String, serde_json::Value>) -> (r:
    serde_json::Value)
    ensures
        json_view(r) == Json::Object(json_members(members)),
{
    serde_json::Value::Object(members)
}

/// `serde_json::Map::new`: a map without members.
#[verifier::external_body]
pub(crate) fn members_new() -> (r: serde_json::Map<String, serde_json::Value>)
    ensures
        json_members(r) == Json::no_members(),
{
    serde_json::Map::new()
}

/// `serde_json::Map::insert`: the member under `key` is `value` afterwards,
/// whether or not the key was present; the other members stay.
#[verifier::external_body]
pub(crate) fn members_insert(
    members: &mut serde_json::Map<String, serde_json::Value>,
    key: &str,
    value: serde_json::Value,
)
    ensures
        json_members(*final(members)) == json_members(*old(members)).insert(
            key@,
            json_view(value),
        ),
{
    members.insert(key.to_owned(), value);
}

} // verus!
