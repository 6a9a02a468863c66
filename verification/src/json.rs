//! JSON documents: the mathematical value that a `serde_json::Value` stands
//! for, and the calls into `serde_json` that build and read one.

use vstd::prelude::*;

verus! {

/// A JSON document as a mathematical value.
///
/// A number that is held in floating point is a `Real`; which number it is,
/// is not recorded.
pub enum Json {
    Null,
    Bool(bool),
    Int(int),
    Real,
    Text(Seq<char>),
    List(Seq<Json>),
    Object(Map<Seq<char>, Json>),
}

impl Json {
    /// Null, a boolean, an integer or a text.
    pub open spec fn is_scalar(self) -> bool {
        self is Null || self is Bool || self is Int || self is Text
    }

    /// Whether the document holds no number in floating point and its lists
    /// and objects nest at most `depth` deep. A scalar nests zero deep.
    pub open spec fn plain_within(self, depth: nat) -> bool
        decreases depth,
    {
        match self {
            Json::Real => false,
            Json::List(items) => depth > 0 && forall|i: int|
                0 <= i < items.len() ==> (#[trigger] items[i]).plain_within((depth - 1) as nat),
            Json::Object(m) => depth > 0 && forall|k: Seq<char>|
                m.contains_key(k) ==> (#[trigger] m[k]).plain_within((depth - 1) as nat),
            _ => true,
        }
    }

    /// The members of an object; of anything else, no members.
    pub open spec fn members(self) -> Map<Seq<char>, Json> {
        match self {
            Json::Object(m) => m,
            _ => Map::empty(),
        }
    }

    /// The member of an object under `key`, if it has one.
    pub open spec fn member(self, key: Seq<char>) -> Option<Json> {
        if self.members().contains_key(key) {
            Some(self.members()[key])
        } else {
            None
        }
    }
}

/// `serde_json::Value`, a JSON document. Nothing is known of a value but
/// the document that it holds, through `json_of`.
#[verifier::external_type_specification]
#[verifier::external_body]
pub struct ExJsonValue(serde_json::Value);

/// The document that a `serde_json::Value` holds.
pub uninterp spec fn json_of(v: serde_json::Value) -> Json;

/// The documents that a list of values holds, in order.
pub open spec fn jsons_of(vs: Seq<serde_json::Value>) -> Seq<Json> {
    vs.map_values(|v: serde_json::Value| json_of(v))
}

/// `serde_json::Value::Null`: the null document.
#[verifier::external_body]
pub(crate) fn null() -> (v: serde_json::Value)
    ensures
        json_of(v) == Json::Null,
{
    serde_json::Value::Null
}

/// `serde_json::Value::String`: a text document with the characters of `s`.
#[verifier::external_body]
pub(crate) fn from_text(s: &str) -> (v: serde_json::Value)
    ensures
        json_of(v) == Json::Text(s@),
{
    serde_json::Value::String(s.to_owned())
}

/// `serde_json::Value::from` on an `i64`: the integer document `n`.
#[verifier::external_body]
pub(crate) fn from_int(n: i64) -> (v: serde_json::Value)
    ensures
        json_of(v) == Json::Int(n as int),
{
    serde_json::Value::from(n)
}

/// `serde_json::Value::Array`: a list document with the given items in order.
#[verifier::external_body]
pub(crate) fn from_list(items: Vec<serde_json::Value>) -> (v: serde_json::Value)
    ensures
        json_of(v) == Json::List(jsons_of(items@)),
{
    serde_json::Value::Array(items)
}

/// `serde_json::Value::Object` on `serde_json::Map::new`: an object without
/// members.
#[verifier::external_body]
pub(crate) fn empty_object() -> (v: serde_json::Value)
    ensures
        json_of(v) == Json::Object(Map::empty()),
{
    serde_json::Value::Object(serde_json::Map::new())
}

/// `serde_json::Map::insert` on the map of an object: afterwards the object
/// has `val` under `key` and its other members as before. Anything but an
/// object is left as it was.
#[verifier::external_body]
pub(crate) fn insert(obj: &mut serde_json::Value, key: &str, val: serde_json::Value)
    ensures
        json_of(*old(obj)) is Object ==> json_of(*final(obj)) == Json::Object(
            json_of(*old(obj)).members().insert(key@, json_of(val)),
        ),
        !(json_of(*old(obj)) is Object) ==> json_of(*final(obj)) == json_of(*old(obj)),
{
    if let Some(map) = obj.as_object_mut() {
        map.insert(key.to_owned(), val);
    }
}

/// `serde_json::Value::get` with a text key: the member of an object under
/// `key`; `None` where there is none or the document is no object.
#[verifier::external_body]
pub(crate) fn member<'a>(obj: &'a serde_json::Value, key: &str) -> (found: Option<
    &'a serde_json::Value,
>)
    ensures
        match found {
            Some(v) => json_of(*obj).member(key@) == Some(json_of(*v)),
            None => json_of(*obj).member(key@) is None,
        },
{
    obj.get(key)
}

/// `serde_json::Value::as_str`: the characters of a text document; `None` for
/// any other document.
#[verifier::external_body]
pub(crate) fn as_text<'a>(v: &'a serde_json::Value) -> (found: Option<&'a str>)
    ensures
        match found {
            Some(s) => json_of(*v) == Json::Text(s@),
            None => !(json_of(*v) is Text),
        },
{
    v.as_str()
}

/// `serde_json::Value::as_i64`: an integer document that fits `i64`; `None`
/// for an integer that does not fit and for any other document.
#[verifier::external_body]
pub(crate) fn as_int(v: &serde_json::Value) -> (found: Option<i64>)
    ensures
        match found {
            Some(n) => json_of(*v) == Json::Int(n as int),
            None => !(json_of(*v) matches Json::Int(i) && i64::MIN <= i <= i64::MAX),
        },
{
    v.as_i64()
}

/// `serde_json::Value::as_array`: the items of a list document; `None` for
/// any other document.
#[verifier::external_body]
pub(crate) fn as_list<'a>(v: &'a serde_json::Value) -> (found: Option<&'a Vec<serde_json::Value>>)
    ensures
        match found {
            Some(items) => json_of(*v) == Json::List(jsons_of(items@)),
            None => !(json_of(*v) is List),
        },
{
    v.as_array()
}

/// `serde_json::Value::is_null`.
#[verifier::external_body]
pub(crate) fn is_null(v: &serde_json::Value) -> (yes: bool)
    ensures
        yes == (json_of(*v) is Null),
{
    v.is_null()
}

/// `serde_json::Value::is_object`.
#[verifier::external_body]
pub(crate) fn is_object(v: &serde_json::Value) -> (yes: bool)
    ensures
        yes == (json_of(*v) is Object),
{
    v.is_object()
}

/// `serde_json::Value::clone`: a value that holds the same document.
#[verifier::external_body]
pub(crate) fn duplicate(v: &serde_json::Value) -> (copy: serde_json::Value)
    ensures
        json_of(copy) == json_of(*v),
{
    v.clone()
}

} // verus!
