//! JSON documents: the mathematical tree that contracts speak of, and the
//! few operations of `serde_json` that the library calls, each with what is
//! taken on trust about it.

use vstd::prelude::*;

verus! {

/// A JSON document as a mathematical tree. A number carries no value here:
/// nothing in this library reads one. An object is a map: a key stands in
/// it once, however often the text wrote it.
pub enum Json {
    Null,
    Bool(bool),
    Number,
    Text(Seq<char>),
    Array(Seq<Json>),
    Object(Map<Seq<char>, Json>),
}

impl Json {
    /// The member `key` of an object; nothing of anything else.
    pub open spec fn member(self, key: Seq<char>) -> Option<Json> {
        match self {
            Json::Object(members) => if members.contains_key(key) {
                Some(members[key])
            } else {
                None
            },
            _ => None,
        }
    }

    /// The element at `index` of an array; nothing of anything else.
    pub open spec fn element(self, index: int) -> Option<Json> {
        match self {
            Json::Array(elements) => if 0 <= index < elements.len() {
                Some(elements[index])
            } else {
                None
            },
            _ => None,
        }
    }

    /// The characters of a string; nothing of anything else.
    pub open spec fn text(self) -> Option<Seq<char>> {
        match self {
            Json::Text(characters) => Some(characters),
            _ => None,
        }
    }

    /// The members of an object; nothing of anything else.
    pub open spec fn members(self) -> Option<Map<Seq<char>, Json>> {
        match self {
            Json::Object(members) => Some(members),
            _ => None,
        }
    }
}

/// `members` has exactly `count` keys.
pub open spec fn has_size(members: Map<Seq<char>, Json>, count: nat) -> bool {
    members.dom().finite() && members.dom().len() == count
}

/// `serde_json::Value`, a parsed JSON document. Opaque here: contracts speak
/// of the tree it holds, `json_of`.
#[verifier::external_type_specification]
#[verifier::external_body]
pub struct ExValue(serde_json::Value);

/// `serde_json::Map`, the members of a JSON object. Opaque here: contracts
/// speak of the members it holds, `members_of`.
#[verifier::external_type_specification]
#[verifier::external_body]
#[verifier::reject_recursive_types(K)]
#[verifier::reject_recursive_types(V)]
pub struct ExMembers<K, V>(serde_json::Map<K, V>);

/// `serde_json::Error`, why a text was not read as JSON. Carried, never read.
#[verifier::external_type_specification]
#[verifier::external_body]
pub struct ExJsonError(serde_json::Error);

/// The tree that a `serde_json::Value` holds: its variant, and below it the
/// characters of a string, the elements of an array in their order, the
/// members of an object by their keys.
pub uninterp spec fn json_of(value: serde_json::Value) -> Json;

/// The members that a `serde_json::Map` holds, each key with the tree of its
/// value.
pub uninterp spec fn members_of(members: serde_json::Map<String, serde_json::Value>) -> Map<
    Seq<char>,
    Json,
>;

/// What `serde_json::from_str` makes of a text when it is asked for a
/// `Value`: the tree of the document, or nothing where it reports an error.
pub uninterp spec fn json_text(text: Seq<char>) -> Option<Json>;

/// `serde_json::from_str::<Value>`: trusted to depend on the text alone, so
/// that `json_text` can name its result. Nothing is claimed about which
/// texts it accepts.
#[verifier::external_body]
pub(crate) fn parse_json(text: &str) -> (r: Result<serde_json::Value, serde_json::Error>)
    ensures
        json_text(text@) == match r {
            Ok(value) => Some(json_of(value)),
            Err(_) => None::<Json>,
        },
{
    serde_json::from_str::<serde_json::Value>(text)
}

/// `Value::get` with a string index: trusted to return the member `key` if
/// the value is an object that has one, and nothing otherwise.
#[verifier::external_body]
pub(crate) fn member<'a>(value: &'a serde_json::Value, key: &str) -> (r: Option<
    &'a serde_json::Value,
>)
    ensures
        json_of(*value).member(key@) == match r {
            Some(found) => Some(json_of(*found)),
            None => None::<Json>,
        },
{
    value.get(key)
}

/// `Value::get` with a number index: trusted to return the element at
/// `index` if the value is an array that long, and nothing otherwise.
#[verifier::external_body]
pub(crate) fn element<'a>(value: &'a serde_json::Value, index: usize) -> (r: Option<
    &'a serde_json::Value,
>)
    ensures
        json_of(*value).element(index as int) == match r {
            Some(found) => Some(json_of(*found)),
            None => None::<Json>,
        },
{
    value.get(index)
}

/// `Value::as_str`: trusted to return the characters of a string, and
/// nothing of any other value.
pub assume_specification<'a>[ serde_json::Value::as_str ](value: &'a serde_json::Value) -> (r:
    Option<&'a str>)
    ensures
        json_of(*value).text() == match r {
            Some(characters) => Some(characters@),
            None => None::<Seq<char>>,
        },
;

/// `Value::as_object`: trusted to return the members of an object, and
/// nothing of any other value.
pub assume_specification<'a>[ serde_json::Value::as_object ](value: &'a serde_json::Value) -> (r:
    Option<&'a serde_json::Map<String, serde_json::Value>>)
    ensures
        json_of(*value).members() == match r {
            Some(members) => Some(members_of(*members)),
            None => None::<Map<Seq<char>, Json>>,
        },
;

/// `Map::len`: trusted to return the number of members.
pub assume_specification[ serde_json::Map::<String, serde_json::Value>::len ](
    members: &serde_json::Map<String, serde_json::Value>,
) -> (count: usize)
    ensures
        has_size(members_of(*members), count as nat),
;

} // verus!
