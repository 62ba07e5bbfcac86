//! JSON documents as the extraction rules read them.
//!
//! A response body is parsed by `serde_json`; what comes out is copied into
//! [`Json`], a plain tree that the rules of this crate can walk. Contracts
//! speak of [`JsonValue`], the same tree as a mathematical value.

use serde_json::Value;
use vstd::prelude::*;

verus! {

/// A JSON document as a mathematical value. An object keeps its members as a
/// sequence of key and value, in the order in which they are held.
pub enum JsonValue {
    Null,
    Bool(bool),
    Number(Seq<char>),
    Text(Seq<char>),
    Array(Seq<JsonValue>),
    Object(Seq<MemberValue>),
}

/// One member of an object, as a mathematical value.
pub struct MemberValue {
    pub key: Seq<char>,
    pub value: JsonValue,
}

/// Whether `index` is the first place among `members` where `key` occurs.
pub open spec fn is_first_with_key(
    members: Seq<MemberValue>,
    key: Seq<char>,
    index: int,
) -> bool {
    &&& 0 <= index < members.len()
    &&& members[index].key == key
    &&& forall|before: int| 0 <= before < index ==> (#[trigger] members[before]).key != key
}

impl JsonValue {
    /// The value of the first member named `key`, where `self` is an object
    /// that has one.
    pub open spec fn member(self, key: Seq<char>) -> Option<JsonValue> {
        match self {
            JsonValue::Object(members) => {
                if exists|index: int| is_first_with_key(members, key, index) {
                    Some(members[choose|index: int| is_first_with_key(members, key, index)].value)
                } else {
                    None
                }
            },
            _ => None,
        }
    }

    /// The element at `index`, where `self` is an array that is long enough.
    pub open spec fn element(self, index: int) -> Option<JsonValue> {
        match self {
            JsonValue::Array(items) => {
                if 0 <= index < items.len() {
                    Some(items[index])
                } else {
                    None
                }
            },
            _ => None,
        }
    }

    /// The characters of `self`, where it is a string.
    pub open spec fn text(self) -> Option<Seq<char>> {
        match self {
            JsonValue::Text(text) => Some(text),
            _ => None,
        }
    }
}

/// The member named `key` of `parent`, where there is a parent that has one.
pub open spec fn member_of(parent: Option<JsonValue>, key: Seq<char>) -> Option<JsonValue> {
    match parent {
        Some(value) => value.member(key),
        None => None,
    }
}

/// The element at `index` of `parent`, where there is a parent that has one.
pub open spec fn element_of(parent: Option<JsonValue>, index: int) -> Option<JsonValue> {
    match parent {
        Some(value) => value.element(index),
        None => None,
    }
}

/// The characters of `value`, where there is a value and it is a string.
pub open spec fn text_of(value: Option<JsonValue>) -> Option<Seq<char>> {
    match value {
        Some(found) => found.text(),
        None => None,
    }
}

/// A JSON document held in memory. A number keeps its written form.
#[derive(Debug, PartialEq, Eq)]
pub enum Json {
    Null,
    Bool(bool),
    Number(String),
    Text(String),
    Array(Vec<Json>),
    Object(Vec<Member>),
}

/// One member of a JSON object.
#[derive(Debug, PartialEq, Eq)]
pub struct Member {
    pub key: String,
    pub value: Json,
}

impl View for Json {
    type V = JsonValue;

    open spec fn view(&self) -> JsonValue
        decreases self,
    {
        match self {
            Json::Null => JsonValue::Null,
            Json::Bool(flag) => JsonValue::Bool(*flag),
            Json::Number(digits) => JsonValue::Number(digits@),
            Json::Text(text) => JsonValue::Text(text@),
            Json::Array(items) => JsonValue::Array(
                Seq::new(
                    items@.len(),
                    |i: int|
                        if 0 <= i < items@.len() {
                            items@[i].view()
                        } else {
                            JsonValue::Null
                        },
                ),
            ),
            Json::Object(members) => JsonValue::Object(
                Seq::new(
                    members@.len(),
                    |i: int|
                        if 0 <= i < members@.len() {
                            MemberValue { key: members@[i].key@, value: members@[i].value.view() }
                        } else {
                            MemberValue { key: Seq::empty(), value: JsonValue::Null }
                        },
                ),
            ),
        }
    }
}

impl Json {
    /// The value of the first member named `key`, if `self` is an object that
    /// has such a member.
    pub fn get(&self, key: &str) -> (found: Option<&Json>)
        ensures
            found.deep_view() == self@.member(key@),
    {
        match self {
            Json::Object(members) => {
                let ghost pairs = self@->Object_0;
                let mut i: usize = 0;
                while i < members.len()
                    invariant
                        i <= members.len(),
                        self@ == JsonValue::Object(pairs),
                        pairs.len() == members@.len(),
                        forall|j: int|
                            0 <= j < members@.len() ==> #[trigger] pairs[j] == (MemberValue {
                                key: members@[j].key@,
                                value: members@[j].value@,
                            }),
                        forall|j: int| 0 <= j < i ==> (#[trigger] pairs[j]).key != key@,
                    decreases members.len() - i,
                {
                    if members[i].key.as_str().eq(key) {
                        assert(is_first_with_key(pairs, key@, i as int));
                        return Some(&members[i].value);
                    }
                    i += 1;
                }
                None
            },
            _ => None,
        }
    }

    /// The element at `index`, if `self` is an array that is long enough.
    pub fn at(&self, index: usize) -> (found: Option<&Json>)
        ensures
            found.deep_view() == self@.element(index as int),
    {
        match self {
            Json::Array(items) => {
                if index < items.len() {
                    Some(&items[index])
                } else {
                    None
                }
            },
            _ => None,
        }
    }

    /// The characters of `self`, if it is a string.
    pub fn as_text(&self) -> (found: Option<&str>)
        ensures
            found.deep_view() == self@.text(),
    {
        match self {
            Json::Text(text) => Some(text.as_str()),
            _ => None,
        }
    }

    /// One step down a path: the member named `key` of what was found so far.
    pub fn member_of<'a>(parent: Option<&'a Json>, key: &str) -> (found: Option<&'a Json>)
        ensures
            found.deep_view() == member_of(parent.deep_view(), key@),
    {
        match parent {
            Some(value) => value.get(key),
            None => None,
        }
    }

    /// One step down a path: the element at `index` of what was found so far.
    pub fn element_of<'a>(parent: Option<&'a Json>, index: usize) -> (found: Option<&'a Json>)
        ensures
            found.deep_view() == element_of(parent.deep_view(), index as int),
    {
        match parent {
            Some(value) => value.at(index),
            None => None,
        }
    }

    /// The end of a path: the characters of what was found, if it is a string.
    pub fn text_of<'a>(value: Option<&'a Json>) -> (text: Option<&'a str>)
        ensures
            text.deep_view() == text_of(value.deep_view()),
    {
        match value {
            Some(found) => found.as_text(),
            None => None,
        }
    }
}

impl DeepView for Json {
    type V = JsonValue;

    open spec fn deep_view(&self) -> JsonValue {
        self.view()
    }
}

/// `serde_json::Value`, the tree that the parser builds. It is only carried
/// from the parser to the copy into [`Json`].
#[verifier::external_type_specification]
#[verifier::external_body]
pub struct ExValue(serde_json::Value);

/// `serde_json::Error`, the parser's account of a text that is not JSON.
#[verifier::external_type_specification]
#[verifier::external_body]
pub struct ExError(serde_json::Error);

/// The document that `serde_json` reads out of `body`, if `body` is one JSON
/// text and nothing else.
pub uninterp spec fn parsed_document(body: Seq<u8>) -> Option<JsonValue>;

/// The document that a `serde_json::Value` holds.
pub uninterp spec fn document_of(value: Value) -> JsonValue;

/// Calls `serde_json::from_slice` for a `serde_json::Value`. Trusted: whether
/// the bytes parse, and the document that they parse to, depend on the bytes
/// alone.
#[verifier::external_body]
fn parse_value(body: &[u8]) -> (parsed: Result<Value, serde_json::Error>)
    ensures
        match parsed {
            Ok(value) => parsed_document(body@) == Some(document_of(value)),
            Err(_) => parsed_document(body@) is None,
        },
{
    serde_json::from_slice::<Value>(body)
}

/// Copies a `serde_json::Value` into a [`Json`], variant by variant. A number
/// is written out as `serde_json::Number` displays it; the members of an
/// object are taken in the order in which `serde_json::Map` hands them out.
/// Trusted: the copy holds the document that the value held.
#[verifier::external_body]
fn json_from_value(value: Value) -> (json: Json)
    ensures
        json@ == document_of(value),
{
    match value {
        Value::Null => Json::Null,
        Value::Bool(flag) => Json::Bool(flag),
        Value::Number(number) => Json::Number(number.to_string()),
        Value::String(text) => Json::Text(text),
        Value::Array(items) => Json::Array(items.into_iter().map(json_from_value).collect()),
        Value::Object(members) => Json::Object(
            members.into_iter().map(|(key, v)| Member { key, value: json_from_value(v) }).collect(),
        ),
    }
}

/// Parses a response body. A body that is not one JSON text gives `None`.
pub fn parse(body: &[u8]) -> (document: Option<Json>)
    ensures
        document.deep_view() == parsed_document(body@),
{
    match parse_value(body) {
        Ok(value) => Some(json_from_value(value)),
        Err(_) => None,
    }
}

} // verus!
