//! A JSON document held as plain values, and the reads that the agent's
//! replies need from one.

use vstd::prelude::*;
use crate::text::str_eq;
use serde_json::Value;

verus! {

/// A JSON number as the parser read it.
#[derive(Debug, PartialEq)]
pub enum JsonNumber {
    /// A non-negative integer that fits in 64 bits.
    PosInt(u64),
    /// A negative integer that fits in 64 bits.
    NegInt(i64),
    /// Any other number, held as its shortest decimal rendering.
    Float(String),
}

/// A JSON value.  An object holds its members in a sequence: one that the
/// parser makes has each key once, in the order in which its map yields them;
/// reads take the first member with a key.
#[derive(Debug, PartialEq)]
pub enum Json {
    Null,
    Bool(bool),
    Number(JsonNumber),
    Str(String),
    Array(Vec<Json>),
    Object(Vec<(String, Json)>),
}

/// The value of the first member named `key` among `members`.
pub open spec fn member(members: Seq<(String, Json)>, key: Seq<char>) -> Option<Json>
    decreases members.len(),
{
    if members.len() == 0 {
        None
    } else if members[0].0@ == key {
        Some(members[0].1)
    } else {
        member(members.drop_first(), key)
    }
}

/// Reading a member finds the first member with that key, and finds
/// nothing where no member has it.
pub proof fn lemma_member_first(members: Seq<(String, Json)>, key: Seq<char>, i: int)
    ensures
        0 <= i < members.len() && members[i].0@ == key && (forall|j: int|
            0 <= j < i ==> (#[trigger] members[j]).0@ != key) ==> member(members, key) == Some(
            members[i].1,
        ),
        (forall|j: int| 0 <= j < members.len() ==> (#[trigger] members[j]).0@ != key) ==> member(
            members,
            key,
        ) is None,
    decreases members.len(),
{
    if members.len() > 0 {
        let rest = members.drop_first();
        assert forall|j: int| 0 <= j < rest.len() implies #[trigger] rest[j] == members[j + 1] by {}
        if members[0].0@ != key {
            lemma_member_first(rest, key, i - 1);
            if 0 <= i < members.len() && members[i].0@ == key && (forall|j: int|
                0 <= j < i ==> (#[trigger] members[j]).0@ != key) {
                assert(i > 0);
                assert forall|j: int| 0 <= j < i - 1 implies (#[trigger] rest[j]).0@ != key by {
                    assert(rest[j] == members[j + 1]);
                }
            }
            if forall|j: int| 0 <= j < members.len() ==> (#[trigger] members[j]).0@ != key {
                assert forall|j: int| 0 <= j < rest.len() implies (#[trigger] rest[j]).0@ != key by {
                    assert(rest[j] == members[j + 1]);
                }
            }
        } else {
            if 0 <= i < members.len() && members[i].0@ == key && (forall|j: int|
                0 <= j < i ==> (#[trigger] members[j]).0@ != key) {
                assert(i == 0);
            }
            if forall|j: int| 0 <= j < members.len() ==> (#[trigger] members[j]).0@ != key {
                assert(members[0].0@ != key);
            }
        }
    }
}

/// The position of the first member named `key`.
pub fn member_index(members: &Vec<(String, Json)>, key: &str) -> (r: Option<usize>)
    ensures
        match r {
            Some(i) => i < members@.len() && members@[i as int].0@ == key@ && member(members@, key@)
                == Some(members@[i as int].1),
            None => member(members@, key@) is None,
        },
{
    let mut i: usize = 0;
    assert(members@.skip(0) =~= members@);
    while i < members.len()
        invariant
            0 <= i <= members.len(),
            member(members@, key@) == member(members@.skip(i as int), key@),
        decreases members.len() - i,
    {
        assert(members@.skip(i as int)[0] == members@[i as int]);
        if str_eq(members[i].0.as_str(), key) {
            assert(member(members@.skip(i as int), key@) == Some(members@[i as int].1));
            return Some(i);
        }
        assert(members@.skip(i as int).drop_first() =~= members@.skip(i + 1));
        i = i + 1;
    }
    assert(members@.skip(i as int).len() == 0);
    None
}

/// A borrowed optional value, taken as a value.
pub open spec fn known(v: Option<&Json>) -> Option<Json> {
    match v {
        Some(x) => Some(*x),
        None => None,
    }
}

/// A borrowed optional string, taken as its text.
pub open spec fn known_text(v: Option<&String>) -> Option<Seq<char>> {
    match v {
        Some(s) => Some(s@),
        None => None,
    }
}

impl Json {
    /// The member `key` of an object; nothing for any other value.
    pub open spec fn field(self, key: Seq<char>) -> Option<Json> {
        match self {
            Json::Object(members) => member(members@, key),
            _ => None,
        }
    }

    /// The text of a string value.
    pub open spec fn text(self) -> Option<Seq<char>> {
        match self {
            Json::Str(s) => Some(s@),
            _ => None,
        }
    }

    /// A number that is a non-negative integer fitting in 64 bits.
    pub open spec fn unsigned(self) -> Option<u64> {
        match self {
            Json::Number(JsonNumber::PosInt(n)) => Some(n),
            _ => None,
        }
    }

    /// The value of a boolean.
    pub open spec fn flag(self) -> Option<bool> {
        match self {
            Json::Bool(b) => Some(b),
            _ => None,
        }
    }

    /// The elements of an array.
    pub open spec fn items(self) -> Option<Seq<Json>> {
        match self {
            Json::Array(v) => Some(v@),
            _ => None,
        }
    }

    /// The member `key` of an object, or `None` for a missing member or a
    /// value that is not an object.
    pub fn get(&self, key: &str) -> (r: Option<&Json>)
        ensures
            known(r) == self.field(key@),
    {
        match self {
            Json::Object(members) => match member_index(members, key) {
                Some(i) => Some(&members[i].1),
                None => None,
            },
            _ => None,
        }
    }

    /// The text of a string value.
    pub fn as_str(&self) -> (r: Option<&String>)
        ensures
            known_text(r) == self.text(),
    {
        match self {
            Json::Str(s) => Some(s),
            _ => None,
        }
    }

    /// A number that is a non-negative integer fitting in 64 bits.
    pub fn as_u64(&self) -> (r: Option<u64>)
        ensures
            r == self.unsigned(),
    {
        match self {
            Json::Number(JsonNumber::PosInt(n)) => Some(*n),
            _ => None,
        }
    }

    /// The value of a boolean.
    pub fn as_bool(&self) -> (r: Option<bool>)
        ensures
            r == self.flag(),
    {
        match self {
            Json::Bool(b) => Some(*b),
            _ => None,
        }
    }

    /// The elements of an array.
    pub fn as_array(&self) -> (r: Option<&Vec<Json>>)
        ensures
            match r {
                Some(v) => self.items() == Some(v@),
                None => self.items() is None,
            },
    {
        match self {
            Json::Array(v) => Some(v),
            _ => None,
        }
    }
}

/// serde_json's dynamically typed JSON value, carried through the parse
/// wrapper below and never looked into by verified code.
#[verifier::external_type_specification]
#[verifier::external_body]
pub struct ExJsonValue(serde_json::Value);

/// What `serde_json::from_str::<serde_json::Value>` makes of a text: the
/// document it holds, or nothing where the text is not one JSON document.
pub uninterp spec fn parsed_json(text: Seq<char>) -> Option<Json>;

/// Parses `text` with `serde_json::from_str` into a `serde_json::Value` and
/// hands it over as a [`Json`]; a parse error gives `None`.  The contract
/// names the outcome as a function of the text alone and says nothing more of
/// the parser.
#[verifier::external_body]
pub(crate) fn parse_json(text: &str) -> (r: Option<Json>)
    ensures
        r == parsed_json(text@),
{
    serde_json::from_str::<Value>(text).ok().map(json_from_value)
}

/// A JSON document as read from a reply body, together with the compact
/// JSON text that shows it.
#[derive(Debug, PartialEq)]
pub struct Document {
    pub value: Json,
    pub text: String,
}

/// What `serde_json::from_slice::<serde_json::Value>` makes of some bytes,
/// together with what the `Display` of that value writes (its compact JSON
/// text); nothing where the bytes are not one JSON document.
pub uninterp spec fn parsed_document(bytes: Seq<u8>) -> Option<(Json, Seq<char>)>;

/// Parses `bytes` with `serde_json::from_slice` into a `serde_json::Value`,
/// renders that value with its `Display`, and hands both over; a parse error
/// gives `None`.  The contract names the outcome as a function of the bytes
/// alone and says nothing more of the parser or the rendering.
#[verifier::external_body]
pub(crate) fn parse_document(bytes: &[u8]) -> (r: Option<Document>)
    ensures
        match r {
            Some(d) => parsed_document(bytes@) == Some((d.value, d.text@)),
            None => parsed_document(bytes@) is None,
        },
{
    serde_json::from_slice::<Value>(bytes).ok().map(|v| {
        let text = v.to_string();
        Document { value: json_from_value(v), text }
    })
}

/// Moves a `serde_json::Value` into a [`Json`] one variant for one variant:
/// numbers keep their kind (`PosInt`, `NegInt`, or a float by its
/// `Display` text), objects keep the order in which their map yields members.
/// Used only by [`parse_json`] and [`parse_document`], whose contracts cover
/// the result.
#[verifier::external_body]
fn json_from_value(v: Value) -> Json {
    match v {
        Value::Null => Json::Null,
        Value::Bool(b) => Json::Bool(b),
        Value::Number(n) => Json::Number(match (n.as_u64(), n.as_i64()) {
            (Some(u), _) => JsonNumber::PosInt(u),
            (None, Some(i)) => JsonNumber::NegInt(i),
            (None, None) => JsonNumber::Float(n.to_string()),
        }),
        Value::String(s) => Json::Str(s),
        Value::Array(a) => Json::Array(a.into_iter().map(json_from_value).collect()),
        Value::Object(m) => Json::Object(m.into_iter().map(|(k, v)| (k, json_from_value(v))).collect()),
    }
}

} // verus!
