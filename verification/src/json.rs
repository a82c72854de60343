//! A shallow model of JSON documents, read through `serde_json`.
//!
//! The library only ever reads a few members of a document (`error`,
//! `message`, `type`, `code`), so a document is held one level deep: an array
//! keeps the JSON text of each element, an object the key and JSON text of
//! each member. A nested value is read by parsing its text in turn.
use serde_json::Value;
use vstd::prelude::*;

use crate::text::chars_of;

verus! {

/// A JSON document, one level deep.
#[derive(Clone, Debug, PartialEq, Eq)]
pub enum JsonValue {
    /// `null`
    Null,
    /// `true` or `false`
    Bool(bool),
    /// A number, as serde_json writes it.
    Number(String),
    /// A string.
    Str(String),
    /// An array: the JSON text of each element, in order.
    Array(Vec<String>),
    /// An object: each member's key and the JSON text of its value.
    Object(Vec<(String, String)>),
}

/// The mathematical model of a [`JsonValue`].
pub enum JsonModel {
    Null,
    Bool(bool),
    Number(Seq<char>),
    Str(Seq<char>),
    Array(Seq<Seq<char>>),
    Object(Seq<(Seq<char>, Seq<char>)>),
}

/// The views of a sequence of texts.
pub open spec fn text_views(items: Seq<String>) -> Seq<Seq<char>> {
    items.map_values(|t: String| t@)
}

/// The views of a sequence of object members.
pub open spec fn member_views(members: Seq<(String, String)>) -> Seq<(Seq<char>, Seq<char>)> {
    members.map_values(|m: (String, String)| (m.0@, m.1@))
}

impl View for JsonValue {
    type V = JsonModel;

    open spec fn view(&self) -> JsonModel {
        match self {
            JsonValue::Null => JsonModel::Null,
            JsonValue::Bool(b) => JsonModel::Bool(*b),
            JsonValue::Number(n) => JsonModel::Number(n@),
            JsonValue::Str(s) => JsonModel::Str(s@),
            JsonValue::Array(items) => JsonModel::Array(text_views(items@)),
            JsonValue::Object(members) => JsonModel::Object(member_views(members@)),
        }
    }
}

/// The document that `serde_json::from_str::<serde_json::Value>` reads from
/// `text`, one level deep; `None` where serde_json rejects the text.
pub uninterp spec fn json_parse(text: Seq<char>) -> Option<JsonModel>;

/// Parses `text` with `serde_json::from_str::<serde_json::Value>` and keeps
/// the result one level deep: numbers and nested values are written back to
/// text with serde_json's own `Display`. The contract claims only that the
/// result is what `json_parse` names for `text`, and that `None` comes exactly
/// when serde_json rejects it.
#[verifier::external_body]
pub(crate) fn parse_json(text: &str) -> (r: Option<JsonValue>)
    ensures
        match r {
            Some(v) => json_parse(text@) == Some(v@),
            None => json_parse(text@) is None,
        },
{
    match serde_json::from_str::<Value>(text) {
        Err(_) => None,
        Ok(Value::Null) => Some(JsonValue::Null),
        Ok(Value::Bool(b)) => Some(JsonValue::Bool(b)),
        Ok(Value::Number(n)) => Some(JsonValue::Number(n.to_string())),
        Ok(Value::String(s)) => Some(JsonValue::Str(s)),
        Ok(Value::Array(a)) => Some(JsonValue::Array(a.iter().map(|x| x.to_string()).collect())),
        Ok(Value::Object(m)) => Some(
            JsonValue::Object(m.into_iter().map(|(k, x)| (k, x.to_string())).collect()),
        ),
    }
}

/// The JSON text of the first member of `members` whose key is `key`.
pub open spec fn find_member(members: Seq<(Seq<char>, Seq<char>)>, key: Seq<char>) -> Option<
    Seq<char>,
>
    decreases members.len(),
{
    if members.len() == 0 {
        None
    } else if members[0].0 == key {
        Some(members[0].1)
    } else {
        find_member(members.drop_first(), key)
    }
}

/// The JSON text of member `key` of `doc`; `None` when `doc` is not an object
/// or has no such member (as `serde_json::Value::get` with a string key).
pub open spec fn json_member(doc: JsonModel, key: Seq<char>) -> Option<Seq<char>> {
    match doc {
        JsonModel::Object(members) => find_member(members, key),
        _ => None,
    }
}

/// The document held by member `key` of `doc`.
pub open spec fn json_member_doc(doc: JsonModel, key: Seq<char>) -> Option<JsonModel> {
    match json_member(doc, key) {
        Some(t) => json_parse(t),
        None => None,
    }
}

/// The characters of a JSON string, if `doc` is one.
pub open spec fn json_str(doc: Option<JsonModel>) -> Option<Seq<char>> {
    match doc {
        Some(JsonModel::Str(s)) => Some(s),
        _ => None,
    }
}

/// Whether two string slices hold the same characters.
pub fn str_eq(a: &str, b: &str) -> (r: bool)
    ensures
        r == (a@ == b@),
{
    let x = chars_of(a);
    let y = chars_of(b);
    if x.len() != y.len() {
        return false;
    }
    let mut i: usize = 0;
    while i < x.len()
        invariant
            i <= x.len() == y.len(),
            x@ == a@,
            y@ == b@,
            forall|k: int| 0 <= k < i ==> x@[k] == y@[k],
        decreases x.len() - i,
    {
        if x[i] != y[i] {
            return false;
        }
        i = i + 1;
    }
    assert(x@ =~= y@);
    true
}

impl JsonValue {
    /// Reads a JSON document from text; `None` when the text is not JSON.
    pub fn parse(text: &str) -> (r: Option<JsonValue>)
        ensures
            match r {
                Some(v) => json_parse(text@) == Some(v@),
                None => json_parse(text@) is None,
            },
    {
        parse_json(text)
    }

    /// The JSON text of member `key`, when this is an object that has one.
    pub fn get(&self, key: &str) -> (r: Option<&String>)
        ensures
            match r {
                Some(t) => json_member(self@, key@) == Some(t@),
                None => json_member(self@, key@) is None,
            },
    {
        match self {
            JsonValue::Object(members) => {
                let ghost ms = member_views(members@);
                let mut i: usize = 0;
                assert(ms.skip(0) =~= ms);
                assert(self@ == JsonModel::Object(ms));
                while i < members.len()
                    invariant
                        i <= members.len(),
                        ms == member_views(members@),
                        self@ == JsonModel::Object(ms),
                        find_member(ms, key@) == find_member(ms.skip(i as int), key@),
                    decreases members.len() - i,
                {
                    assert(ms.skip(i as int)[0] == ms[i as int]);
                    assert(ms[i as int] == (members@[i as int].0@, members@[i as int].1@));
                    if str_eq(members[i].0.as_str(), key) {
                        assert(find_member(ms.skip(i as int), key@) == Some(ms[i as int].1));
                        return Some(&members[i].1);
                    }
                    assert(ms.skip(i as int).drop_first() =~= ms.skip(i + 1));
                    i = i + 1;
                }
                None
            },
            _ => None,
        }
    }

    /// The characters, when this is a JSON string.
    pub fn as_str(&self) -> (r: Option<&String>)
        ensures
            match r {
                Some(s) => json_str(Some(self@)) == Some(s@),
                None => json_str(Some(self@)) is None,
            },
    {
        match self {
            JsonValue::Str(s) => Some(s),
            _ => None,
        }
    }

    /// Whether this is an object with a member `key`.
    pub fn has_member(&self, key: &str) -> (r: bool)
        ensures
            r == (json_member(self@, key@) is Some),
    {
        self.get(key).is_some()
    }

    /// The document held by member `key`, parsed from its JSON text.
    pub fn member_doc(&self, key: &str) -> (r: Option<JsonValue>)
        ensures
            match r {
                Some(v) => json_member_doc(self@, key@) == Some(v@),
                None => json_member_doc(self@, key@) is None,
            },
    {
        match self.get(key) {
            Some(t) => parse_json(t.as_str()),
            None => None,
        }
    }

    /// The string held by member `key`, when it holds one.
    pub fn member_str(&self, key: &str) -> (r: Option<String>)
        ensures
            match r {
                Some(s) => json_str(json_member_doc(self@, key@)) == Some(s@),
                None => json_str(json_member_doc(self@, key@)) is None,
            },
    {
        match self.member_doc(key) {
            Some(JsonValue::Str(s)) => Some(s),
            _ => None,
        }
    }
}

} // verus!
