//! A JSON document as the rest of the crate reads it.
//!
//! Besides its structure, every node keeps the two renderings that depy puts
//! into its error messages: the compact JSON text of the node and its debug
//! rendering. Objects keep their members in the order in which they are
//! iterated.
use vstd::prelude::*;
use crate::text::same_text;

verus! {

/// The shape of a JSON node.
pub enum JsonData {
    Null,
    Bool(bool),
    /// A number; its digits are kept in the node's `text`.
    Number,
    Str(String),
    Array(Vec<JsonValue>),
    /// Members in iteration order, each a key and its value.
    Object(Vec<(String, JsonValue)>),
}

/// A JSON node together with its compact JSON text and its debug rendering.
pub struct JsonValue {
    pub data: JsonData,
    /// The node written as compact JSON, e.g. `["a","b"]`.
    pub text: String,
    /// The node written in debug form, e.g. `Array [String("a"), String("b")]`.
    pub debug: String,
}

/// The value stored under `key` among `entries`: the first member with that key.
pub open spec fn lookup(entries: Seq<(String, JsonValue)>, key: Seq<char>) -> Option<JsonValue>
    decreases entries.len(),
{
    if entries.len() == 0 {
        None
    } else if entries[0].0@ == key {
        Some(entries[0].1)
    } else {
        lookup(entries.drop_first(), key)
    }
}

/// The member `key` of `v` when `v` is an object that has it; `None` stands for
/// what indexing a JSON value yields otherwise, the JSON `null`.
pub open spec fn member(v: JsonValue, key: Seq<char>) -> Option<JsonValue> {
    match v.data {
        JsonData::Object(entries) => lookup(entries@, key),
        _ => None,
    }
}

/// An optional node that is absent or is `null`, as `is_null` on an indexed value.
pub open spec fn absent_or_null(v: Option<JsonValue>) -> bool {
    match v {
        None => true,
        Some(x) => x.data is Null,
    }
}

/// `member` chained through an optional node.
pub open spec fn member_of(v: Option<JsonValue>, key: Seq<char>) -> Option<JsonValue> {
    match v {
        None => None,
        Some(x) => member(x, key),
    }
}

/// The string held by `v`, if it is a JSON string.
pub open spec fn string_of_json(v: JsonValue) -> Option<Seq<char>> {
    match v.data {
        JsonData::Str(s) => Some(s@),
        _ => None,
    }
}

proof fn lemma_lookup_skip(entries: Seq<(String, JsonValue)>, key: Seq<char>, i: int)
    requires
        0 <= i < entries.len(),
    ensures
        entries.skip(i)[0] == entries[i],
        entries.skip(i).drop_first() == entries.skip(i + 1),
{
    assert(entries.skip(i).drop_first() =~= entries.skip(i + 1));
}

/// The value stored under `key` among `entries`, the first member with that key.
pub fn find_member<'a>(entries: &'a Vec<(String, JsonValue)>, key: &str) -> (res: Option<
    &'a JsonValue,
>)
    ensures
        match res {
            Some(r) => lookup(entries@, key@) == Some(*r),
            None => lookup(entries@, key@) is None,
        },
{
    let mut i: usize = 0;
    assert(entries@.skip(0) =~= entries@);
    while i < entries.len()
        invariant
            i <= entries@.len(),
            lookup(entries@.skip(i as int), key@) == lookup(entries@, key@),
        decreases entries.len() - i,
    {
        proof {
            lemma_lookup_skip(entries@, key@, i as int);
        }
        if same_text(entries[i].0.as_str(), key) {
            return Some(&entries[i].1);
        }
        i = i + 1;
    }
    assert(entries@.skip(i as int).len() == 0);
    None
}

impl JsonValue {
    /// The member `key` of this value when it is an object that has it.
    pub fn get_member<'a>(&'a self, key: &str) -> (res: Option<&'a JsonValue>)
        ensures
            match res {
                Some(r) => member(*self, key@) == Some(*r),
                None => member(*self, key@) is None,
            },
    {
        match &self.data {
            JsonData::Object(entries) => find_member(entries, key),
            _ => None,
        }
    }

    /// Whether this value is the JSON `null`.
    pub fn is_null(&self) -> (res: bool)
        ensures
            res == (self.data is Null),
    {
        match &self.data {
            JsonData::Null => true,
            _ => false,
        }
    }

    /// Whether this value is a JSON string.
    pub fn is_string(&self) -> (res: bool)
        ensures
            res == (self.data is Str),
    {
        match &self.data {
            JsonData::Str(_) => true,
            _ => false,
        }
    }

    /// Whether this value is a JSON array.
    pub fn is_array(&self) -> (res: bool)
        ensures
            res == (self.data is Array),
    {
        match &self.data {
            JsonData::Array(_) => true,
            _ => false,
        }
    }
}

/// Chained member access through an optional node.
pub fn member_in<'a>(v: Option<&'a JsonValue>, key: &str) -> (res: Option<&'a JsonValue>)
    ensures
        match (v, res) {
            (None, _) => res is None,
            (Some(x), Some(r)) => member(*x, key@) == Some(*r),
            (Some(x), None) => member(*x, key@) is None,
        },
{
    match v {
        None => None,
        Some(x) => x.get_member(key),
    }
}

/// Whether an optional node is absent or `null`.
pub fn is_absent_or_null(v: Option<&JsonValue>) -> (res: bool)
    ensures
        res == match v {
            None => true,
            Some(x) => x.data is Null,
        },
{
    match v {
        None => true,
        Some(x) => x.is_null(),
    }
}

/// A JSON document as `serde_json` parses it; the library reads it only through
/// `parse_json_text`.
#[verifier::external_type_specification]
#[verifier::external_body]
pub struct ExSerdeJsonValue(serde_json::Value);

/// What parsing `text` as JSON gives: the document, or the parser's message when
/// `text` is not JSON. It is what `serde_json::from_str` computes, with each node
/// carried over one for one (keeping its compact JSON text and its debug
/// rendering), and depends on the text alone.
pub uninterp spec fn parsed_json(text: Seq<char>) -> Result<JsonValue, Seq<char>>;

/// Carries a document parsed by `serde_json` over into the library's form, one
/// node for one: the node's kind, a string's characters, an array's items and an
/// object's members in iteration order, together with the node's compact JSON text
/// (its `Display`) and its debug rendering (its `Debug`).
#[verifier::external_body]
fn json_of_value(v: &serde_json::Value) -> JsonValue {
    let data = match v {
        serde_json::Value::Null => JsonData::Null,
        serde_json::Value::Bool(b) => JsonData::Bool(*b),
        serde_json::Value::Number(_) => JsonData::Number,
        serde_json::Value::String(s) => JsonData::Str(s.clone()),
        serde_json::Value::Array(a) => JsonData::Array(a.iter().map(json_of_value).collect()),
        serde_json::Value::Object(m) => JsonData::Object(m.iter().map(|(k, x)| (k.clone(), json_of_value(x))).collect()),
    };
    JsonValue { data, text: v.to_string(), debug: format!("{:?}", v) }
}

/// Parses `text` as JSON.
///
/// Calls `serde_json::from_str` into `serde_json::Value` and carries the document
/// over with `json_of_value`; a failure gives the parser's message (its `Display`).
/// The contract only ties the result to `parsed_json(text@)`; JSON's grammar and
/// `serde_json`'s messages are not restated here.
#[verifier::external_body]
pub(crate) fn parse_json_text(text: &str) -> (res: Result<JsonValue, String>)
    ensures
        match res {
            Ok(v) => parsed_json(text@) == Ok::<JsonValue, Seq<char>>(v),
            Err(m) => parsed_json(text@) == Err::<JsonValue, Seq<char>>(m@),
        },
{
    match serde_json::from_str::<serde_json::Value>(text) {
        Ok(v) => Ok(json_of_value(&v)),
        Err(e) => Err(e.to_string()),
    }
}

} // verus!
