//! A JSON document tree, the reading of fields from it, and the parse of
//! JSON text into it (done by `serde_json`).

use vstd::prelude::*;

verus! {

/// One member of a JSON object.
#[derive(Debug)]
pub struct JsonEntry {
    pub key: String,
    pub value: JsonValue,
}

/// A JSON value. An object keeps its members in key order with no key
/// twice, as `serde_json` does; a number keeps the text that `serde_json`
/// writes for it.
#[derive(Debug)]
pub enum JsonValue {
    Null,
    Bool(bool),
    Number(String),
    Str(String),
    Array(Vec<JsonValue>),
    Object(Vec<JsonEntry>),
}

/// The value of the first member named `key`.
pub open spec fn entries_get(entries: Seq<JsonEntry>, key: Seq<char>) -> Option<JsonValue>
    decreases entries.len(),
{
    if entries.len() == 0 {
        None
    } else if entries[0].key@ == key {
        Some(entries[0].value)
    } else {
        entries_get(entries.drop_first(), key)
    }
}

impl JsonValue {
    /// What `Value::get(key)` gives: the member `key` of an object, and
    /// nothing for any other value.
    pub open spec fn field(self, key: Seq<char>) -> Option<JsonValue> {
        match self {
            JsonValue::Object(entries) => entries_get(entries@, key),
            _ => None,
        }
    }

    /// The member `key` where there is one, else the value itself
    /// (`value.get(key).unwrap_or(&value)`).
    pub open spec fn field_or_self(self, key: Seq<char>) -> JsonValue {
        match self.field(key) {
            Some(v) => v,
            None => self,
        }
    }

    /// The text of a JSON string.
    pub open spec fn string_view(self) -> Option<Seq<char>> {
        match self {
            JsonValue::Str(s) => Some(s@),
            _ => None,
        }
    }

    /// The value of a JSON boolean.
    pub open spec fn bool_view(self) -> Option<bool> {
        match self {
            JsonValue::Bool(b) => Some(b),
            _ => None,
        }
    }

    /// The position of the member `key` of an object.
    fn get_index(&self, key: &str) -> (r: Option<usize>)
        ensures
            r matches Some(i) ==> (self matches JsonValue::Object(e) && i < e@.len()
                && self.field(key@) == Some(e@[i as int].value)),
            r is None ==> self.field(key@) is None,
    {
        match self {
            JsonValue::Object(entries) => {
                let n = entries.len();
                let mut i: usize = 0;
                assert(entries@.subrange(0, n as int) =~= entries@);
                while i < n
                    invariant
                        n == entries@.len(),
                        *self == JsonValue::Object(*entries),
                        i <= n,
                        entries_get(entries@, key@) == entries_get(entries@.subrange(i as int, n as int), key@),
                    decreases n - i,
                {
                    proof {
                        let rest = entries@.subrange(i as int, n as int);
                        assert(rest[0] == entries@[i as int]);
                        assert(rest.drop_first() =~= entries@.subrange(i + 1, n as int));
                    }
                    if crate::text::str_eq(entries[i].key.as_str(), key) {
                        assert(entries_get(entries@.subrange(i as int, n as int), key@) == Some(entries@[i as int].value));
                        return Some(i);
                    }
                    i = i + 1;
                }
                proof {
                    assert(entries@.subrange(n as int, n as int).len() == 0);
                }
                None
            },
            _ => None,
        }
    }

    /// The member `key` of an object.
    pub fn get(&self, key: &str) -> (r: Option<&JsonValue>)
        ensures
            r matches Some(v) ==> self.field(key@) == Some(*v),
            r is None ==> self.field(key@) is None,
    {
        let found = self.get_index(key);
        match self {
            JsonValue::Object(entries) => match found {
                Some(i) => Some(&entries[i].value),
                None => None,
            },
            _ => None,
        }
    }

    /// The member `key` of an object, taken out of it.
    pub fn take_field(self, key: &str) -> (r: Option<JsonValue>)
        ensures
            r == self.field(key@),
    {
        let found = self.get_index(key);
        match self {
            JsonValue::Object(entries) => match found {
                Some(i) => {
                    let mut entries = entries;
                    let entry = entries.remove(i);
                    Some(entry.value)
                },
                None => None,
            },
            _ => None,
        }
    }

    /// The text of a JSON string.
    pub fn as_str(&self) -> (r: Option<&str>)
        ensures
            r matches Some(s) ==> self.string_view() == Some(s@),
            r is None ==> self.string_view() is None,
    {
        match self {
            JsonValue::Str(s) => Some(s.as_str()),
            _ => None,
        }
    }

    /// The value of a JSON boolean.
    pub fn as_bool(&self) -> (r: Option<bool>)
        ensures
            r == self.bool_view(),
    {
        match self {
            JsonValue::Bool(b) => Some(*b),
            _ => None,
        }
    }

    /// The members of a JSON object.
    pub fn as_object(&self) -> (r: Option<&Vec<JsonEntry>>)
        ensures
            r matches Some(e) ==> *self == JsonValue::Object(*e),
            r is None ==> !(self is Object),
    {
        match self {
            JsonValue::Object(e) => Some(e),
            _ => None,
        }
    }

    /// The elements of a JSON array.
    pub fn as_array(&self) -> (r: Option<&Vec<JsonValue>>)
        ensures
            r matches Some(a) ==> *self == JsonValue::Array(*a),
            r is None ==> !(self is Array),
    {
        match self {
            JsonValue::Array(a) => Some(a),
            _ => None,
        }
    }
}

/// What `serde_json` makes of a value: the declaration that lets the parse
/// below name its result.
#[verifier::external_type_specification]
#[verifier::external_body]
pub struct ExSerdeJsonValue(serde_json::Value);

/// The tree that `serde_json::from_str` parses from `text`, or `None`
/// where the text is no JSON document.
pub uninterp spec fn json_parse_str(text: Seq<char>) -> Option<JsonValue>;

/// The tree that `serde_json::from_slice` parses from `bytes`, or `None`
/// where the bytes are no JSON document.
pub uninterp spec fn json_parse_bytes(bytes: Seq<u8>) -> Option<JsonValue>;

/// Moves a `serde_json::Value` into the library's tree, member for member;
/// the text of a number is what `serde_json` writes for it.
#[verifier::external_body]
fn tree_from_serde(v: serde_json::Value) -> JsonValue {
    match v {
        serde_json::Value::Null => JsonValue::Null,
        serde_json::Value::Bool(b) => JsonValue::Bool(b),
        serde_json::Value::Number(n) => JsonValue::Number(n.to_string()),
        serde_json::Value::String(s) => JsonValue::Str(s),
        serde_json::Value::Array(a) => JsonValue::Array(a.into_iter().map(tree_from_serde).collect()),
        serde_json::Value::Object(m) => JsonValue::Object(
            m.into_iter().map(|(key, value)| JsonEntry { key, value: tree_from_serde(value) }).collect(),
        ),
    }
}

/// Calls `serde_json::from_str::<serde_json::Value>`. The contract claims
/// only that the result is a function of the text (named
/// `json_parse_str`); which tree a text gives is `serde_json`'s grammar.
#[verifier::external_body]
pub fn parse_json_str(text: &str) -> (r: Option<JsonValue>)
    ensures
        r == json_parse_str(text@),
{
    serde_json::from_str::<serde_json::Value>(text).ok().map(tree_from_serde)
}

/// Calls `serde_json::from_slice::<serde_json::Value>`. The contract claims
/// only that the result is a function of the bytes (named
/// `json_parse_bytes`).
#[verifier::external_body]
pub fn parse_json_bytes(bytes: &[u8]) -> (r: Option<JsonValue>)
    ensures
        r == json_parse_bytes(bytes@),
{
    serde_json::from_slice::<serde_json::Value>(bytes).ok().map(tree_from_serde)
}

} // verus!
