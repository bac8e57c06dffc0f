//! Reading identities, tokens and failure reasons out of the JSON bodies
//! that the New API account service answers with.

use vstd::prelude::*;
use crate::json::{JsonValue, json_parse_str, parse_json_str};

verus! {

/// The text of each field name.
pub open spec fn field_views(fields: Seq<&str>) -> Seq<Seq<char>> {
    fields.map_values(|f: &str| f@)
}

/// The text of an optional string.
pub open spec fn opt_view(o: Option<String>) -> Option<Seq<char>> {
    match o {
        Some(s) => Some(s@),
        None => None,
    }
}

/// A value read as text: a non-empty string, or a number as written.
pub open spec fn stringish(v: JsonValue) -> Option<Seq<char>> {
    match v {
        JsonValue::Str(s) => if s@.len() > 0 { Some(s@) } else { None },
        JsonValue::Number(n) => Some(n@),
        _ => None,
    }
}

/// The first of `fields` whose member in `v` reads as text.
pub open spec fn first_stringish(v: JsonValue, fields: Seq<Seq<char>>) -> Option<Seq<char>>
    decreases fields.len(),
{
    if fields.len() == 0 {
        None
    } else {
        match v.field(fields[0]) {
            Some(item) => match stringish(item) {
                Some(s) => Some(s),
                None => first_stringish(v, fields.drop_first()),
            },
            None => first_stringish(v, fields.drop_first()),
        }
    }
}

/// The first of `fields` whose member in `v` is a non-empty string.
pub open spec fn first_nonempty_string(v: JsonValue, fields: Seq<Seq<char>>) -> Option<Seq<char>>
    decreases fields.len(),
{
    if fields.len() == 0 {
        None
    } else {
        match v.field(fields[0]) {
            Some(JsonValue::Str(s)) => if s@.len() > 0 {
                Some(s@)
            } else {
                first_nonempty_string(v, fields.drop_first())
            },
            _ => first_nonempty_string(v, fields.drop_first()),
        }
    }
}

/// Names under which the service reports a user id.
pub open spec fn self_id_fields() -> Seq<Seq<char>> {
    seq!["id"@, "user_id"@]
}

/// Names under which the service reports a user name.
pub open spec fn self_username_fields() -> Seq<Seq<char>> {
    seq!["username"@, "name"@, "email"@]
}

/// Names under which the service reports an access token.
pub open spec fn token_fields() -> Seq<Seq<char>> {
    seq!["token"@, "access_token"@, "key"@]
}

/// Names under which the service reports why a request failed.
pub open spec fn reason_fields() -> Seq<Seq<char>> {
    seq!["message"@, "msg"@, "reason"@, "error"@]
}

/// The reason of a failure body: in the body itself, else in its `data`.
pub open spec fn reason_of(v: JsonValue) -> Option<Seq<char>> {
    match first_stringish(v, reason_fields()) {
        Some(s) => Some(s),
        None => match v.field("data"@) {
            Some(data) => first_stringish(data, reason_fields()),
            None => None,
        },
    }
}

/// A bearer token in a body: in its `data` where it has one, else in the body.
pub open spec fn bearer_token_of(v: JsonValue) -> Option<Seq<char>> {
    first_stringish(v.field_or_self("data"@), token_fields())
}

/// A user id in a body: in its `data` where it has one, else in the body.
pub open spec fn external_user_id_of(v: JsonValue) -> Option<Seq<char>> {
    first_stringish(v.field_or_self("data"@), self_id_fields())
}

/// The field names `"id"`, `"user_id"`.
pub fn self_id_field_names() -> (r: Vec<&'static str>)
    ensures
        field_views(r@) == self_id_fields(),
{
    let r = vec!["id", "user_id"];
    assert(field_views(r@) =~= self_id_fields());
    r
}

/// The field names `"username"`, `"name"`, `"email"`.
pub fn self_username_field_names() -> (r: Vec<&'static str>)
    ensures
        field_views(r@) == self_username_fields(),
{
    let r = vec!["username", "name", "email"];
    assert(field_views(r@) =~= self_username_fields());
    r
}

/// The field names `"token"`, `"access_token"`, `"key"`.
pub fn token_field_names() -> (r: Vec<&'static str>)
    ensures
        field_views(r@) == token_fields(),
{
    let r = vec!["token", "access_token", "key"];
    assert(field_views(r@) =~= token_fields());
    r
}

/// The field names `"message"`, `"msg"`, `"reason"`, `"error"`.
pub fn reason_field_names() -> (r: Vec<&'static str>)
    ensures
        field_views(r@) == reason_fields(),
{
    let r = vec!["message", "msg", "reason", "error"];
    assert(field_views(r@) =~= reason_fields());
    r
}

/// The first of `fields` whose member reads as text: a non-empty string
/// as it is, a number as written; other members are passed over.
pub fn extract_stringish_field(value: &JsonValue, fields: &[&str]) -> (r: Option<String>)
    ensures
        opt_view(r) == first_stringish(*value, field_views(fields@)),
{
    let n = fields.len();
    let ghost all = field_views(fields@);
    let mut i: usize = 0;
    assert(all.subrange(0, n as int) =~= all);
    while i < n
        invariant
            n == fields@.len(),
            all == field_views(fields@),
            i <= n,
            first_stringish(*value, all) == first_stringish(*value, all.subrange(i as int, n as int)),
        decreases n - i,
    {
        let ghost rest = all.subrange(i as int, n as int);
        assert(rest[0] == fields@[i as int]@);
        assert(rest.drop_first() =~= all.subrange(i + 1, n as int));
        match value.get(fields[i]) {
            Some(JsonValue::Str(text)) => {
                if text.unicode_len() > 0 {
                    return Some(text.clone());
                }
            },
            Some(JsonValue::Number(number)) => {
                return Some(number.clone());
            },
            _ => {},
        }
        i = i + 1;
    }
    assert(all.subrange(n as int, n as int).len() == 0);
    None
}

/// The first of `fields` whose member is a non-empty string.
pub fn extract_nonempty_string_field(value: &JsonValue, fields: &[&str]) -> (r: Option<String>)
    ensures
        opt_view(r) == first_nonempty_string(*value, field_views(fields@)),
{
    let n = fields.len();
    let ghost all = field_views(fields@);
    let mut i: usize = 0;
    assert(all.subrange(0, n as int) =~= all);
    while i < n
        invariant
            n == fields@.len(),
            all == field_views(fields@),
            i <= n,
            first_nonempty_string(*value, all) == first_nonempty_string(*value, all.subrange(i as int, n as int)),
        decreases n - i,
    {
        let ghost rest = all.subrange(i as int, n as int);
        assert(rest[0] == fields@[i as int]@);
        assert(rest.drop_first() =~= all.subrange(i + 1, n as int));
        match value.get(fields[i]) {
            Some(JsonValue::Str(text)) => {
                if text.unicode_len() > 0 {
                    return Some(text.clone());
                }
            },
            _ => {},
        }
        i = i + 1;
    }
    assert(all.subrange(n as int, n as int).len() == 0);
    None
}

/// The reason a failure body gives: a `message`, `msg`, `reason` or
/// `error` member of the body, else of its `data` member.
pub fn extract_reason_value(value: &JsonValue) -> (r: Option<String>)
    ensures
        opt_view(r) == reason_of(*value),
{
    let fields = reason_field_names();
    match extract_stringish_field(value, fields.as_slice()) {
        Some(reason) => Some(reason),
        None => match value.get("data") {
            Some(data) => extract_stringish_field(data, fields.as_slice()),
            None => None,
        },
    }
}

/// The reason a failure body gives, where the text parses as JSON.
pub fn extract_reason(text: &str) -> (r: Option<String>)
    ensures
        opt_view(r) == (match json_parse_str(text@) {
            Some(v) => reason_of(v),
            None => None,
        }),
{
    match parse_json_str(text) {
        Some(value) => extract_reason_value(&value),
        None => None,
    }
}

/// The bearer token a parsed login or registration body carries.
pub fn bearer_token_from_value(value: &JsonValue) -> (r: Option<String>)
    ensures
        opt_view(r) == bearer_token_of(*value),
{
    let fields = token_field_names();
    match value.get("data") {
        Some(data) => extract_stringish_field(data, fields.as_slice()),
        None => extract_stringish_field(value, fields.as_slice()),
    }
}

/// The bearer token a login or registration body carries.
pub fn extract_bearer_token(text: &str) -> (r: Option<String>)
    ensures
        opt_view(r) == (match json_parse_str(text@) {
            Some(v) => bearer_token_of(v),
            None => None,
        }),
{
    match parse_json_str(text) {
        Some(value) => bearer_token_from_value(&value),
        None => None,
    }
}

/// The user id a parsed login or registration body carries.
pub fn external_user_id_from_value(value: &JsonValue) -> (r: Option<String>)
    ensures
        opt_view(r) == external_user_id_of(*value),
{
    let fields = self_id_field_names();
    match value.get("data") {
        Some(data) => extract_stringish_field(data, fields.as_slice()),
        None => extract_stringish_field(value, fields.as_slice()),
    }
}

/// The user id a login or registration body carries.
pub fn extract_external_user_id(text: &str) -> (r: Option<String>)
    ensures
        opt_view(r) == (match json_parse_str(text@) {
            Some(v) => external_user_id_of(v),
            None => None,
        }),
{
    match parse_json_str(text) {
        Some(value) => external_user_id_from_value(&value),
        None => None,
    }
}

/// A user id is read whether the service sends it as a number or as a
/// non-empty string.
pub proof fn law_numeric_and_string_ids_are_read(v: JsonValue, id: JsonValue)
    requires
        v.field("data"@) is None,
        v.field("id"@) == Some(id),
        id is Number || (id matches JsonValue::Str(s) && s@.len() > 0),
    ensures
        external_user_id_of(v) == stringish(id),
        stringish(id) is Some,
{
    assert(self_id_fields()[0] == "id"@);
}

} // verus!
