//! HTTP status lines and header validity, as the `http` crate decides them.

use vstd::prelude::*;
use crate::text::{decimal, u64_to_decimal};

verus! {

/// The reason phrase that the `http` crate knows for a status code.
pub uninterp spec fn status_reason_phrase(code: u16) -> Option<Seq<char>>;

/// Calls `http::StatusCode::from_u16(code)` and then `canonical_reason`.
/// Claims that the phrase is a function of the code alone (named
/// `status_reason_phrase`); the table itself is the `http` crate's.
#[verifier::external_body]
fn canonical_reason(code: u16) -> (r: Option<&'static str>)
    requires
        100 <= code <= 999,
    ensures
        r matches Some(p) ==> status_reason_phrase(code) == Some(p@),
        r is None ==> status_reason_phrase(code) is None,
{
    match http::StatusCode::from_u16(code) {
        Ok(status) => status.canonical_reason(),
        Err(_) => None,
    }
}

/// How a status is displayed: its code, a space and its reason phrase, or
/// `<unknown status code>` where the code has none.
pub open spec fn status_text(code: u16) -> Seq<char> {
    decimal(code as nat) + seq![' '] + match status_reason_phrase(code) {
        Some(p) => p,
        None => "<unknown status code>"@,
    }
}

/// A status in the 2xx range.
pub open spec fn is_success_status(code: u16) -> bool {
    200 <= code < 300
}

/// The display of a status, as `format!("{}", status)` writes it.
pub fn status_display(code: u16) -> (r: String)
    requires
        100 <= code <= 999,
    ensures
        r@ == status_text(code),
{
    let mut s = u64_to_decimal(code as u64);
    proof { reveal_strlit(" "); }
    s.append(" ");
    match canonical_reason(code) {
        Some(phrase) => s.append(phrase),
        None => s.append("<unknown status code>"),
    }
    s
}

/// Whether a status is in the 2xx range.
pub fn is_success(code: u16) -> (r: bool)
    ensures
        r == is_success_status(code),
{
    200 <= code && code < 300
}

/// A character that a header value may hold: any from space up, but DEL,
/// and the tab. (A character above 127 is written as bytes above 127,
/// which a header value may hold.)
pub open spec fn header_value_char(c: char) -> bool {
    (c as u32 >= 32 && c as u32 != 127) || c == '\t'
}

/// A text that `http::HeaderValue::from_str` accepts.
pub open spec fn valid_header_value(s: Seq<char>) -> bool {
    forall|i: int| 0 <= i < s.len() ==> header_value_char(#[trigger] s[i])
}

/// A character of an HTTP token: a letter, a digit or one of ``!#$%&'*+-.^_`|~``.
pub open spec fn token_char(c: char) -> bool {
    ('a' <= c <= 'z') || ('A' <= c <= 'Z') || ('0' <= c <= '9') || c == '!' || c == '#'
        || c == '$' || c == '%' || c == '&' || c == '\'' || c == '*' || c == '+' || c == '-'
        || c == '.' || c == '^' || c == '_' || c == '`' || c == '|' || c == '~'
}

/// A text that `http::HeaderName::from_bytes` accepts: one to 65535 token
/// characters.
pub open spec fn valid_header_name(s: Seq<char>) -> bool {
    1 <= s.len() <= 65535 && forall|i: int| 0 <= i < s.len() ==> token_char(#[trigger] s[i])
}

/// Calls `http::HeaderValue::from_str`: it accepts exactly the texts whose
/// bytes are all from 32 up but 127, or the tab.
#[verifier::external_body]
pub fn header_value_ok(s: &str) -> (r: bool)
    ensures
        r == valid_header_value(s@),
{
    http::HeaderValue::from_str(s).is_ok()
}

/// Calls `http::HeaderName::from_bytes`: it accepts exactly the names of
/// one to 65535 bytes that are all token characters (upper case is taken
/// as lower case).
#[verifier::external_body]
pub fn header_name_ok(s: &str) -> (r: bool)
    ensures
        r == valid_header_name(s@),
{
    http::HeaderName::from_bytes(s.as_bytes()).is_ok()
}

/// One header of a request, in the order the request sets them.
pub struct HeaderPair {
    pub name: String,
    pub value: String,
}

impl HeaderPair {
    /// The name and value texts.
    pub open spec fn view_pair(self) -> (Seq<char>, Seq<char>) {
        (self.name@, self.value@)
    }
}

/// Why a header could not be built.
pub enum HeaderError {
    InvalidName,
    InvalidValue,
}

impl HeaderError {
    /// The message of the `http` crate's error.
    pub fn message(&self) -> (r: &'static str)
        ensures
            self is InvalidName ==> r@ == "invalid HTTP header name"@,
            self is InvalidValue ==> r@ == "failed to parse header value"@,
    {
        match self {
            HeaderError::InvalidName => "invalid HTTP header name",
            HeaderError::InvalidValue => "failed to parse header value",
        }
    }
}

/// The texts of a list of headers.
pub open spec fn header_views(h: Seq<HeaderPair>) -> Seq<(Seq<char>, Seq<char>)> {
    h.map_values(|p: HeaderPair| p.view_pair())
}

} // verus!
