//! The client side of the New API account service: where requests go,
//! what they carry, and what the answers are read as. The requests
//! themselves are sent by the caller.

use vstd::prelude::*;
use crate::fields::{
    bearer_token_from_value, external_user_id_from_value, extract_reason_value,
    extract_stringish_field, self_id_field_names, self_username_field_names, opt_view,
    first_stringish, reason_of, bearer_token_of, external_user_id_of, self_id_fields,
    self_username_fields, stringish,
};
use crate::json::{JsonEntry, JsonValue, parse_json_bytes, parse_json_str, json_parse_bytes, json_parse_str};
use crate::text::{decimal, has_prefix};
use crate::wire::{
    HeaderError, HeaderPair, header_name_ok, header_value_ok, header_views, is_success,
    is_success_status, status_display, status_text, valid_header_name, valid_header_value,
};

verus! {

/// Who a user is at the account service.
#[derive(Debug, Clone)]
pub struct ExternalIdentity {
    pub external_user_id: String,
    pub username: String,
}

/// What a login or registration answer gives for the identity lookup that follows.
#[derive(Debug, Clone)]
pub struct UpstreamAuth {
    pub bearer_token: Option<String>,
    pub external_user_id: Option<String>,
    pub has_session_cookie: bool,
}

/// Where the account service is and how to present a user to it.
#[derive(Debug, Clone)]
pub struct NewApiAuthClient {
    pub base_url: String,
    pub user_header: String,
    pub service_bearer: Option<String>,
}

/// `s` without the `/` characters at its end.
pub open spec fn trim_trailing_slashes(s: Seq<char>) -> Seq<char>
    decreases s.len(),
{
    if s.len() > 0 && s.last() == '/' {
        trim_trailing_slashes(s.drop_last())
    } else {
        s
    }
}

/// The text of an optional text, else `fallback`.
pub open spec fn text_or(o: Option<Seq<char>>, fallback: Seq<char>) -> Seq<char> {
    match o {
        Some(t) => t,
        None => fallback,
    }
}

/// The reason a parsed body gives, where there is a body.
pub open spec fn reason_in(body: Option<JsonValue>) -> Option<Seq<char>> {
    match body {
        Some(v) => reason_of(v),
        None => None,
    }
}

/// `s` without the `/` characters at its end (`trim_end_matches('/')`).
pub fn trim_end_slashes(s: &str) -> (r: &str)
    ensures
        r@ == trim_trailing_slashes(s@),
{
    let mut end = s.unicode_len();
    assert(s@.subrange(0, end as int) =~= s@);
    while end > 0 && s.get_char(end - 1) == '/'
        invariant
            end <= s@.len(),
            trim_trailing_slashes(s@) == trim_trailing_slashes(s@.subrange(0, end as int)),
        decreases end,
    {
        assert(s@.subrange(0, end as int).drop_last() =~= s@.subrange(0, end - 1));
        end = end - 1;
    }
    s.substring_char(0, end)
}

/// `a` followed by `b`.
pub fn concat(a: &str, b: &str) -> (r: String)
    ensures
        r@ == a@ + b@,
{
    let mut s = String::from_str(a);
    s.append(b);
    s
}

/// `a`, `b` and `c` one after the other.
pub fn concat3(a: &str, b: &str, c: &str) -> (r: String)
    ensures
        r@ == a@ + b@ + c@,
{
    let mut s = String::from_str(a);
    s.append(b);
    s.append(c);
    s
}

/// The reason of a failure body, else `fallback`.
fn reason_or(value: &JsonValue, fallback: String) -> (r: String)
    ensures
        r@ == text_or(reason_of(*value), fallback@),
{
    match extract_reason_value(value) {
        Some(reason) => reason,
        None => fallback,
    }
}

/// `"New API <what> failed with status <status>"`.
pub open spec fn status_failure(what: Seq<char>, status: u16) -> Seq<char> {
    "New API "@ + what + " failed with status "@ + status_text(status)
}

/// `New API <what> failed with status <status>`.
pub fn status_failure_message(what: &str, status: u16) -> (r: String)
    requires
        100 <= status <= 999,
    ensures
        r@ == status_failure(what@, status),
{
    let st = status_display(status);
    let mut s = String::from_str("New API ");
    s.append(what);
    s.append(" failed with status ");
    s.append(st.as_str());
    s
}

impl NewApiAuthClient {
    /// The client configured by `NEWAPI_AUTH_BASE`, `NEWAPI_AUTH_USER_HEADER`
    /// and `NEWAPI_AUTH_BEARER`: none without a base; the base without
    /// trailing `/`; the user header `New-Api-User` unless given.
    pub fn from_env_values(base: Option<String>, user_header: Option<String>, bearer: Option<String>) -> (r: Option<Self>)
        ensures
            base is None ==> r is None,
            base matches Some(b) ==> (r matches Some(c) && c.base_url@ == trim_trailing_slashes(b@)
                && c.user_header@ == (match user_header {
                    Some(h) => h@,
                    None => "New-Api-User"@,
                })
                && c.service_bearer == bearer),
    {
        match base {
            None => None,
            Some(b) => {
                let base_url = String::from_str(trim_end_slashes(b.as_str()));
                let user_header = match user_header {
                    Some(h) => h,
                    None => String::from_str("New-Api-User"),
                };
                Some(NewApiAuthClient { base_url, user_header, service_bearer: bearer })
            },
        }
    }

    /// Whether the service is in use; a configured client always is.
    pub fn is_enabled(&self) -> (r: bool)
        ensures
            r,
    {
        true
    }

    /// `<base>/api/user/<path>`, where logins and registrations go.
    pub fn auth_url(&self, path: &str) -> (r: String)
        ensures
            r@ == self.base_url@ + "/api/user/"@ + path@,
    {
        concat3(self.base_url.as_str(), "/api/user/", path)
    }

    /// `<base>/api/user/self`, where the identity is looked up.
    pub fn self_url(&self) -> (r: String)
        ensures
            r@ == self.base_url@ + "/api/user/self"@,
    {
        concat(self.base_url.as_str(), "/api/user/self")
    }

    /// `<base>/api/token/?p=1&page_size=100`, the first page of a user's tokens.
    pub fn token_list_url(&self) -> (r: String)
        ensures
            r@ == self.base_url@ + "/api/token/?p=1&page_size=100"@,
    {
        concat(self.base_url.as_str(), "/api/token/?p=1&page_size=100")
    }

    /// `<base>/api/token/<id>/key`, where a token's key is read.
    pub fn token_key_url(&self, token_id: &str) -> (r: String)
        ensures
            r@ == self.base_url@ + "/api/token/"@ + token_id@ + "/key"@,
    {
        let mut s = concat3(self.base_url.as_str(), "/api/token/", token_id);
        s.append("/key");
        s
    }

    /// `<base>/api/token/`, where a token is created.
    pub fn token_create_url(&self) -> (r: String)
        ensures
            r@ == self.base_url@ + "/api/token/"@,
    {
        concat(self.base_url.as_str(), "/api/token/")
    }

    /// `<base>/api/verification`, where a verification mail is asked for.
    pub fn verification_url(&self) -> (r: String)
        ensures
            r@ == self.base_url@ + "/api/verification"@,
    {
        concat(self.base_url.as_str(), "/api/verification")
    }

    /// The headers of the identity lookup, in order: the service bearer
    /// where configured, the user header with the user id where the login
    /// answer gave one, and `Bearer <token>` where it gave a token.
    pub fn self_lookup_headers(&self, auth: &UpstreamAuth) -> (r: Vec<HeaderPair>)
        ensures
            header_views(r@) == self.self_lookup_header_views(*auth),
    {
        let mut headers: Vec<HeaderPair> = Vec::new();
        let ghost mut expected: Seq<(Seq<char>, Seq<char>)> = seq![];
        if let Some(bearer) = &self.service_bearer {
            headers.push(HeaderPair { name: String::from_str("X-NewApi-Service-Bearer"), value: bearer.clone() });
            proof { expected = expected.push(("X-NewApi-Service-Bearer"@, bearer@)); }
        }
        if let Some(id) = &auth.external_user_id {
            headers.push(HeaderPair { name: self.user_header.clone(), value: id.clone() });
            proof { expected = expected.push((self.user_header@, id@)); }
        }
        if let Some(token) = &auth.bearer_token {
            headers.push(HeaderPair { name: String::from_str("authorization"), value: concat("Bearer ", token.as_str()) });
            proof { expected = expected.push(("authorization"@, "Bearer "@ + token@)); }
        }
        assert(header_views(headers@) =~= expected);
        headers
    }

    /// The headers of the identity lookup, as texts.
    pub open spec fn self_lookup_header_views(self, auth: UpstreamAuth) -> Seq<(Seq<char>, Seq<char>)> {
        (match self.service_bearer {
            Some(b) => seq![("X-NewApi-Service-Bearer"@, b@)],
            None => seq![],
        }) + (match auth.external_user_id {
            Some(id) => seq![(self.user_header@, id@)],
            None => seq![],
        }) + (match auth.bearer_token {
            Some(t) => seq![("authorization"@, "Bearer "@ + t@)],
            None => seq![],
        })
    }

    /// The headers of the token requests, as texts.
    pub open spec fn token_header_views(self, user_id: Seq<char>, accept: Seq<char>) -> Seq<(Seq<char>, Seq<char>)> {
        seq![
            ("accept"@, accept),
            (self.user_header@, user_id),
            ("referer"@, self.base_url@ + "/console/token"@),
            ("origin"@, self.base_url@),
            ("user-agent"@, "Mozilla/5.0"@),
        ]
    }

    /// The first header of the token requests that the `http` crate refuses,
    /// checked in the order the request builds them.
    pub open spec fn token_header_error(self, user_id: Seq<char>, accept: Seq<char>) -> Option<HeaderError> {
        if !valid_header_value(accept) {
            Some(HeaderError::InvalidValue)
        } else if !valid_header_name(self.user_header@) {
            Some(HeaderError::InvalidName)
        } else if !valid_header_value(user_id) {
            Some(HeaderError::InvalidValue)
        } else if !valid_header_value(self.base_url@ + "/console/token"@) {
            Some(HeaderError::InvalidValue)
        } else if !valid_header_value(self.base_url@) {
            Some(HeaderError::InvalidValue)
        } else {
            None
        }
    }

    /// The headers of the token requests: `accept`, the user header with the
    /// user id, the console page as referer, the base as origin, and the
    /// browser user agent; refused as the `http` crate refuses them.
    pub fn token_headers(&self, user_id: &str, accept: &str) -> (r: Result<Vec<HeaderPair>, HeaderError>)
        ensures
            self.token_header_error(user_id@, accept@) matches Some(e) ==> r == Err::<Vec<HeaderPair>, HeaderError>(e),
            self.token_header_error(user_id@, accept@) is None ==> (r matches Ok(h)
                && header_views(h@) == self.token_header_views(user_id@, accept@)),
    {
        if !header_value_ok(accept) {
            return Err(HeaderError::InvalidValue);
        }
        if !header_name_ok(self.user_header.as_str()) {
            return Err(HeaderError::InvalidName);
        }
        if !header_value_ok(user_id) {
            return Err(HeaderError::InvalidValue);
        }
        let referer = concat(self.base_url.as_str(), "/console/token");
        if !header_value_ok(referer.as_str()) {
            return Err(HeaderError::InvalidValue);
        }
        if !header_value_ok(self.base_url.as_str()) {
            return Err(HeaderError::InvalidValue);
        }
        let mut headers: Vec<HeaderPair> = Vec::new();
        headers.push(HeaderPair { name: String::from_str("accept"), value: String::from_str(accept) });
        headers.push(HeaderPair { name: self.user_header.clone(), value: String::from_str(user_id) });
        headers.push(HeaderPair { name: String::from_str("referer"), value: referer });
        headers.push(HeaderPair { name: String::from_str("origin"), value: self.base_url.clone() });
        headers.push(HeaderPair { name: String::from_str("user-agent"), value: String::from_str("Mozilla/5.0") });
        assert(header_views(headers@) =~= self.token_header_views(user_id@, accept@));
        Ok(headers)
    }

    /// The headers of the token creation: those of the token requests that
    /// accept JSON or text, and the JSON content type.
    pub fn create_headers(&self, user_id: &str) -> (r: Result<Vec<HeaderPair>, HeaderError>)
        ensures
            self.token_header_error(user_id@, "application/json, text/plain, */*"@) matches Some(e)
                ==> r == Err::<Vec<HeaderPair>, HeaderError>(e),
            self.token_header_error(user_id@, "application/json, text/plain, */*"@) is None ==> (r matches Ok(h)
                && header_views(h@) == self.token_header_views(user_id@, "application/json, text/plain, */*"@)
                    .push(("content-type"@, "application/json"@))),
    {
        match self.token_headers(user_id, "application/json, text/plain, */*") {
            Err(e) => Err(e),
            Ok(headers) => {
                let mut headers = headers;
                let ghost before = headers@;
                headers.push(HeaderPair { name: String::from_str("content-type"), value: String::from_str("application/json") });
                assert(header_views(headers@) =~= header_views(before).push(("content-type"@, "application/json"@)));
                Ok(headers)
            },
        }
    }
}

/// A member of a request body.
fn member(key: &str, value: JsonValue) -> (r: JsonEntry)
    ensures
        r.key@ == key@,
        r.value == value,
{
    JsonEntry { key: String::from_str(key), value }
}

/// A JSON string, or `null` where there is no text.
fn string_or_null(s: Option<&str>) -> (r: JsonValue)
    ensures
        is_text_or_null(r, s),
{
    match s {
        Some(t) => JsonValue::Str(String::from_str(t)),
        None => JsonValue::Null,
    }
}

/// The body of a login: `{"username": .., "password": ..}`.
pub fn login_body(username: &str, password: &str) -> (r: JsonValue)
    ensures
        r.field("username"@) matches Some(JsonValue::Str(u)) && u@ == username@,
        r.field("password"@) matches Some(JsonValue::Str(p)) && p@ == password@,
        r matches JsonValue::Object(e) && e@.len() == 2,
{
    let mut entries: Vec<JsonEntry> = Vec::new();
    entries.push(member("username", JsonValue::Str(String::from_str(username))));
    entries.push(member("password", JsonValue::Str(String::from_str(password))));
    let r = JsonValue::Object(entries);
    proof {
        reveal_strlit("username");
        reveal_strlit("password");
        reveal_with_fuel(crate::json::entries_get, 3);
        assert("username"@[0] != "password"@[0]);
        assert(entries@.drop_first()[0] == entries@[1]);
    }
    r
}

/// The body of a registration: the user name and password, and the email,
/// verification code and affiliate code, each `null` where not given.
pub fn register_body(
    username: &str,
    password: &str,
    email: Option<&str>,
    verification_code: Option<&str>,
    aff_code: Option<&str>,
) -> (r: JsonValue)
    ensures
        r.field("username"@) matches Some(JsonValue::Str(u)) && u@ == username@,
        r.field("password"@) matches Some(JsonValue::Str(p)) && p@ == password@,
        r.field("email"@) matches Some(v) && is_text_or_null(v, email),
        r.field("verification_code"@) matches Some(v) && is_text_or_null(v, verification_code),
        r.field("aff_code"@) matches Some(v) && is_text_or_null(v, aff_code),
        r matches JsonValue::Object(e) && e@.len() == 5,
{
    let mut entries: Vec<JsonEntry> = Vec::new();
    entries.push(member("username", JsonValue::Str(String::from_str(username))));
    entries.push(member("password", JsonValue::Str(String::from_str(password))));
    entries.push(member("email", string_or_null(email)));
    entries.push(member("verification_code", string_or_null(verification_code)));
    entries.push(member("aff_code", string_or_null(aff_code)));
    let r = JsonValue::Object(entries);
    proof {
        reveal_strlit("username");
        reveal_strlit("password");
        reveal_strlit("email");
        reveal_strlit("verification_code");
        reveal_strlit("aff_code");
        reveal_with_fuel(crate::json::entries_get, 6);
        assert("username"@[0] != "password"@[0]);
        assert("username"@[0] != "email"@[0]);
        assert("username"@[0] != "verification_code"@[0]);
        assert("username"@[0] != "aff_code"@[0]);
        assert("password"@[0] != "email"@[0]);
        assert("password"@[0] != "verification_code"@[0]);
        assert("password"@[0] != "aff_code"@[0]);
        assert("email"@[0] != "verification_code"@[0]);
        assert("email"@[0] != "aff_code"@[0]);
        assert("verification_code"@[0] != "aff_code"@[0]);
        let e = entries@;
        assert(e.drop_first()[0] == e[1]);
        assert(e.drop_first().drop_first()[0] == e[2]);
        assert(e.drop_first().drop_first().drop_first()[0] == e[3]);
        assert(e.drop_first().drop_first().drop_first().drop_first()[0] == e[4]);
    }
    r
}

/// `v` is the JSON string of `s`, or `null` where there is none.
pub open spec fn is_text_or_null(v: JsonValue, s: Option<&str>) -> bool {
    match s {
        Some(t) => v matches JsonValue::Str(x) && x@ == t@,
        None => v is Null,
    }
}

/// The bearer token a parsed body carries, where there is a body.
pub open spec fn bearer_in(body: Option<JsonValue>) -> Option<Seq<char>> {
    match body {
        Some(v) => bearer_token_of(v),
        None => None,
    }
}

/// The user id a parsed body carries, where there is a body.
pub open spec fn user_id_in(body: Option<JsonValue>) -> Option<Seq<char>> {
    match body {
        Some(v) => external_user_id_of(v),
        None => None,
    }
}

/// Reads the answer to a login or registration (`path` is `login` or
/// `register`) from its status and parsed body: a failure gives the
/// body's reason, else `New API <path> failed with status <status>`; a
/// success gives the bearer token and user id that the body carries.
pub fn auth_outcome_from_body(path: &str, status: u16, body: Option<JsonValue>, has_session_cookie: bool) -> (r: Result<UpstreamAuth, String>)
    requires
        100 <= status <= 999,
    ensures
        !is_success_status(status) ==> (r matches Err(m)
            && m@ == text_or(reason_in(body), status_failure(path@, status))),
        is_success_status(status) ==> (r matches Ok(a)
            && opt_view(a.bearer_token) == bearer_in(body)
            && opt_view(a.external_user_id) == user_id_in(body)
            && a.has_session_cookie == has_session_cookie),
{
    if !is_success(status) {
        let reason = match &body {
            Some(value) => extract_reason_value(value),
            None => None,
        };
        return Err(match reason {
            Some(reason) => reason,
            None => status_failure_message(path, status),
        });
    }
    match &body {
        Some(value) => Ok(UpstreamAuth {
            bearer_token: bearer_token_from_value(value),
            external_user_id: external_user_id_from_value(value),
            has_session_cookie,
        }),
        None => Ok(UpstreamAuth { bearer_token: None, external_user_id: None, has_session_cookie }),
    }
}

/// Reads the answer to a login or registration from its status and text.
pub fn authenticate_outcome(path: &str, status: u16, text: &str, has_session_cookie: bool) -> (r: Result<UpstreamAuth, String>)
    requires
        100 <= status <= 999,
    ensures
        !is_success_status(status) ==> (r matches Err(m)
            && m@ == text_or(reason_in(json_parse_str(text@)), status_failure(path@, status))),
        is_success_status(status) ==> (r matches Ok(a)
            && opt_view(a.bearer_token) == bearer_in(json_parse_str(text@))
            && opt_view(a.external_user_id) == user_id_in(json_parse_str(text@))
            && a.has_session_cookie == has_session_cookie),
{
    auth_outcome_from_body(path, status, parse_json_str(text), has_session_cookie)
}

/// The identity lookup's answer, read from its status and parsed body.
pub open spec fn identity_outcome(status: u16, value: JsonValue) -> Result<(Seq<char>, Seq<char>), Seq<char>> {
    if !is_success_status(status) {
        Err(text_or(reason_of(value), status_failure("self lookup"@, status)))
    } else {
        let object = value.field_or_self("data"@);
        match first_stringish(object, self_id_fields()) {
            None => Err("New API self response missing id"@),
            Some(id) => match first_stringish(object, self_username_fields()) {
                None => Err("New API self response missing username"@),
                Some(name) => Ok((id, name)),
            },
        }
    }
}

/// The texts of an identity result.
pub open spec fn identity_result_view(r: Result<ExternalIdentity, String>) -> Result<(Seq<char>, Seq<char>), Seq<char>> {
    match r {
        Ok(i) => Ok((i.external_user_id@, i.username@)),
        Err(m) => Err(m@),
    }
}

/// Reads the identity lookup's answer: a failure gives the body's reason,
/// else the status; a success gives the user id and name of the body's
/// `data` (or of the body), each a non-empty string or a number.
pub fn identity_from_self_value(status: u16, value: &JsonValue) -> (r: Result<ExternalIdentity, String>)
    requires
        100 <= status <= 999,
    ensures
        identity_result_view(r) == identity_outcome(status, *value),
{
    if !is_success(status) {
        return Err(reason_or(value, status_failure_message("self lookup", status)));
    }
    let object = match value.get("data") {
        Some(data) => data,
        None => value,
    };
    let id_fields = self_id_field_names();
    let name_fields = self_username_field_names();
    match extract_stringish_field(object, id_fields.as_slice()) {
        None => Err(String::from_str("New API self response missing id")),
        Some(external_user_id) => match extract_stringish_field(object, name_fields.as_slice()) {
            None => Err(String::from_str("New API self response missing username")),
            Some(username) => Ok(ExternalIdentity { external_user_id, username }),
        },
    }
}

/// Reads the identity lookup's answer from its status and bytes; bytes
/// that are no JSON count as `null`.
pub fn identity_from_self_response(status: u16, body: &[u8]) -> (r: Result<ExternalIdentity, String>)
    requires
        100 <= status <= 999,
    ensures
        identity_result_view(r) == identity_outcome(status, match json_parse_bytes(body@) {
            Some(v) => v,
            None => JsonValue::Null,
        }),
{
    let value = match parse_json_bytes(body) {
        Some(v) => v,
        None => JsonValue::Null,
    };
    identity_from_self_value(status, &value)
}

/// The items of a token list body: `data.items`, where it is an array.
pub open spec fn token_items_of(value: JsonValue) -> Option<Seq<JsonValue>> {
    match value.field("data"@) {
        Some(data) => match data.field("items"@) {
            Some(JsonValue::Array(items)) => Some(items@),
            _ => None,
        },
        None => None,
    }
}

/// The key of a key lookup body: `data.key`, where it is a non-empty string.
pub open spec fn real_key_of(value: JsonValue) -> Option<Seq<char>> {
    match value.field("data"@) {
        Some(data) => match data.field("key"@) {
            Some(JsonValue::Str(k)) => if k@.len() > 0 { Some(k@) } else { None },
            _ => None,
        },
        None => None,
    }
}

/// The key lookup's answer: a failure gives the body's reason, else the
/// status; a success gives `sk-` and the key.
pub open spec fn key_outcome(status: u16, value: JsonValue) -> Result<Seq<char>, Seq<char>> {
    if !is_success_status(status) {
        Err(text_or(reason_of(value), status_failure("token key lookup"@, status)))
    } else {
        match real_key_of(value) {
            Some(k) => Ok("sk-"@ + k),
            None => Err("New API token key response missing key"@),
        }
    }
}

/// The texts of a text result.
pub open spec fn text_result_view(r: Result<String, String>) -> Result<Seq<char>, Seq<char>> {
    match r {
        Ok(t) => Ok(t@),
        Err(m) => Err(m@),
    }
}

/// Reads a key lookup's answer from its status and parsed body.
pub fn key_from_key_value(status: u16, value: &JsonValue) -> (r: Result<String, String>)
    requires
        100 <= status <= 999,
    ensures
        text_result_view(r) == key_outcome(status, *value),
{
    if !is_success(status) {
        return Err(reason_or(value, status_failure_message("token key lookup", status)));
    }
    let key = match value.get("data") {
        Some(data) => match data.get("key") {
            Some(JsonValue::Str(k)) => if k.unicode_len() > 0 { Some(k) } else { None },
            _ => None,
        },
        None => None,
    };
    match key {
        Some(k) => Ok(concat("sk-", k.as_str())),
        None => Err(String::from_str("New API token key response missing key")),
    }
}

/// The token creation's answer: a failure gives the body's reason, else
/// the status; a success gives the body's `success`, false where absent.
pub open spec fn creation_outcome(status: u16, body: Option<JsonValue>) -> Result<bool, Seq<char>> {
    match body {
        None => Err("failed to decode New API token creation response"@),
        Some(value) => if !is_success_status(status) {
            Err(text_or(reason_of(value), status_failure("token creation"@, status)))
        } else {
            match value.field("success"@) {
                Some(JsonValue::Bool(b)) => Ok(b),
                _ => Ok(false),
            }
        },
    }
}

/// Reads the token creation's answer from its status and bytes.
pub fn key_created(status: u16, body: &[u8]) -> (r: Result<bool, String>)
    requires
        100 <= status <= 999,
    ensures
        (match r {
            Ok(b) => Ok::<bool, Seq<char>>(b),
            Err(m) => Err(m@),
        }) == creation_outcome(status, json_parse_bytes(body@)),
{
    let value = match parse_json_bytes(body) {
        Some(v) => v,
        None => return Err(String::from_str("failed to decode New API token creation response")),
    };
    if !is_success(status) {
        return Err(reason_or(&value, status_failure_message("token creation", status)));
    }
    match value.get("success") {
        Some(JsonValue::Bool(b)) => Ok(*b),
        _ => Ok(false),
    }
}

/// The reading of a user's API keys: the token list's items, one key
/// lookup per item in their order, each key kept as `sk-<key>`.
pub struct TokenKeyListing {
    items: Vec<JsonValue>,
    keys: Vec<String>,
}

/// The id of a token list item: its `id`, a non-empty string or a number.
pub open spec fn token_item_id(item: JsonValue) -> Option<Seq<char>> {
    first_stringish(item, seq!["id"@])
}

impl TokenKeyListing {
    /// The items of the token list.
    pub closed spec fn items(self) -> Seq<JsonValue> {
        self.items@
    }

    /// The keys read so far, one per item from the first.
    pub closed spec fn keys(self) -> Seq<Seq<char>> {
        self.keys@.map_values(|k: String| k@)
    }

    /// No more keys than items, each `sk-` and a non-empty key.
    pub closed spec fn wf(self) -> bool {
        &&& self.keys@.len() <= self.items@.len()
        &&& forall|j: int| 0 <= j < self.keys@.len() ==> is_api_key(#[trigger] self.keys@[j]@)
    }

    /// Reads a token list answer from its status and bytes: bytes that are
    /// no JSON, a failure status (the body's reason, else the status) and a
    /// body without `data.items` are refused; else the listing starts with
    /// no keys read.
    pub fn start(status: u16, body: &[u8]) -> (r: Result<TokenKeyListing, String>)
        requires
            100 <= status <= 999,
        ensures
            json_parse_bytes(body@) is None ==> (r matches Err(m) && m@ == "failed to decode New API token list"@),
            json_parse_bytes(body@) matches Some(v) ==> {
                &&& !is_success_status(status) ==> (r matches Err(m)
                    && m@ == text_or(reason_of(v), status_failure("token list"@, status)))
                &&& is_success_status(status) && token_items_of(v) is None ==> (r matches Err(m)
                    && m@ == "New API token list missing items"@)
                &&& (is_success_status(status) && token_items_of(v) is Some) ==> (r matches Ok(l)
                    && l.wf() && Some(l.items()) == token_items_of(v) && l.keys().len() == 0)
            },
    {
        let value = match parse_json_bytes(body) {
            Some(v) => v,
            None => return Err(String::from_str("failed to decode New API token list")),
        };
        if !is_success(status) {
            return Err(reason_or(&value, status_failure_message("token list", status)));
        }
        let data = match value.take_field("data") {
            Some(d) => d,
            None => return Err(String::from_str("New API token list missing items")),
        };
        match data.take_field("items") {
            Some(JsonValue::Array(items)) => {
                let l = TokenKeyListing { items, keys: Vec::new() };
                assert(l.keys() =~= Seq::<Seq<char>>::empty());
                Ok(l)
            },
            _ => Err(String::from_str("New API token list missing items")),
        }
    }

    /// What comes next: `None` once every item has its key, else the id of
    /// the next item to look up, or the refusal of an item without an id.
    pub fn next_token_id(&self) -> (r: Result<Option<String>, String>)
        requires
            self.wf(),
        ensures
            self.keys().len() == self.items().len() ==> r matches Ok(None),
            self.keys().len() < self.items().len() ==> {
                let item = self.items()[self.keys().len() as int];
                &&& token_item_id(item) matches Some(id) ==> (r matches Ok(Some(t)) && t@ == id)
                &&& token_item_id(item) is None ==> (r matches Err(m) && m@ == "New API token missing id"@)
            },
    {
        let done = self.keys.len();
        if done == self.items.len() {
            return Ok(None);
        }
        let id_field = vec!["id"];
        assert(crate::fields::field_views(id_field@) =~= seq!["id"@]);
        match extract_stringish_field(&self.items[done], id_field.as_slice()) {
            Some(id) => Ok(Some(id)),
            None => Err(String::from_str("New API token missing id")),
        }
    }

    /// Records the key lookup answer for the next item: bytes that are no
    /// JSON and refused lookups leave the listing as it was.
    pub fn record_key(&mut self, status: u16, body: &[u8], token_id: &str) -> (r: Result<(), String>)
        requires
            100 <= status <= 999,
            old(self).wf(),
            old(self).keys().len() < old(self).items().len(),
        ensures
            final(self).wf(),
            final(self).items() == old(self).items(),
            json_parse_bytes(body@) is None ==> (r matches Err(m)
                && m@ == "failed to decode New API key for token "@ + token_id@
                && final(self).keys() == old(self).keys()),
            json_parse_bytes(body@) matches Some(v) ==> {
                &&& key_outcome(status, v) matches Err(e) ==> (r matches Err(m) && m@ == e
                    && final(self).keys() == old(self).keys())
                &&& key_outcome(status, v) matches Ok(k) ==> (r is Ok
                    && final(self).keys() == old(self).keys().push(k))
            },
    {
        let value = match parse_json_bytes(body) {
            Some(v) => v,
            None => return Err(concat("failed to decode New API key for token ", token_id)),
        };
        match key_from_key_value(status, &value) {
            Err(e) => Err(e),
            Ok(k) => {
                proof {
                    reveal_strlit("sk-");
                    if let Some(rk) = real_key_of(value) {
                        assert(("sk-"@ + rk).subrange(0, 3) =~= "sk-"@);
                    }
                }
                let ghost before = self.keys@;
                self.keys.push(k);
                assert(self.keys@.map_values(|k: String| k@) =~= before.map_values(|k: String| k@).push(k@));
                Ok(())
            },
        }
    }

    /// The keys read, one per item and in the order of the items, once
    /// every item has its key.
    pub fn into_keys(self) -> (r: Vec<String>)
        requires
            self.wf(),
            self.keys().len() == self.items().len(),
        ensures
            r@.len() == self.items().len(),
            r@.map_values(|k: String| k@) == self.keys(),
            forall|j: int| 0 <= j < r@.len() ==> is_api_key(#[trigger] r@[j]@),
    {
        self.keys
    }
}

/// A key as the library keeps it: `sk-` and a non-empty key.
pub open spec fn is_api_key(k: Seq<char>) -> bool {
    k.len() > 3 && has_prefix(k, "sk-"@)
}

/// Where the provisioning of a user's API key stands.
pub enum KeyStage {
    /// The user's keys are being listed for the first time.
    ListingExisting,
    /// No key was found and one is being created.
    Creating,
    /// A key was created and the keys are being listed again.
    ListingCreated,
    /// A key, or the reason there is none, was handed out.
    Finished,
}

/// What the provisioning asks for next.
pub enum KeyAction {
    /// List the user's keys.
    ListKeys,
    /// Create a key for the user.
    CreateKey,
    /// Hand out this key, or this failure.
    Finish(Result<String, String>),
}

/// The next stage and action once a listing has come back.
pub open spec fn after_listing(stage: KeyStage, listed: Result<Seq<Seq<char>>, Seq<char>>) -> (KeyStage, Result<Option<Seq<char>>, Seq<char>>) {
    match listed {
        Err(e) => (KeyStage::Finished, Err(e)),
        Ok(keys) => if keys.len() > 0 {
            (KeyStage::Finished, Ok(Some(keys[0])))
        } else if stage is ListingExisting {
            (KeyStage::Creating, Ok(None))
        } else {
            (KeyStage::Finished, Err("New API key creation succeeded but no key was returned"@))
        },
    }
}

/// The texts of a listing.
pub open spec fn listed_view(listed: Result<Vec<String>, String>) -> Result<Seq<Seq<char>>, Seq<char>> {
    match listed {
        Ok(keys) => Ok(keys@.map_values(|k: String| k@)),
        Err(e) => Err(e@),
    }
}

/// An action as texts: `Ok(None)` asks for the next request, `Ok(Some(k))`
/// hands out `k`, `Err(e)` hands out the failure.
pub open spec fn action_view(a: KeyAction) -> Result<Option<Seq<char>>, Seq<char>> {
    match a {
        KeyAction::ListKeys => Ok(None),
        KeyAction::CreateKey => Ok(None),
        KeyAction::Finish(Ok(k)) => Ok(Some(k@)),
        KeyAction::Finish(Err(e)) => Err(e@),
    }
}

/// Makes sure a user has an API key: the first key listed, else one
/// created and then the first key listed after it.
pub struct KeyProvisioning {
    pub stage: KeyStage,
}

impl KeyProvisioning {
    /// Starts by listing the user's keys.
    pub fn new() -> (r: (KeyProvisioning, KeyAction))
        ensures
            r.0.stage is ListingExisting,
            r.1 is ListKeys,
    {
        (KeyProvisioning { stage: KeyStage::ListingExisting }, KeyAction::ListKeys)
    }

    /// A listing came back: its first key is handed out; with none, the
    /// first listing asks for a key to be created, and the listing after
    /// the creation fails; a failed listing is handed out.
    pub fn on_listing(&mut self, listed: Result<Vec<String>, String>) -> (r: KeyAction)
        requires
            old(self).stage is ListingExisting || old(self).stage is ListingCreated,
        ensures
            final(self).stage == after_listing(old(self).stage, listed_view(listed)).0,
            action_view(r) == after_listing(old(self).stage, listed_view(listed)).1,
            final(self).stage is Creating <==> r is CreateKey,
            !(r is ListKeys),
    {
        match listed {
            Err(e) => {
                self.stage = KeyStage::Finished;
                KeyAction::Finish(Err(e))
            },
            Ok(keys) => {
                if keys.len() > 0 {
                    let mut keys = keys;
                    let first = keys.swap_remove(0);
                    self.stage = KeyStage::Finished;
                    KeyAction::Finish(Ok(first))
                } else {
                    match self.stage {
                        KeyStage::ListingExisting => {
                            self.stage = KeyStage::Creating;
                            KeyAction::CreateKey
                        },
                        _ => {
                            self.stage = KeyStage::Finished;
                            KeyAction::Finish(Err(String::from_str("New API key creation succeeded but no key was returned")))
                        },
                    }
                }
            },
        }
    }

    /// The creation came back: a created key is listed for; a creation the
    /// service did not confirm, or that failed, is handed out as a failure.
    pub fn on_created(&mut self, created: Result<bool, String>) -> (r: KeyAction)
        requires
            old(self).stage is Creating,
        ensures
            created matches Ok(true) ==> (final(self).stage is ListingCreated && r is ListKeys),
            created matches Ok(false) ==> (final(self).stage is Finished && (r matches KeyAction::Finish(Err(e))
                && e@ == "no existing New API key and automatic creation failed"@)),
            created matches Err(e) ==> (final(self).stage is Finished && (r matches KeyAction::Finish(Err(m))
                && m@ == e@)),
    {
        match created {
            Err(e) => {
                self.stage = KeyStage::Finished;
                KeyAction::Finish(Err(e))
            },
            Ok(true) => {
                self.stage = KeyStage::ListingCreated;
                KeyAction::ListKeys
            },
            Ok(false) => {
                self.stage = KeyStage::Finished;
                KeyAction::Finish(Err(String::from_str("no existing New API key and automatic creation failed")))
            },
        }
    }
}

/// A key that is already there is the key handed out, and no key is created.
pub proof fn law_existing_key_is_reused(keys: Seq<Seq<char>>)
    requires
        keys.len() > 0,
    ensures
        after_listing(KeyStage::ListingExisting, Ok(keys)) == (KeyStage::Finished, Ok::<Option<Seq<char>>, Seq<char>>(Some(keys[0]))),
{
}

/// A key is created at most once: no stage but the first listing leads to a
/// creation, and a listing after a creation always finishes.
pub proof fn law_at_most_one_creation(stage: KeyStage, listed: Result<Seq<Seq<char>>, Seq<char>>)
    requires
        stage is ListingCreated,
    ensures
        after_listing(stage, listed).0 is Finished,
{
}

/// Whichever listing it is, the first time or after a creation, a listing
/// with a key finishes by handing out its first key; a key created is
/// therefore handed out once it is listed.
pub proof fn law_nonempty_listing_hands_out_first_key(stage: KeyStage, keys: Seq<Seq<char>>)
    requires
        stage is ListingExisting || stage is ListingCreated,
        keys.len() > 0,
    ensures
        after_listing(stage, Ok(keys)) == (KeyStage::Finished, Ok::<Option<Seq<char>>, Seq<char>>(Some(keys[0]))),
{
}

/// An empty listing asks for a creation the first time only; after a
/// creation it fails.
pub proof fn law_empty_listing(stage: KeyStage)
    requires
        stage is ListingExisting || stage is ListingCreated,
    ensures
        stage is ListingExisting ==> after_listing(stage, Ok(Seq::<Seq<char>>::empty()))
            == (KeyStage::Creating, Ok::<Option<Seq<char>>, Seq<char>>(None)),
        stage is ListingCreated ==> after_listing(stage, Ok(Seq::<Seq<char>>::empty())).1 is Err,
{
}

/// The user name of an identity is the `username` where the answer gives
/// a non-empty one, whatever `name` or `email` hold; without a `username`,
/// a non-empty `name` comes before the `email`.
pub proof fn law_username_read_before_name_and_email(status: u16, value: JsonValue, u: String)
    requires
        is_success_status(status),
        first_stringish(value.field_or_self("data"@), self_id_fields()) is Some,
        u@.len() > 0,
        value.field_or_self("data"@).field("username"@) == Some(JsonValue::Str(u))
            || (value.field_or_self("data"@).field("username"@) is None
                && value.field_or_self("data"@).field("name"@) == Some(JsonValue::Str(u))),
    ensures
        identity_outcome(status, value) matches Ok((_, name)) && name == u@,
{
    let fields = self_username_fields();
    reveal_strlit("username");
    reveal_strlit("name");
    reveal_strlit("email");
    let object = value.field_or_self("data"@);
    assert(fields[0] == "username"@);
    assert(fields.drop_first()[0] == "name"@);
    assert(fields.drop_first().len() > 0);
    assert(stringish(JsonValue::Str(u)) == Some(u@));
    if object.field("username"@) == Some(JsonValue::Str(u)) {
        assert(first_stringish(object, fields) == Some(u@));
    } else {
        assert(first_stringish(object, fields.drop_first()) == Some(u@));
        assert(first_stringish(object, fields) == Some(u@));
    }
}

/// A listing handed out is always the first key listed.
pub proof fn law_handed_out_key_is_first_listed(stage: KeyStage, keys: Seq<Seq<char>>, k: Seq<char>)
    requires
        after_listing(stage, Ok(keys)).1 == Ok::<Option<Seq<char>>, Seq<char>>(Some(k)),
    ensures
        keys.len() > 0 && k == keys[0],
{
}

/// The body of a token creation: a name, no quota limit, no expiry, no
/// model, address or group limits.
pub fn token_creation_body(name: String) -> (r: JsonValue)
    ensures
        r matches JsonValue::Object(e) && e@.len() == 9 && {
            &&& e@[0].key@ == "name"@ && (e@[0].value matches JsonValue::Str(n) && n@ == name@)
            &&& e@[1].key@ == "remain_quota"@ && (e@[1].value matches JsonValue::Number(x) && x@ == "0"@)
            &&& e@[2].key@ == "expired_time"@ && (e@[2].value matches JsonValue::Number(x) && x@ == "-1"@)
            &&& e@[3].key@ == "unlimited_quota"@ && e@[3].value == JsonValue::Bool(true)
            &&& e@[4].key@ == "model_limits_enabled"@ && e@[4].value == JsonValue::Bool(false)
            &&& e@[5].key@ == "model_limits"@ && (e@[5].value matches JsonValue::Str(x) && x@.len() == 0)
            &&& e@[6].key@ == "allow_ips"@ && (e@[6].value matches JsonValue::Str(x) && x@.len() == 0)
            &&& e@[7].key@ == "group"@ && (e@[7].value matches JsonValue::Str(x) && x@.len() == 0)
            &&& e@[8].key@ == "cross_group_retry"@ && e@[8].value == JsonValue::Bool(false)
        },
{
    let mut e: Vec<JsonEntry> = Vec::new();
    e.push(member("name", JsonValue::Str(name)));
    e.push(member("remain_quota", JsonValue::Number(String::from_str("0"))));
    e.push(member("expired_time", JsonValue::Number(String::from_str("-1"))));
    e.push(member("unlimited_quota", JsonValue::Bool(true)));
    e.push(member("model_limits_enabled", JsonValue::Bool(false)));
    e.push(member("model_limits", JsonValue::Str(String::new())));
    e.push(member("allow_ips", JsonValue::Str(String::new())));
    e.push(member("group", JsonValue::Str(String::new())));
    e.push(member("cross_group_retry", JsonValue::Bool(false)));
    JsonValue::Object(e)
}

/// The current time in nanoseconds since the Unix epoch, zero for a clock
/// set before it. Calls `std::time::SystemTime::now` and
/// `duration_since(UNIX_EPOCH)`; nothing is claimed of the value.
#[verifier::external_body]
fn unix_time_nanos() -> u128 {
    std::time::SystemTime::now()
        .duration_since(std::time::UNIX_EPOCH)
        .unwrap_or_default()
        .as_nanos()
}

/// `ichat-<nanos>`, the name of a token created at that time.
pub fn token_name_at(nanos: u128) -> (r: String)
    ensures
        r@ == "ichat-"@ + decimal(nanos as nat),
{
    let digits = crate::text::u128_to_decimal(nanos);
    concat("ichat-", digits.as_str())
}

/// A token name from the current time: `ichat-` and a count of
/// nanoseconds.
pub fn random_token_name() -> (r: String)
    ensures
        exists|n: u128| r@ == "ichat-"@ + #[trigger] decimal(n as nat),
{
    let nanos = unix_time_nanos();
    token_name_at(nanos)
}

/// Token names made at distinct clock readings differ, and one reading
/// always gives the same name.
pub proof fn law_token_names_distinct(n1: nat, n2: nat)
    ensures
        ("ichat-"@ + decimal(n1) == "ichat-"@ + decimal(n2)) <==> n1 == n2,
{
    let p = "ichat-"@;
    if p + decimal(n1) == p + decimal(n2) {
        assert((p + decimal(n1)).subrange(p.len() as int, (p + decimal(n1)).len() as int) =~= decimal(n1));
        assert((p + decimal(n2)).subrange(p.len() as int, (p + decimal(n2)).len() as int) =~= decimal(n2));
        crate::text::lemma_decimal_injective(n1, n2);
    }
}

/// The configured base never ends with `/`, so that the paths appended to
/// it never make a `//`.
pub proof fn law_trimmed_base_has_no_trailing_slash(s: Seq<char>)
    ensures
        trim_trailing_slashes(s).len() == 0 || trim_trailing_slashes(s).last() != '/',
        has_prefix(s, trim_trailing_slashes(s)),
    decreases s.len(),
{
    if s.len() > 0 && s.last() == '/' {
        law_trimmed_base_has_no_trailing_slash(s.drop_last());
        let t = trim_trailing_slashes(s.drop_last());
        assert(s.subrange(0, t.len() as int) =~= s.drop_last().subrange(0, t.len() as int));
    } else {
        assert(s.subrange(0, s.len() as int) =~= s);
    }
}

} // verus!
