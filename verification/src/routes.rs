//! The decisions of the HTTP routes: the requests and answers of the auth,
//! chat, model and user routes, and the step-by-step flow of an external
//! login or registration. The routes' own I/O (database, upstream calls)
//! is done by the caller, which hands each result back.

use vstd::prelude::*;
use crate::auth::{ApiError, ErrorKind, UserRecord, api_error, upsert_external_user, upserted,
    at_most_one_external_row, has_external_row, external_row_at, max_row_id};
use crate::newapi::ExternalIdentity;
use crate::token::{SessionKey, Token, new_token, token_opens_to, MAX_TOKEN_LIFETIME_SECS};
use crate::fields::{opt_view, first_nonempty_string, extract_nonempty_string_field, reason_field_names, reason_fields};
use crate::json::{JsonEntry, JsonValue};
use crate::newapi::{text_or, status_failure};
use crate::wire::{is_success, is_success_status};

verus! {

/// A login request.
pub struct LoginReq {
    pub username: String,
    pub password: String,
}

/// A login answer: the session token and its expiry.
pub struct LoginResp {
    pub token: String,
    pub exp: String,
}

/// A registration request.
pub struct RegisterReq {
    pub username: String,
    pub password: String,
    pub email: Option<String>,
    pub verification_code: Option<String>,
    pub aff_code: Option<String>,
}

/// A registration answer: the session token and its expiry.
pub struct RegisterResp {
    pub token: String,
    pub exp: String,
}

/// A request for a verification mail.
pub struct VerificationReq {
    pub email: String,
}

/// The answer to a verification request.
pub struct VerificationResp {
    pub success: bool,
}

/// A request to read a chat.
pub struct ChatReadReq {
    pub id: i32,
}

/// How a chat answers.
pub enum ChatMode {
    Normal,
    Search,
    Research,
}

/// A chat as read: its mode, the model it uses and its title.
pub struct ChatReadResp {
    pub mode: ChatMode,
    pub model_id: Option<String>,
    pub title: Option<String>,
}

/// A chat row, with its owner and the configuration of its model where it
/// has one.
pub struct ChatRow {
    pub owner_id: i32,
    pub mode: ChatMode,
    pub title: Option<String>,
    pub upstream_model_id: Option<String>,
    pub model_config: Option<String>,
}

/// A request for the model ids.
pub struct ModelIdsReq {}

/// The model ids the user may use.
pub struct ModelIdsResp {
    pub ids: Vec<String>,
}

/// A request to create a local user.
pub struct UserCreateReq {
    pub username: String,
    pub password: String,
}

/// The id of a created local user.
pub struct UserCreateResp {
    pub user_id: i32,
}

/// A top-up request.
pub struct PayReq {
    pub amount: i64,
    pub payment_method: String,
}

/// A top-up forwarded to the account service with the user's session.
pub struct PayCall {
    pub path: String,
    pub external_user_id: String,
    pub session_cookie: String,
    pub body: JsonValue,
}

/// The failure reason of a verification answer: its first non-empty
/// `message`, `msg`, `reason` or `error` string.
pub fn extract_reason(value: &JsonValue) -> (r: Option<String>)
    ensures
        opt_view(r) == first_nonempty_string(*value, reason_fields()),
{
    let fields = reason_field_names();
    extract_nonempty_string_field(value, fields.as_slice())
}

/// Registration and verification need the account service.
pub fn external_registration_enabled(enabled: bool) -> (r: Result<(), ApiError>)
    ensures
        enabled ==> r is Ok,
        !enabled ==> (r matches Err(e) && e.error is MalformedRequest
            && e.reason@ == "External registration is not enabled"@),
{
    if enabled {
        Ok(())
    } else {
        Err(api_error(ErrorKind::MalformedRequest, "External registration is not enabled"))
    }
}

/// The answer to a verification request, read from the service's status
/// and body: a failure status, or a body whose `success` is false, is a
/// malformed request with the body's reason.
pub fn verification_outcome(status: u16, value: &JsonValue) -> (r: Result<VerificationResp, ApiError>)
    requires
        100 <= status <= 999,
    ensures
        !is_success_status(status) ==> (r matches Err(e) && e.error is MalformedRequest
            && e.reason@ == text_or(first_nonempty_string(*value, reason_fields()), status_failure("verification"@, status))),
        is_success_status(status) && value.field("success"@) == Some(JsonValue::Bool(false)) ==> (r matches Err(e)
            && e.error is MalformedRequest
            && e.reason@ == text_or(first_nonempty_string(*value, reason_fields()), "New API verification failed"@)),
        is_success_status(status) && value.field("success"@) != Some(JsonValue::Bool(false)) ==> (r matches Ok(resp)
            && resp.success),
{
    if !is_success(status) {
        let reason = match extract_reason(value) {
            Some(reason) => reason,
            None => crate::newapi::status_failure_message("verification", status),
        };
        return Err(ApiError { error: ErrorKind::MalformedRequest, reason });
    }
    let success = match value.get("success") {
        Some(JsonValue::Bool(b)) => *b,
        _ => true,
    };
    if !success {
        let reason = match extract_reason(value) {
            Some(reason) => reason,
            None => String::from_str("New API verification failed"),
        };
        return Err(ApiError { error: ErrorKind::MalformedRequest, reason });
    }
    Ok(VerificationResp { success: true })
}

/// Local users are created only without the account service.
pub fn user_creation_allowed(external_auth_enabled: bool) -> (r: Result<(), ApiError>)
    ensures
        !external_auth_enabled ==> r is Ok,
        external_auth_enabled ==> (r matches Err(e) && e.error is MalformedRequest
            && e.reason@ == "User creation is managed by the external auth provider"@),
{
    if external_auth_enabled {
        Err(api_error(ErrorKind::MalformedRequest, "User creation is managed by the external auth provider"))
    } else {
        Ok(())
    }
}

/// The API key with which a user's models are listed: the user must exist
/// and have a key.
pub fn model_ids_api_key(user: Option<UserRecord>) -> (r: Result<String, ApiError>)
    ensures
        user is None ==> (r matches Err(e) && e.error is Unauthorized && e.reason@ == "user not found"@),
        user matches Some(u) ==> (match u.newapi_api_key {
            Some(k) => r == Ok::<String, ApiError>(k),
            None => r matches Err(e) && e.error is ApiFail
                && e.reason@ == "missing New API key for current user"@,
        }),
{
    match user {
        None => Err(api_error(ErrorKind::Unauthorized, "user not found")),
        Some(u) => match u.newapi_api_key {
            Some(k) => Ok(k),
            None => Err(api_error(ErrorKind::ApiFail, "missing New API key for current user")),
        },
    }
}

/// Top-ups need the account service.
pub fn pay_enabled(enabled: bool) -> (r: Result<(), ApiError>)
    ensures
        enabled ==> r is Ok,
        !enabled ==> (r matches Err(e) && e.error is MalformedRequest
            && e.reason@ == "External auth is not enabled"@),
{
    if enabled {
        Ok(())
    } else {
        Err(api_error(ErrorKind::MalformedRequest, "External auth is not enabled"))
    }
}

/// The top-up forwarded for a user: the user must exist, the browser must
/// hold the service's session cookie, and the user must be tied to an
/// external id; the body holds the amount and the payment method.
pub fn pay_call(user: Option<UserRecord>, session_cookie: Option<String>, req: PayReq) -> (r: Result<PayCall, ApiError>)
    ensures
        user is None ==> (r matches Err(e) && e.error is Unauthorized && e.reason@ == "user not found"@),
        user is Some && session_cookie is None ==> (r matches Err(e) && e.error is Unauthorized
            && e.reason@ == "missing New API session cookie for current user"@),
        user matches Some(u) ==> ((session_cookie is Some && u.external_user_id is None) ==> (r matches Err(e)
            && e.error is Unauthorized && e.reason@ == "missing New API external user id for current user"@)),
        user matches Some(u) ==> ((session_cookie is Some && u.external_user_id is Some) ==> (r matches Ok(call)
            && call.path@ == "/api/user/pay"@
            && Some(call.external_user_id) == u.external_user_id
            && Some(call.session_cookie) == session_cookie
            && (call.body matches JsonValue::Object(e) && e@.len() == 2
                && e@[0].key@ == "amount"@
                && (e@[0].value matches JsonValue::Number(a) && a@ == crate::text::signed_decimal(req.amount as int))
                && e@[1].key@ == "payment_method"@
                && e@[1].value == JsonValue::Str(req.payment_method)))),
{
    let user = match user {
        Some(u) => u,
        None => return Err(api_error(ErrorKind::Unauthorized, "user not found")),
    };
    let cookie = match session_cookie {
        Some(c) => c,
        None => return Err(api_error(ErrorKind::Unauthorized, "missing New API session cookie for current user")),
    };
    let external_user_id = match user.external_user_id {
        Some(id) => id,
        None => return Err(api_error(ErrorKind::Unauthorized, "missing New API external user id for current user")),
    };
    let mut body: Vec<JsonEntry> = Vec::new();
    body.push(JsonEntry { key: String::from_str("amount"), value: JsonValue::Number(crate::text::i64_to_decimal(req.amount)) });
    body.push(JsonEntry { key: String::from_str("payment_method"), value: JsonValue::Str(req.payment_method) });
    Ok(PayCall {
        path: String::from_str("/api/user/pay"),
        external_user_id,
        session_cookie: cookie,
        body: JsonValue::Object(body),
    })
}

/// The answer of the model-ids route to the fetch of the user's model ids:
/// the ids as fetched, or the failure as an API failure with its reason.
pub fn model_ids_answer(fetched: Result<Vec<String>, String>) -> (r: Result<ModelIdsResp, ApiError>)
    ensures
        fetched matches Ok(ids) ==> (r matches Ok(resp) && resp.ids == ids),
        fetched matches Err(m) ==> (r matches Err(e) && e.error is ApiFail && e.reason == m),
{
    match fetched {
        Ok(ids) => Ok(ModelIdsResp { ids }),
        Err(reason) => Err(ApiError { error: ErrorKind::ApiFail, reason }),
    }
}

/// The answer of the pay route to the forwarded top-up: the service's
/// answer as it came, or the failure as an API failure with its reason.
pub fn pay_answer(result: Result<JsonValue, String>) -> (r: Result<JsonValue, ApiError>)
    ensures
        result matches Ok(v) ==> r == Ok::<JsonValue, ApiError>(v),
        result matches Err(m) ==> (r matches Err(e) && e.error is ApiFail && e.reason == m),
{
    match result {
        Ok(v) => Ok(v),
        Err(reason) => Err(ApiError { error: ErrorKind::ApiFail, reason }),
    }
}

/// The `model_id` that `toml` reads from a model configuration, where the
/// text is a TOML table whose `model_id` is a string.
pub uninterp spec fn config_model_id(config: Seq<char>) -> Option<Seq<char>>;

/// Calls `toml::from_str::<toml::Table>` and reads `model_id` as a string.
/// Claims only that the result is a function of the text (named
/// `config_model_id`).
#[verifier::external_body]
fn model_id_of_config(config: &str) -> (r: Option<String>)
    ensures
        opt_view(r) == config_model_id(config@),
{
    toml::from_str::<toml::Table>(config).ok().and_then(|t| t.get("model_id").and_then(|v| v.as_str()).map(|s| s.to_string()))
}

/// The model a chat names: the upstream model it was last used with, else
/// the one its model configuration names.
pub open spec fn chat_model_id(row: ChatRow) -> Option<Seq<char>> {
    match row.upstream_model_id {
        Some(m) => Some(m@),
        None => match row.model_config {
            Some(c) => config_model_id(c@),
            None => None,
        },
    }
}

/// The answer to a chat read by a user: the chat where the row found is
/// the user's own, else not found with no reason (a chat of another user
/// is not shown).
pub fn chat_read_response(user_id: i32, row: Option<ChatRow>) -> (r: Result<ChatReadResp, ApiError>)
    ensures
        (row is None || row.unwrap().owner_id != user_id) ==> (r matches Err(e) && e.error is ResourceNotFound
            && e.reason@.len() == 0),
        row matches Some(c) ==> (c.owner_id == user_id ==> (r matches Ok(resp) && resp.mode == c.mode
            && resp.title == c.title && opt_view(resp.model_id) == chat_model_id(c))),
{
    match row {
        None => Err(ApiError { error: ErrorKind::ResourceNotFound, reason: String::new() }),
        Some(chat) => {
            if chat.owner_id != user_id {
                return Err(ApiError { error: ErrorKind::ResourceNotFound, reason: String::new() });
            }
            let model_id = match chat.upstream_model_id {
                Some(m) => Some(m),
                None => match &chat.model_config {
                    Some(c) => model_id_of_config(c.as_str()),
                    None => None,
                },
            };
            Ok(ChatReadResp { mode: chat.mode, model_id, title: chat.title })
        },
    }
}

/// The local login without the account service: the user must exist under
/// the name and the password must match; both failures give no reason.
pub fn local_login_user(user: Option<UserRecord>, password_matches: bool) -> (r: Result<i32, ApiError>)
    ensures
        user matches Some(u) ==> (password_matches ==> r == Ok::<i32, ApiError>(u.id)),
        (user is None || !password_matches) ==> (r matches Err(e) && e.error is LoginFail && e.reason@.len() == 0),
{
    match user {
        None => Err(ApiError { error: ErrorKind::LoginFail, reason: String::new() }),
        Some(u) => if password_matches {
            Ok(u.id)
        } else {
            Err(ApiError { error: ErrorKind::LoginFail, reason: String::new() })
        },
    }
}

/// The answer to a login of a local user: a session token minted under
/// the key, which opens to the user's id and the expiry handed back; a
/// failure to mint is internal.
pub fn login_response(key: &SessionKey, user_id: i32, expires_in_secs: u64) -> (r: Result<LoginResp, ApiError>)
    requires
        expires_in_secs <= MAX_TOKEN_LIFETIME_SECS,
    ensures
        r matches Ok(resp) ==> token_opens_to(key.view(), resp.token@, resp.exp@, user_id as int, expires_in_secs as int),
        r matches Err(e) ==> e.error is Internal,
{
    match new_token(key, user_id, expires_in_secs) {
        Ok(Token { token, exp }) => Ok(LoginResp { token, exp }),
        Err(e) => Err(e),
    }
}

/// The answer to a registration of a local user: a session token minted
/// under the key, which opens to the user's id and the expiry handed back;
/// a failure to mint is internal.
pub fn register_response(key: &SessionKey, user_id: i32, expires_in_secs: u64) -> (r: Result<RegisterResp, ApiError>)
    requires
        expires_in_secs <= MAX_TOKEN_LIFETIME_SECS,
    ensures
        r matches Ok(resp) ==> token_opens_to(key.view(), resp.token@, resp.exp@, user_id as int, expires_in_secs as int),
        r matches Err(e) ==> e.error is Internal,
{
    match new_token(key, user_id, expires_in_secs) {
        Ok(Token { token, exp }) => Ok(RegisterResp { token, exp }),
        Err(e) => Err(e),
    }
}

/// The local login without the account service: the row found under the
/// name must exist and the password must match, else the login fails with
/// no reason; then the answer carries a session token for that row's id.
pub fn local_login(key: &SessionKey, user: Option<UserRecord>, password_matches: bool, expires_in_secs: u64) -> (r: Result<LoginResp, ApiError>)
    requires
        expires_in_secs <= MAX_TOKEN_LIFETIME_SECS,
    ensures
        (user is None || !password_matches) ==> (r matches Err(e) && e.error is LoginFail && e.reason@.len() == 0),
        user matches Some(u) ==> (password_matches ==> match r {
            Ok(resp) => token_opens_to(key.view(), resp.token@, resp.exp@, u.id as int, expires_in_secs as int),
            Err(e) => e.error is Internal,
        }),
{
    match local_login_user(user, password_matches) {
        Ok(id) => login_response(key, id, expires_in_secs),
        Err(e) => Err(e),
    }
}

/// The end of an external login or registration: the user's row is
/// written with the name and key (see `upsert_external_user`), and the
/// answer carries a session token for the id of that row. A failure to
/// write or to mint is internal.
pub fn external_auth_response(
    table: &mut Vec<UserRecord>,
    key: &SessionKey,
    identity: ExternalIdentity,
    api_key: Option<String>,
    expires_in_secs: u64,
) -> (r: Result<LoginResp, ApiError>)
    requires
        at_most_one_external_row(old(table)@, identity.external_user_id@),
        expires_in_secs <= MAX_TOKEN_LIFETIME_SECS,
    ensures
        r matches Err(e) ==> e.error is Internal,
        (!has_external_row(old(table)@, identity.external_user_id@) && max_row_id(old(table)@) == i32::MAX)
            ==> (r is Err && final(table)@ == old(table)@),
        !(!has_external_row(old(table)@, identity.external_user_id@) && max_row_id(old(table)@) == i32::MAX)
            ==> exists|m: UserRecord| upserted(old(table)@, final(table)@, identity.external_user_id@,
            identity.username@, opt_view(api_key), m),
        r matches Ok(resp) ==> forall|k: int| external_row_at(final(table)@, identity.external_user_id@, k)
            ==> token_opens_to(key.view(), resp.token@, resp.exp@, final(table)@[k].id as int, expires_in_secs as int),
{
    let ghost ext = identity.external_user_id@;
    let ghost name = identity.username@;
    let ghost key_text = opt_view(api_key);
    let row = match upsert_external_user(table, identity, api_key) {
        Ok(m) => m,
        Err(e) => return Err(e),
    };
    let r = login_response(key, row.id, expires_in_secs);
    proof {
        assert(upserted(old(table)@, table@, ext, name, key_text, row));
        if has_external_row(old(table)@, ext) {
            let k0 = choose|k: int| external_row_at(old(table)@, ext, k);
            assert(table@ == old(table)@.update(k0, row));
            assert(external_row_at(table@, ext, k0));
        } else {
            assert(table@ == old(table)@.push(row));
            assert(external_row_at(table@, ext, old(table)@.len() as int));
        }
    }
    r
}

} // verus!
