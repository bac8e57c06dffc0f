use ichat::auth::{ErrorKind, UserPreference, UserRecord};
use ichat::json::{parse_json_str, JsonValue};
use ichat::routes::{
    model_ids_answer, pay_answer,
    chat_read_response, external_registration_enabled, extract_reason, local_login_user, model_ids_api_key,
    pay_call, pay_enabled, user_creation_allowed, verification_outcome, ChatMode, ChatRow, PayReq,
};

#[test]
fn extracts_failure_message_from_verification_response() {
    let value = parse_json_str(r#"{"message": "email already exists", "success": false}"#).unwrap();

    assert_eq!(extract_reason(&value).as_deref(), Some("email already exists"));
}

fn user(key: Option<&str>, external: Option<&str>) -> UserRecord {
    UserRecord {
        id: 5,
        name: "alice".to_owned(),
        password: String::new(),
        preference: UserPreference { theme: None, locale: None, submit_on_enter: None },
        external_user_id: external.map(str::to_owned),
        newapi_api_key: key.map(str::to_owned),
    }
}

#[test]
fn verification_answers() {
    let ok = parse_json_str(r#"{"success": true}"#).unwrap();
    assert!(verification_outcome(200, &ok).ok().unwrap().success);
    let silent = parse_json_str("{}").unwrap();
    assert!(verification_outcome(200, &silent).is_ok());
    let failed = parse_json_str(r#"{"success": false}"#).unwrap();
    let e = verification_outcome(200, &failed).err().unwrap();
    assert!(matches!(e.error, ErrorKind::MalformedRequest));
    assert_eq!(e.reason, "New API verification failed");
    let numeric = parse_json_str(r#"{"message": 3}"#).unwrap();
    let e = verification_outcome(429, &numeric).err().unwrap();
    assert_eq!(e.reason, "New API verification failed with status 429 Too Many Requests");
}

#[test]
fn route_guards() {
    assert!(external_registration_enabled(true).is_ok());
    assert_eq!(external_registration_enabled(false).err().unwrap().reason, "External registration is not enabled");
    assert!(user_creation_allowed(false).is_ok());
    assert_eq!(
        user_creation_allowed(true).err().unwrap().reason,
        "User creation is managed by the external auth provider"
    );
    assert_eq!(pay_enabled(false).err().unwrap().reason, "External auth is not enabled");
}

#[test]
fn model_ids_need_a_key() {
    assert_eq!(model_ids_api_key(Some(user(Some("sk-1"), None))).ok().as_deref(), Some("sk-1"));
    let e = model_ids_api_key(Some(user(None, None))).err().unwrap();
    assert!(matches!(e.error, ErrorKind::ApiFail));
    assert_eq!(e.reason, "missing New API key for current user");
    let e = model_ids_api_key(None).err().unwrap();
    assert!(matches!(e.error, ErrorKind::Unauthorized));
}

#[test]
fn pay_forwards_amount_and_method() {
    let req = || PayReq { amount: -25, payment_method: "alipay".to_owned() };
    let call = pay_call(Some(user(None, Some("42"))), Some("session=abc".to_owned()), req()).ok().unwrap();
    assert_eq!(call.path, "/api/user/pay");
    assert_eq!(call.external_user_id, "42");
    assert_eq!(call.session_cookie, "session=abc");
    assert!(matches!(call.body.get("amount"), Some(JsonValue::Number(n)) if n == "-25"));
    assert_eq!(call.body.get("payment_method").and_then(|v| v.as_str()), Some("alipay"));
    assert_eq!(pay_call(None, None, req()).err().unwrap().reason, "user not found");
    assert_eq!(
        pay_call(Some(user(None, Some("42"))), None, req()).err().unwrap().reason,
        "missing New API session cookie for current user"
    );
    assert_eq!(
        pay_call(Some(user(None, None)), Some("c".to_owned()), req()).err().unwrap().reason,
        "missing New API external user id for current user"
    );
}

#[test]
fn chat_read_prefers_upstream_model() {
    let row = |upstream: Option<&str>, config: Option<&str>| ChatRow {
        owner_id: 3,
        mode: ChatMode::Search,
        title: Some("t".to_owned()),
        upstream_model_id: upstream.map(str::to_owned),
        model_config: config.map(str::to_owned),
    };
    let r = chat_read_response(3, Some(row(Some("a/b"), Some("model_id = \"c/d\"")))).ok().unwrap();
    assert_eq!(r.model_id.as_deref(), Some("a/b"));
    assert!(matches!(r.mode, ChatMode::Search));
    let r = chat_read_response(3, Some(row(None, Some("model_id = \"c/d\"\ndisplay_name = \"D\"")))).ok().unwrap();
    assert_eq!(r.model_id.as_deref(), Some("c/d"));
    let r = chat_read_response(3, Some(row(None, Some("not toml =")))).ok().unwrap();
    assert_eq!(r.model_id, None);
    let e = chat_read_response(3, None).err().unwrap();
    assert!(matches!(e.error, ErrorKind::ResourceNotFound));
    assert_eq!(e.reason, "");
}

#[test]
fn chat_of_another_user_is_not_found() {
    let row = ChatRow {
        owner_id: 8,
        mode: ChatMode::Normal,
        title: Some("secret".to_owned()),
        upstream_model_id: Some("a/b".to_owned()),
        model_config: None,
    };
    let e = chat_read_response(3, Some(row)).err().unwrap();
    assert!(matches!(e.error, ErrorKind::ResourceNotFound));
    assert_eq!(e.reason, "");
}

#[test]
fn local_login() {
    assert_eq!(local_login_user(Some(user(None, None)), true).ok(), Some(5));
    assert!(matches!(local_login_user(Some(user(None, None)), false).err().unwrap().error, ErrorKind::LoginFail));
    assert_eq!(local_login_user(None, true).err().unwrap().reason, "");
}

#[test]
fn pay_answer_passes_the_service_answer() {
    let v = parse_json_str(r#"{"url": "https://pay"}"#).unwrap();
    match pay_answer(Ok(v)) {
        Ok(JsonValue::Object(e)) => assert_eq!(e[0].key, "url"),
        _ => panic!("the answer is passed back"),
    }
    let e = pay_answer(Err("upstream down".to_owned())).err().unwrap();
    assert!(matches!(e.error, ErrorKind::ApiFail));
    assert_eq!(e.reason, "upstream down");
}

#[test]
fn model_ids_answer_passes_the_ids() {
    let r = model_ids_answer(Ok(vec!["a/b".to_owned(), "c".to_owned()])).ok().unwrap();
    assert_eq!(r.ids, vec!["a/b".to_owned(), "c".to_owned()]);
    let e = model_ids_answer(Err("no".to_owned())).err().unwrap();
    assert!(matches!(e.error, ErrorKind::ApiFail));
    assert_eq!(e.reason, "no");
}
