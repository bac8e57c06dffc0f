use ichat::fields::{extract_bearer_token, extract_external_user_id, extract_reason, extract_stringish_field};
use ichat::json::{parse_json_bytes, parse_json_str, JsonValue};
use ichat::newapi::{
    authenticate_outcome, identity_from_self_response, key_created, random_token_name, token_creation_body,
    token_name_at, trim_end_slashes, KeyAction, KeyProvisioning, KeyStage, NewApiAuthClient, TokenKeyListing,
    UpstreamAuth,
};
use ichat::wire::{header_name_ok, header_value_ok, is_success, status_display, HeaderError};

#[test]
fn extracts_external_user_id_from_data_payload() {
    let body = r#"{
            "data": {
                "display_name": "Root User",
                "group": "default",
                "id": 1,
                "role": 100,
                "status": 1,
                "username": "isomoes"
            },
            "message": "",
            "success": true
        }"#;

    assert_eq!(extract_external_user_id(body).as_deref(), Some("1"));
}

fn client() -> NewApiAuthClient {
    NewApiAuthClient::from_env_values(
        Some("https://newapi.example.com//".to_owned()),
        None,
        Some("service-token".to_owned()),
    )
    .expect("a base configures the client")
}

#[test]
fn client_from_env_trims_base_and_defaults_user_header() {
    let c = client();
    assert_eq!(c.base_url, "https://newapi.example.com");
    assert_eq!(c.user_header, "New-Api-User");
    assert_eq!(c.service_bearer.as_deref(), Some("service-token"));
    assert!(c.is_enabled());
    assert!(NewApiAuthClient::from_env_values(None, None, None).is_none());
    let custom = NewApiAuthClient::from_env_values(Some("http://h".to_owned()), Some("X-User".to_owned()), None).unwrap();
    assert_eq!(custom.user_header, "X-User");
    assert_eq!(custom.service_bearer, None);
}

#[test]
fn trims_every_trailing_slash_only() {
    assert_eq!(trim_end_slashes("a/b///"), "a/b");
    assert_eq!(trim_end_slashes("///"), "");
    assert_eq!(trim_end_slashes("/a"), "/a");
}

#[test]
fn builds_service_urls() {
    let c = client();
    assert_eq!(c.auth_url("login"), "https://newapi.example.com/api/user/login");
    assert_eq!(c.self_url(), "https://newapi.example.com/api/user/self");
    assert_eq!(c.token_list_url(), "https://newapi.example.com/api/token/?p=1&page_size=100");
    assert_eq!(c.token_key_url("7"), "https://newapi.example.com/api/token/7/key");
    assert_eq!(c.token_create_url(), "https://newapi.example.com/api/token/");
    assert_eq!(c.verification_url(), "https://newapi.example.com/api/verification");
}

#[test]
fn reads_stringish_fields_in_order() {
    let v = parse_json_str(r#"{"id": "", "user_id": 42, "name": "bob"}"#).unwrap();
    assert_eq!(extract_stringish_field(&v, &["id", "user_id"]).as_deref(), Some("42"));
    assert_eq!(extract_stringish_field(&v, &["name", "user_id"]).as_deref(), Some("bob"));
    assert_eq!(extract_stringish_field(&v, &["missing", "id"]), None);
    let not_object = JsonValue::Str("id".to_owned());
    assert_eq!(extract_stringish_field(&not_object, &["id"]), None);
}

#[test]
fn reads_reason_from_body_or_data() {
    assert_eq!(extract_reason(r#"{"message": "bad password"}"#).as_deref(), Some("bad password"));
    assert_eq!(extract_reason(r#"{"data": {"error": "locked"}}"#).as_deref(), Some("locked"));
    assert_eq!(extract_reason(r#"{"msg": "", "data": {"reason": 5}}"#).as_deref(), Some("5"));
    assert_eq!(extract_reason("not json"), None);
}

#[test]
fn reads_bearer_token_from_data_first() {
    assert_eq!(extract_bearer_token(r#"{"data": {"access_token": "t1"}, "token": "t0"}"#).as_deref(), Some("t1"));
    assert_eq!(extract_bearer_token(r#"{"token": "t0"}"#).as_deref(), Some("t0"));
    assert_eq!(extract_bearer_token(r#"{"data": "x", "token": "t0"}"#), None);
}

#[test]
fn status_display_matches_http() {
    assert_eq!(status_display(200), "200 OK");
    assert_eq!(status_display(404), "404 Not Found");
    assert_eq!(status_display(599), "599 <unknown status code>");
    assert!(is_success(204));
    assert!(!is_success(302));
}

#[test]
fn header_checks_match_http() {
    assert!(header_value_ok("application/json, text/plain, */*"));
    assert!(!header_value_ok("bad\nvalue"));
    assert!(header_value_ok("tab\tok"));
    assert!(header_name_ok("New-Api-User"));
    assert!(!header_name_ok("bad header"));
    assert!(!header_name_ok(""));
}

#[test]
fn token_headers_in_order() {
    let c = client();
    let h = c.token_headers("42", "application/json").ok().unwrap();
    let pairs: Vec<(String, String)> = h.into_iter().map(|p| (p.name, p.value)).collect();
    assert_eq!(
        pairs,
        vec![
            ("accept".to_owned(), "application/json".to_owned()),
            ("New-Api-User".to_owned(), "42".to_owned()),
            ("referer".to_owned(), "https://newapi.example.com/console/token".to_owned()),
            ("origin".to_owned(), "https://newapi.example.com".to_owned()),
            ("user-agent".to_owned(), "Mozilla/5.0".to_owned()),
        ]
    );
    let created = c.create_headers("42").ok().unwrap();
    assert_eq!(created.len(), 6);
    assert_eq!(created[0].value, "application/json, text/plain, */*");
    assert_eq!(created[5].name, "content-type");
    assert_eq!(created[5].value, "application/json");
}

#[test]
fn token_headers_refuse_bad_values() {
    let c = client();
    match c.token_headers("4\n2", "application/json") {
        Err(e) => assert_eq!(e.message(), "failed to parse header value"),
        Ok(_) => panic!("a newline is no header value"),
    }
    let bad = NewApiAuthClient::from_env_values(Some("http://h".to_owned()), Some("bad header".to_owned()), None).unwrap();
    match bad.token_headers("42", "application/json") {
        Err(HeaderError::InvalidName) => {}
        _ => panic!("a space is no header name character"),
    }
}

#[test]
fn self_lookup_headers_follow_login_answer() {
    let c = client();
    let auth = UpstreamAuth {
        bearer_token: Some("tok".to_owned()),
        external_user_id: Some("9".to_owned()),
        has_session_cookie: true,
    };
    let h = c.self_lookup_headers(&auth);
    assert_eq!(h.len(), 3);
    assert_eq!(h[0].name, "X-NewApi-Service-Bearer");
    assert_eq!(h[0].value, "service-token");
    assert_eq!(h[1].name, "New-Api-User");
    assert_eq!(h[1].value, "9");
    assert_eq!(h[2].value, "Bearer tok");
    let none = UpstreamAuth { bearer_token: None, external_user_id: None, has_session_cookie: false };
    let plain = NewApiAuthClient::from_env_values(Some("http://h".to_owned()), None, None).unwrap();
    assert_eq!(plain.self_lookup_headers(&none).len(), 0);
}

#[test]
fn authenticate_reads_failure_and_success() {
    match authenticate_outcome("login", 401, r#"{"message": "wrong password"}"#, false) {
        Err(m) => assert_eq!(m, "wrong password"),
        Ok(_) => panic!("401 is a failure"),
    }
    match authenticate_outcome("register", 500, "oops", false) {
        Err(m) => assert_eq!(m, "New API register failed with status 500 Internal Server Error"),
        Ok(_) => panic!("500 is a failure"),
    }
    let ok = authenticate_outcome("login", 200, r#"{"data": {"id": 3, "token": "abc"}}"#, true).ok().unwrap();
    assert_eq!(ok.external_user_id.as_deref(), Some("3"));
    assert_eq!(ok.bearer_token.as_deref(), Some("abc"));
    assert!(ok.has_session_cookie);
}

#[test]
fn identity_lookup_reads_id_and_name() {
    let ok = identity_from_self_response(200, br#"{"data": {"id": 1, "username": "isomoes"}}"#).ok().unwrap();
    assert_eq!(ok.external_user_id, "1");
    assert_eq!(ok.username, "isomoes");
    let by_email = identity_from_self_response(200, br#"{"user_id": "u-7", "email": "a@b.c"}"#).ok().unwrap();
    assert_eq!(by_email.external_user_id, "u-7");
    assert_eq!(by_email.username, "a@b.c");
    match identity_from_self_response(200, br#"{"data": {"username": "x"}}"#) {
        Err(m) => assert_eq!(m, "New API self response missing id"),
        Ok(_) => panic!("no id"),
    }
    match identity_from_self_response(200, br#"{"id": 2}"#) {
        Err(m) => assert_eq!(m, "New API self response missing username"),
        Ok(_) => panic!("no name"),
    }
    match identity_from_self_response(403, b"not json") {
        Err(m) => assert_eq!(m, "New API self lookup failed with status 403 Forbidden"),
        Ok(_) => panic!("403 is a failure"),
    }
}

#[test]
fn key_listing_reads_each_key() {
    let list = br#"{"data": {"items": [{"id": 11}, {"id": "12"}]}}"#;
    let mut listing = TokenKeyListing::start(200, list).ok().unwrap();
    assert_eq!(listing.next_token_id().ok().unwrap().as_deref(), Some("11"));
    listing.record_key(200, br#"{"data": {"key": "aaa"}}"#, "11").ok().unwrap();
    assert_eq!(listing.next_token_id().ok().unwrap().as_deref(), Some("12"));
    match listing.record_key(200, br#"{"data": {"key": ""}}"#, "12") {
        Err(m) => assert_eq!(m, "New API token key response missing key"),
        Ok(()) => panic!("an empty key is refused"),
    }
    match listing.record_key(200, b"{", "12") {
        Err(m) => assert_eq!(m, "failed to decode New API key for token 12"),
        Ok(()) => panic!("no JSON"),
    }
    listing.record_key(200, br#"{"data": {"key": "bbb"}}"#, "12").ok().unwrap();
    assert_eq!(listing.next_token_id().ok().unwrap(), None);
    assert_eq!(listing.into_keys(), vec!["sk-aaa".to_owned(), "sk-bbb".to_owned()]);
}

#[test]
fn key_listing_refusals() {
    match TokenKeyListing::start(200, b"[") {
        Err(m) => assert_eq!(m, "failed to decode New API token list"),
        Ok(_) => panic!("no JSON"),
    }
    match TokenKeyListing::start(200, br#"{"data": {}}"#) {
        Err(m) => assert_eq!(m, "New API token list missing items"),
        Ok(_) => panic!("no items"),
    }
    match TokenKeyListing::start(401, br#"{"message": "unauthorized"}"#) {
        Err(m) => assert_eq!(m, "unauthorized"),
        Ok(_) => panic!("401"),
    }
    let listing = TokenKeyListing::start(200, br#"{"data": {"items": [{"name": "x"}]}}"#).ok().unwrap();
    match listing.next_token_id() {
        Err(m) => assert_eq!(m, "New API token missing id"),
        Ok(_) => panic!("no id"),
    }
}

#[test]
fn key_creation_reads_success() {
    assert_eq!(key_created(200, br#"{"success": true}"#).ok(), Some(true));
    assert_eq!(key_created(200, br#"{"message": "x"}"#).ok(), Some(false));
    match key_created(500, br#"{"message": "quota"}"#) {
        Err(m) => assert_eq!(m, "quota"),
        Ok(_) => panic!("500"),
    }
    match key_created(200, b"") {
        Err(m) => assert_eq!(m, "failed to decode New API token creation response"),
        Ok(_) => panic!("no JSON"),
    }
}

#[test]
fn provisioning_reuses_first_existing_key() {
    let (mut p, first) = KeyProvisioning::new();
    assert!(matches!(first, KeyAction::ListKeys));
    match p.on_listing(Ok(vec!["sk-1".to_owned(), "sk-2".to_owned()])) {
        KeyAction::Finish(Ok(k)) => assert_eq!(k, "sk-1"),
        _ => panic!("the first key is handed out"),
    }
    assert!(matches!(p.stage, KeyStage::Finished));
}

#[test]
fn provisioning_creates_once_then_lists() {
    let (mut p, _) = KeyProvisioning::new();
    assert!(matches!(p.on_listing(Ok(vec![])), KeyAction::CreateKey));
    assert!(matches!(p.on_created(Ok(true)), KeyAction::ListKeys));
    match p.on_listing(Ok(vec![])) {
        KeyAction::Finish(Err(m)) => assert_eq!(m, "New API key creation succeeded but no key was returned"),
        _ => panic!("no second creation"),
    }
    let (mut q, _) = KeyProvisioning::new();
    q.on_listing(Ok(vec![]));
    match q.on_created(Ok(false)) {
        KeyAction::Finish(Err(m)) => assert_eq!(m, "no existing New API key and automatic creation failed"),
        _ => panic!("an unconfirmed creation fails"),
    }
}

#[test]
fn token_names_carry_the_time() {
    assert_eq!(token_name_at(1234567890123), "ichat-1234567890123");
    let name = random_token_name();
    assert!(name.starts_with("ichat-"));
    assert!(name["ichat-".len()..].chars().all(|c| c.is_ascii_digit()));
}

#[test]
fn token_creation_body_fields() {
    match token_creation_body("ichat-1".to_owned()) {
        JsonValue::Object(e) => {
            let keys: Vec<&str> = e.iter().map(|m| m.key.as_str()).collect();
            assert_eq!(
                keys,
                vec![
                    "name", "remain_quota", "expired_time", "unlimited_quota", "model_limits_enabled",
                    "model_limits", "allow_ips", "group", "cross_group_retry"
                ]
            );
            assert!(matches!(&e[2].value, JsonValue::Number(n) if n == "-1"));
            assert!(matches!(&e[3].value, JsonValue::Bool(true)));
        }
        _ => panic!("an object"),
    }
}

#[test]
fn parses_bytes_and_text_alike() {
    let a = parse_json_bytes(br#"{"k": [1, 2.5, null, true]}"#).unwrap();
    match a.get("k") {
        Some(JsonValue::Array(items)) => {
            assert_eq!(items.len(), 4);
            assert!(matches!(&items[1], JsonValue::Number(n) if n == "2.5"));
            assert!(matches!(&items[2], JsonValue::Null));
        }
        _ => panic!("an array"),
    }
    assert!(parse_json_str("{").is_none());
}

#[test]
fn token_names_of_distinct_readings_differ() {
    assert_ne!(token_name_at(5), token_name_at(50));
    assert_ne!(token_name_at(10), token_name_at(1));
    assert_eq!(token_name_at(0), "ichat-0");
    assert_eq!(token_name_at(77), token_name_at(77));
}
