use ichat::auth::{
    copy_user, count_unmapped, ensure_external_users_mapped, is_seeded_admin, plan_external_user_upsert,
    remove_seeded_admin, unmapped_users_error, upsert_external_user, UserPreference,
    UserRecord, UserWrite,
};
use ichat::flow::{AuthAction, AuthFlow, AuthFlowKind};
use ichat::auth::ErrorKind;
use ichat::newapi::{ExternalIdentity, NewApiAuthClient};
use ichat::routes::{external_auth_response, local_login, login_response};
use ichat::token::{new_token, SessionKey, Token};

fn clone_row(u: &UserRecord) -> UserRecord {
    copy_user(u)
}

fn upsert(table: &mut Vec<UserRecord>, identity: ExternalIdentity, api_key: Option<String>) -> UserRecord {
    upsert_external_user(table, identity, api_key).ok().expect("upsert")
}

fn session_key() -> SessionKey {
    SessionKey::from_bytes(vec![7u8; 32]).expect("32-byte key")
}

/// Opens a token under the key of `session_key` and reads its `uid` and `exp`.
fn open_token(token: &str) -> (Option<i64>, Option<String>) {
    let key = pasetors::keys::SymmetricKey::<pasetors::version4::V4>::from(&[7u8; 32]).expect("32-byte key");
    let rules = pasetors::claims::ClaimsValidationRules::new();
    let untrusted = pasetors::token::UntrustedToken::<pasetors::Local, pasetors::version4::V4>::try_from(token).unwrap();
    let trusted = pasetors::local::decrypt(&key, &untrusted, &rules, None, None).expect("decrypts");
    let claims = trusted.payload_claims().unwrap();
    (
        claims.get_claim("uid").and_then(|v| v.as_i64()),
        claims.get_claim("exp").and_then(|v| v.as_str()).map(str::to_owned),
    )
}

#[test]
fn upsert_external_user_stores_and_updates_newapi_api_key() {
    let mut table: Vec<UserRecord> = Vec::new();

    let created = upsert(
        &mut table,
        ExternalIdentity { external_user_id: "42".to_owned(), username: "alice".to_owned() },
        Some("sk-first".to_owned()),
    );

    assert_eq!(created.name, "alice");
    assert_eq!(created.newapi_api_key.as_deref(), Some("sk-first"));

    let updated = upsert(
        &mut table,
        ExternalIdentity { external_user_id: "42".to_owned(), username: "alice-renamed".to_owned() },
        Some("sk-second".to_owned()),
    );

    assert_eq!(updated.name, "alice-renamed");
    assert_eq!(updated.newapi_api_key.as_deref(), Some("sk-second"));
    assert_eq!(updated.id, created.id);
    assert_eq!(table.len(), 1);
}

#[test]
fn distinct_external_users_get_distinct_rows() {
    let mut table: Vec<UserRecord> = Vec::new();
    let a = upsert(&mut table, ExternalIdentity { external_user_id: "1".to_owned(), username: "alice".to_owned() }, None);
    let b = upsert(&mut table, ExternalIdentity { external_user_id: "2".to_owned(), username: "alice".to_owned() }, None);
    assert_ne!(a.id, b.id);
}

#[test]
fn unchanged_user_is_kept_and_preferences_survive_updates() {
    let existing = UserRecord {
        id: 3,
        name: "bob".to_owned(),
        password: "hash".to_owned(),
        preference: UserPreference { theme: Some("dark".to_owned()), locale: None, submit_on_enter: Some(true) },
        external_user_id: Some("9".to_owned()),
        newapi_api_key: Some("sk-x".to_owned()),
    };
    let keep = plan_external_user_upsert(
        Some(clone_row(&existing)),
        ExternalIdentity { external_user_id: "9".to_owned(), username: "bob".to_owned() },
        Some("sk-x".to_owned()),
    );
    assert!(matches!(keep, UserWrite::Keep(_)));
    match plan_external_user_upsert(
        Some(existing),
        ExternalIdentity { external_user_id: "9".to_owned(), username: "bobby".to_owned() },
        None,
    ) {
        UserWrite::Update(u) => {
            assert_eq!(u.id, 3);
            assert_eq!(u.name, "bobby");
            assert_eq!(u.password, "hash");
            assert_eq!(u.preference.theme.as_deref(), Some("dark"));
            assert_eq!(u.newapi_api_key, None);
        }
        _ => panic!("a changed name is written"),
    }
}

fn seeded(name: &str, external: Option<&str>, id: i32) -> UserRecord {
    UserRecord {
        id,
        name: name.to_owned(),
        password: "p".to_owned(),
        preference: UserPreference { theme: None, locale: None, submit_on_enter: None },
        external_user_id: external.map(str::to_owned),
        newapi_api_key: None,
    }
}

#[test]
fn external_auth_allows_seeded_admin_cleanup() {
    let external_auth = NewApiAuthClient::from_env_values(
        Some("http://localhost".to_owned()),
        Some("New-Api-User".to_owned()),
        None,
    );
    let mut users = vec![seeded("admin", None, 1)];

    ensure_external_users_mapped(&mut users, external_auth.is_some())
        .expect("seeded admin should not block external auth startup");

    let user_count = users.len();
    assert_eq!(user_count, 0);
}

#[test]
fn unmapped_rows_block_external_auth_after_admin_removal() {
    let mut users = vec![seeded("root", None, 1), seeded("admin", None, 2), seeded("bob", Some("5"), 3), seeded("admin", None, 4)];
    assert_eq!(count_unmapped(&users), 3);
    let e = ensure_external_users_mapped(&mut users, true).err().unwrap();
    assert_eq!(e, "external auth is enabled, but 2 local users are missing external_user_id mappings");
    assert_eq!(users.iter().map(|u| u.id).collect::<Vec<_>>(), vec![1, 3, 4]);

    let mut users = vec![seeded("admin", None, 1)];
    assert!(ensure_external_users_mapped(&mut users, false).is_ok());
    assert_eq!(users.len(), 1);

    let mut users = vec![seeded("admin", Some("9"), 1)];
    remove_seeded_admin(&mut users);
    assert_eq!(users.len(), 1);
}

#[test]
fn unmapped_local_users_refuse_external_auth() {
    assert!(!is_seeded_admin(&seeded("admin", Some("1"), 1)));
    assert!(!is_seeded_admin(&seeded("root", None, 2)));
    assert_eq!(
        unmapped_users_error(true, 3).as_deref(),
        Some("external auth is enabled, but 3 local users are missing external_user_id mappings")
    );
    assert!(unmapped_users_error(false, 3).is_none());
}

#[test]
fn login_flow_reuses_stored_key() {
    let (mut flow, first) = AuthFlow::start(AuthFlowKind::Login);
    assert!(matches!(first, AuthAction::CallUpstream));
    let identity = ExternalIdentity { external_user_id: "7".to_owned(), username: "carol".to_owned() };
    match flow.on_upstream(Ok(identity)) {
        AuthAction::LookupStoredUser(id) => assert_eq!(id, "7"),
        _ => panic!("a login looks up the stored row"),
    }
    let mut stored = seeded("carol", Some("7"), 4);
    stored.newapi_api_key = Some("sk-kept".to_owned());
    match flow.on_stored_user(Ok(Some(stored))) {
        AuthAction::WriteUser(id, key) => {
            assert_eq!(id.external_user_id, "7");
            assert_eq!(key.as_deref(), Some("sk-kept"));
        }
        _ => panic!("the stored key is reused"),
    }
    assert!(matches!(flow.on_user_written(Ok(4)), AuthAction::MintToken(4)));
}

#[test]
fn register_flow_provisions_key_and_maps_errors() {
    let (mut flow, _) = AuthFlow::start(AuthFlowKind::Register);
    let identity = ExternalIdentity { external_user_id: "8".to_owned(), username: "dan".to_owned() };
    assert!(matches!(flow.on_upstream(Ok(identity)), AuthAction::ProvisionKey));
    match flow.on_provisioned_key(Err("quota".to_owned())) {
        AuthAction::Fail(e) => {
            assert!(matches!(e.error, ErrorKind::MalformedRequest));
            assert_eq!(e.reason, "quota");
        }
        _ => panic!("a failed provisioning fails"),
    }
    let (mut login, _) = AuthFlow::start(AuthFlowKind::Login);
    match login.on_upstream(Err("bad password".to_owned())) {
        AuthAction::Fail(e) => assert!(matches!(e.error, ErrorKind::LoginFail)),
        _ => panic!("a failed login fails"),
    }
}

#[test]
fn mints_token_with_expiry() {
    let key = session_key();
    let Token { token, exp } = new_token(&key, 12, 3600).ok().expect("token");
    assert!(token.starts_with("v4.local."));
    assert!(exp.len() >= 20);
    let (uid, opened_exp) = open_token(&token);
    assert_eq!(uid, Some(12));
    assert_eq!(opened_exp.as_deref(), Some(exp.as_str()));
}

/// Seconds since the Unix epoch of an RFC 3339 UTC time without fractions.
fn epoch_seconds(t: &str) -> i64 {
    assert!(t.ends_with('Z'), "{t}");
    let num = |a: usize, b: usize| t[a..b].parse::<i64>().unwrap();
    let (y, m, d) = (num(0, 4), num(5, 7), num(8, 10));
    let (hh, mm, ss) = (num(11, 13), num(14, 16), num(17, 19));
    let y = if m <= 2 { y - 1 } else { y };
    let era = y.div_euclid(400);
    let yoe = y - era * 400;
    let mp = (m + 9) % 12;
    let doy = (153 * mp + 2) / 5 + d - 1;
    let doe = yoe * 365 + yoe / 4 - yoe / 100 + doy;
    let days = era * 146097 + doe - 719468;
    days * 86400 + hh * 3600 + mm * 60 + ss
}

#[test]
fn token_expiry_is_the_lifetime_after_issue() {
    let key = session_key();
    assert_eq!(epoch_seconds("1970-01-02T00:00:01Z"), 86401);
    assert_eq!(epoch_seconds("2000-03-01T00:00:00Z"), 951868800);
    for secs in [1u64, 3600, 86400 * 400] {
        let Token { token, exp } = new_token(&key, 3, secs).ok().expect("token");
        let (iat, nbf) = open_times(&token);
        let iat = iat.unwrap();
        assert_eq!(nbf.as_deref(), Some(iat.as_str()));
        assert_eq!(epoch_seconds(&exp) - epoch_seconds(&iat), secs as i64);
    }
}

/// Opens a token under the key of `session_key` and reads its `iat` and `nbf`.
fn open_times(token: &str) -> (Option<String>, Option<String>) {
    let key = pasetors::keys::SymmetricKey::<pasetors::version4::V4>::from(&[7u8; 32]).expect("32-byte key");
    let mut rules = pasetors::claims::ClaimsValidationRules::new();
    rules.disable_valid_at();
    let untrusted = pasetors::token::UntrustedToken::<pasetors::Local, pasetors::version4::V4>::try_from(token).unwrap();
    let trusted = pasetors::local::decrypt(&key, &untrusted, &rules, None, None).expect("decrypts");
    let claims = trusted.payload_claims().unwrap();
    (
        claims.get_claim("iat").and_then(|v| v.as_str()).map(str::to_owned),
        claims.get_claim("nbf").and_then(|v| v.as_str()).map(str::to_owned),
    )
}

#[test]
fn session_key_needs_32_bytes() {
    assert!(SessionKey::from_bytes(vec![1u8; 31]).is_none());
    assert!(SessionKey::from_bytes(vec![1u8; 33]).is_none());
    assert!(SessionKey::from_bytes(vec![1u8; 32]).is_some());
}

#[test]
fn login_answer_carries_the_user_id() {
    let resp = login_response(&session_key(), 41, 60).ok().expect("token");
    assert_eq!(open_token(&resp.token), (Some(41), Some(resp.exp.clone())));
}

#[test]
fn seeded_admin_login_token_opens_to_admin_id() {
    let admin = seeded("admin", None, 1);
    let resp = local_login(&session_key(), Some(admin), true, 3600).ok().expect("logged in");
    assert_eq!(open_token(&resp.token).0, Some(1));
    let e = local_login(&session_key(), Some(seeded("admin", None, 1)), false, 3600).err().unwrap();
    assert!(matches!(e.error, ErrorKind::LoginFail));
    assert_eq!(e.reason, "");
    let e = local_login(&session_key(), None, true, 3600).err().unwrap();
    assert!(matches!(e.error, ErrorKind::LoginFail));
}

#[test]
fn external_login_with_stored_key_answers_for_that_row() {
    let mut stored = seeded("carol", Some("7"), 4);
    stored.newapi_api_key = Some("sk-kept".to_owned());
    let mut table = vec![seeded("admin", None, 1), stored];
    let identity = ExternalIdentity { external_user_id: "7".to_owned(), username: "carol".to_owned() };
    let resp = external_auth_response(&mut table, &session_key(), identity, Some("sk-kept".to_owned()), 3600)
        .ok()
        .expect("answered");
    assert_eq!(open_token(&resp.token).0, Some(4));
    assert_eq!(table.len(), 2);
    assert_eq!(table[1].newapi_api_key.as_deref(), Some("sk-kept"));
    assert_eq!(table[0].name, "admin");
}

#[test]
fn external_registration_adds_a_row_with_the_next_id() {
    let mut table = vec![seeded("bob", Some("1"), 9)];
    let identity = ExternalIdentity { external_user_id: "2".to_owned(), username: "eve".to_owned() };
    let resp = external_auth_response(&mut table, &session_key(), identity, Some("sk-new".to_owned()), 3600)
        .ok()
        .expect("answered");
    assert_eq!(open_token(&resp.token).0, Some(10));
    assert_eq!(table.len(), 2);
    assert_eq!(table[1].id, 10);
    assert_eq!(table[1].password, "");
    assert_eq!(table[1].external_user_id.as_deref(), Some("2"));
}

#[test]
fn no_id_left_refuses_a_new_row() {
    let mut table = vec![seeded("bob", Some("1"), i32::MAX)];
    let identity = ExternalIdentity { external_user_id: "2".to_owned(), username: "eve".to_owned() };
    let e = upsert_external_user(&mut table, identity, None).err().unwrap();
    assert!(matches!(e.error, ErrorKind::Internal));
    assert_eq!(table.len(), 1);
    let identity = ExternalIdentity { external_user_id: "1".to_owned(), username: "bobby".to_owned() };
    let m = upsert_external_user(&mut table, identity, None).ok().unwrap();
    assert_eq!(m.id, i32::MAX);
    assert_eq!(table[0].name, "bobby");
}
