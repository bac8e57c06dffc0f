use ichat::config::{database_url, push_path, replace_backslashes, startup_config, EnvValues};
use ichat::text::{i64_to_decimal, split_once_char, starts_with, str_eq, strip_prefix, u128_to_decimal, u64_to_decimal};

fn env() -> EnvValues {
    EnvValues {
        api_key: None,
        openai_api_key: None,
        api_base: None,
        openai_api_base: None,
        force_openrouter_mode: None,
        data_path: None,
        bind_addr: None,
        trusted_header: None,
        newapi_auth_base: None,
        newapi_auth_user_header: None,
        newapi_auth_bearer: None,
    }
}

#[test]
fn startup_needs_an_api_key() {
    assert!(startup_config(env()).is_none());
    let mut e = env();
    e.openai_api_key = Some("k2".to_owned());
    let c = startup_config(e).unwrap();
    assert_eq!(c.api_key, "k2");
    assert_eq!(c.api_base, "https://openrouter.ai/api");
    assert!(!c.force_openrouter);
    assert_eq!(c.database_url, "sqlite://./db.sqlite?mode=rwc");
    assert_eq!(c.blob_path, "./blobs.redb");
    assert_eq!(c.bind_addr, "0.0.0.0:80");
    assert!(c.newapi_auth.is_none());
}

#[test]
fn startup_reads_every_variable() {
    let mut e = env();
    e.api_key = Some("k1".to_owned());
    e.openai_api_key = Some("k2".to_owned());
    e.openai_api_base = Some("https://b".to_owned());
    e.force_openrouter_mode = Some("TRUE".to_owned());
    e.data_path = Some("/data/".to_owned());
    e.bind_addr = Some("127.0.0.1:3000".to_owned());
    e.trusted_header = Some("X-User".to_owned());
    e.newapi_auth_base = Some("https://aiapi.example/".to_owned());
    let c = startup_config(e).unwrap();
    assert_eq!(c.api_key, "k1");
    assert_eq!(c.api_base, "https://b");
    assert!(c.force_openrouter);
    assert_eq!(c.database_url, "sqlite:///data/db.sqlite?mode=rwc");
    assert_eq!(c.blob_path, "/data/blobs.redb");
    assert_eq!(c.bind_addr, "127.0.0.1:3000");
    assert_eq!(c.auth_header.as_deref(), Some("X-User"));
    let n = c.newapi_auth.unwrap();
    assert_eq!(n.base_url, "https://aiapi.example");
    assert_eq!(n.user_header, "New-Api-User");
}

#[test]
fn force_mode_accepts_one_and_true_only() {
    for (v, on) in [("1", true), ("true", true), ("True", true), ("yes", false), ("0", false)] {
        let mut e = env();
        e.api_key = Some("k".to_owned());
        e.force_openrouter_mode = Some(v.to_owned());
        assert_eq!(startup_config(e).unwrap().force_openrouter, on, "{v}");
    }
}

#[test]
fn paths_join_like_unix_pathbuf() {
    assert_eq!(push_path("", "db.sqlite"), "db.sqlite");
    assert_eq!(push_path("a", "db.sqlite"), "a/db.sqlite");
    assert_eq!(push_path("a/", "db.sqlite"), "a/db.sqlite");
    assert_eq!(replace_backslashes("C:\\data\\x"), "C:/data/x");
    assert_eq!(database_url("C:\\data"), "sqlite://C:\\data/db.sqlite?mode=rwc".replace('\\', "/"));
}

#[test]
fn decimal_text_matches_to_string() {
    for n in [0u64, 7, 10, 99, 100, 12345, u64::MAX] {
        assert_eq!(u64_to_decimal(n), n.to_string());
    }
    assert_eq!(u128_to_decimal(u128::MAX), u128::MAX.to_string());
    for n in [0i64, -1, 42, i64::MIN, i64::MAX] {
        assert_eq!(i64_to_decimal(n), n.to_string());
    }
}

#[test]
fn text_helpers() {
    assert!(str_eq("abc", "abc"));
    assert!(!str_eq("abc", "abd"));
    assert!(starts_with("data:x", "data:"));
    assert!(!starts_with("da", "data:"));
    assert_eq!(strip_prefix("base64,QQ==", "base64,"), Some("QQ=="));
    assert_eq!(split_once_char("image/png;base64,x;y", ';'), Some(("image/png", "base64,x;y")));
    assert_eq!(split_once_char("nothing", ';'), None);
}
