//! The server's startup configuration, from the values of its environment
//! variables.

use vstd::prelude::*;
use crate::newapi::concat;

verus! {

/// The address the server listens on unless `BIND_ADDR` is set.
pub open spec fn default_bind_addr() -> Seq<char> {
    "0.0.0.0:80"@
}

/// The upstream API base unless `API_BASE` or `OPENAI_API_BASE` is set.
pub open spec fn default_api_base() -> Seq<char> {
    "https://openrouter.ai/api"@
}

/// The lower case of a text, as `str::to_lowercase` makes it.
pub uninterp spec fn lowercase(s: Seq<char>) -> Seq<char>;

/// Calls `str::to_lowercase`. Claims only that the result is a function of
/// the text (named `lowercase`); the case mapping is Unicode's.
#[verifier::external_body]
fn to_lowercase(s: &str) -> (r: String)
    ensures
        r@ == lowercase(s@),
{
    s.to_lowercase()
}

/// `base` with the relative path `name` appended, as `PathBuf::push`
/// appends on Unix: a `/` goes between unless `base` is empty or ends
/// with one.
pub open spec fn join_path(base: Seq<char>, name: Seq<char>) -> Seq<char> {
    if base.len() == 0 || base.last() == '/' {
        base + name
    } else {
        base + seq!['/'] + name
    }
}

/// `s` with every `\` replaced by `/`.
pub open spec fn forward_slashes(s: Seq<char>) -> Seq<char> {
    s.map_values(|c: char| if c == '\\' { '/' } else { c })
}

/// The API key: `API_KEY`, else `OPENAI_API_KEY`; without either the
/// server cannot start.
pub fn choose_api_key(api_key: Option<String>, openai_api_key: Option<String>) -> (r: Option<String>)
    ensures
        api_key is Some ==> r == api_key,
        api_key is None ==> r == openai_api_key,
{
    match api_key {
        Some(k) => Some(k),
        None => openai_api_key,
    }
}

/// The upstream API base: `API_BASE`, else `OPENAI_API_BASE`, else the
/// OpenRouter API.
pub fn choose_api_base(api_base: Option<String>, openai_api_base: Option<String>) -> (r: String)
    ensures
        r@ == (match api_base {
            Some(b) => b@,
            None => match openai_api_base {
                Some(b) => b@,
                None => default_api_base(),
            },
        }),
{
    match api_base {
        Some(b) => b,
        None => match openai_api_base {
            Some(b) => b,
            None => String::from_str("https://openrouter.ai/api"),
        },
    }
}

/// Whether `FORCE_OPENROUTER_MODE` is on: `true` in any case, or `1`.
pub fn force_openrouter_mode(value: Option<String>) -> (r: bool)
    ensures
        r == (match value {
            Some(v) => lowercase(v@) == "true"@ || v@ == "1"@,
            None => false,
        }),
{
    match value {
        Some(v) => {
            let lower = to_lowercase(v.as_str());
            crate::text::str_eq(lower.as_str(), "true") || crate::text::str_eq(v.as_str(), "1")
        },
        None => false,
    }
}

/// `base` with the relative path `name` appended.
pub fn push_path(base: &str, name: &str) -> (r: String)
    ensures
        r@ == join_path(base@, name@),
{
    let n = base.unicode_len();
    proof { reveal_strlit("/"); }
    if n == 0 || base.get_char(n - 1) == '/' {
        concat(base, name)
    } else {
        crate::newapi::concat3(base, "/", name)
    }
}

/// `s` with every `\` replaced by `/`.
pub fn replace_backslashes(s: &str) -> (r: String)
    ensures
        r@ == forward_slashes(s@),
{
    let n = s.unicode_len();
    let mut out = String::new();
    let mut i: usize = 0;
    while i < n
        invariant
            n == s@.len(),
            i <= n,
            out@ == forward_slashes(s@.subrange(0, i as int)),
        decreases n - i,
    {
        let c = s.get_char(i);
        if c == '\\' {
            out.append("/");
        } else {
            out.append(s.substring_char(i, i + 1));
        }
        proof {
            reveal_strlit("/");
            assert(s@.subrange(0, i + 1) =~= s@.subrange(0, i as int).push(c));
            assert(forward_slashes(s@.subrange(0, i + 1)) =~= forward_slashes(s@.subrange(0, i as int)).push(
                if c == '\\' { '/' } else { c },
            ));
        }
        i = i + 1;
    }
    assert(s@.subrange(0, n as int) =~= s@);
    out
}

/// Where everything is stored: `DATA_PATH`, else the working directory.
pub fn data_path(value: Option<String>) -> (r: String)
    ensures
        r@ == (match value {
            Some(v) => v@,
            None => "."@,
        }),
{
    match value {
        Some(v) => v,
        None => String::from_str("."),
    }
}

/// The database URL: the file `db.sqlite` in the data path, with forward
/// slashes, opened for reading, writing and creation.
pub fn database_url(data_path: &str) -> (r: String)
    ensures
        r@ == "sqlite://"@ + forward_slashes(join_path(data_path@, "db.sqlite"@)) + "?mode=rwc"@,
{
    let file = push_path(data_path, "db.sqlite");
    let path = replace_backslashes(file.as_str());
    crate::newapi::concat3("sqlite://", path.as_str(), "?mode=rwc")
}

/// The blob store: the file `blobs.redb` in the data path.
pub fn blob_path(data_path: &str) -> (r: String)
    ensures
        r@ == join_path(data_path@, "blobs.redb"@),
{
    push_path(data_path, "blobs.redb")
}

/// The address to listen on: `BIND_ADDR`, else every interface on port 80.
pub fn bind_addr(value: Option<String>) -> (r: String)
    ensures
        r@ == (match value {
            Some(v) => v@,
            None => default_bind_addr(),
        }),
{
    match value {
        Some(v) => v,
        None => String::from_str("0.0.0.0:80"),
    }
}

/// The values of the environment variables the server reads.
pub struct EnvValues {
    pub api_key: Option<String>,
    pub openai_api_key: Option<String>,
    pub api_base: Option<String>,
    pub openai_api_base: Option<String>,
    pub force_openrouter_mode: Option<String>,
    pub data_path: Option<String>,
    pub bind_addr: Option<String>,
    pub trusted_header: Option<String>,
    pub newapi_auth_base: Option<String>,
    pub newapi_auth_user_header: Option<String>,
    pub newapi_auth_bearer: Option<String>,
}

/// What the server starts with.
pub struct StartupConfig {
    pub api_key: String,
    pub api_base: String,
    pub force_openrouter: bool,
    pub database_url: String,
    pub blob_path: String,
    pub bind_addr: String,
    pub auth_header: Option<String>,
    pub newapi_auth: Option<crate::newapi::NewApiAuthClient>,
}

/// The startup configuration, or `None` where no API key is set (the
/// server then explains and exits).
pub fn startup_config(env: EnvValues) -> (r: Option<StartupConfig>)
    ensures
        env.api_key is None && env.openai_api_key is None ==> r is None,
        !(env.api_key is None && env.openai_api_key is None) ==> (r matches Some(c) && {
            let data = match env.data_path {
                Some(v) => v@,
                None => "."@,
            };
            &&& Some(c.api_key) == (if env.api_key is Some { env.api_key } else { env.openai_api_key })
            &&& c.api_base@ == (match env.api_base {
                Some(b) => b@,
                None => match env.openai_api_base {
                    Some(b) => b@,
                    None => default_api_base(),
                },
            })
            &&& c.force_openrouter == (match env.force_openrouter_mode {
                Some(v) => lowercase(v@) == "true"@ || v@ == "1"@,
                None => false,
            })
            &&& c.database_url@ == "sqlite://"@ + forward_slashes(join_path(data, "db.sqlite"@)) + "?mode=rwc"@
            &&& c.blob_path@ == join_path(data, "blobs.redb"@)
            &&& c.bind_addr@ == (match env.bind_addr {
                Some(v) => v@,
                None => default_bind_addr(),
            })
            &&& c.auth_header == env.trusted_header
            &&& (env.newapi_auth_base is None <==> c.newapi_auth is None)
            &&& (c.newapi_auth matches Some(n) ==> (n.base_url@ == crate::newapi::trim_trailing_slashes(env.newapi_auth_base.unwrap()@)
                && n.user_header@ == (match env.newapi_auth_user_header {
                    Some(h) => h@,
                    None => "New-Api-User"@,
                })
                && n.service_bearer == env.newapi_auth_bearer))
        }),
{
    let api_key = match choose_api_key(env.api_key, env.openai_api_key) {
        Some(k) => k,
        None => return None,
    };
    let api_base = choose_api_base(env.api_base, env.openai_api_base);
    let force_openrouter = force_openrouter_mode(env.force_openrouter_mode);
    let data = data_path(env.data_path);
    let database_url = database_url(data.as_str());
    let blob_path = blob_path(data.as_str());
    let bind_addr = bind_addr(env.bind_addr);
    let newapi_auth = crate::newapi::NewApiAuthClient::from_env_values(
        env.newapi_auth_base,
        env.newapi_auth_user_header,
        env.newapi_auth_bearer,
    );
    Some(StartupConfig {
        api_key,
        api_base,
        force_openrouter,
        database_url,
        blob_path,
        bind_addr,
        auth_header: env.trusted_header,
        newapi_auth,
    })
}

} // verus!
