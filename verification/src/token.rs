//! The local session token: a PASETO v4 local token whose claims carry the
//! local user id and an expiry.

use vstd::prelude::*;
use crate::auth::{ApiError, ErrorKind};
use crate::fields::opt_view;
use crate::text::has_prefix;

verus! {

/// `pasetors::claims::Claims`, a set of named JSON claims, opaque here.
#[verifier::external_type_specification]
#[verifier::external_body]
pub struct ExPasetoClaims(pasetors::claims::Claims);


/// The claims of a claim set whose values are JSON strings, by name.
pub uninterp spec fn claim_texts(c: pasetors::claims::Claims) -> Map<Seq<char>, Seq<char>>;

/// The claims of a claim set whose values are JSON integers, by name.
pub uninterp spec fn claim_integers(c: pasetors::claims::Claims) -> Map<Seq<char>, int>;

/// The text and integer claims, by name, that `pasetors` opens a
/// `v4.local.` token into under a key (decryption and the parse of the
/// claims, without the validation of their times), or `None` where the
/// token does not open.
pub uninterp spec fn v4_local_open(key: Seq<u8>, token: Seq<char>) -> Option<(Map<Seq<char>, Seq<char>>, Map<Seq<char>, int>)>;

/// The RFC 3339 text that the `time` crate formats for the UTC instant `t`
/// whole seconds after the Unix epoch (its nanoseconds set to zero).
pub uninterp spec fn rfc3339_seconds(t: int) -> Seq<char>;

/// The time claims of a claim set expiring `secs` seconds after it was
/// issued: `iat` and `nbf` are the issuing second and `exp` lies `secs`
/// seconds later, all as RFC 3339 texts.
pub open spec fn issued_for(texts: Map<Seq<char>, Seq<char>>, secs: int) -> bool {
    &&& texts.contains_key("iat"@)
    &&& texts.contains_key("nbf"@)
    &&& texts.contains_key("exp"@)
    &&& exists|e: int| #[trigger] rfc3339_seconds(e) == texts["exp"@]
        && texts["iat"@] == rfc3339_seconds(e - secs) && texts["nbf"@] == rfc3339_seconds(e - secs)
}

/// The longest expiry a token may be given: 100 years (of 365.25 days)
/// in seconds. The clock plus this stays within the dates the `time`
/// crate represents (up to the year 9999) for any clock before the year
/// 9899.
pub const MAX_TOKEN_LIFETIME_SECS: u64 = 3155760000;

/// The claims that PASETO reserves; `add_additional` refuses them.
pub open spec fn registered_claim(name: Seq<char>) -> bool {
    name == "iss"@ || name == "sub"@ || name == "aud"@ || name == "exp"@ || name == "nbf"@
        || name == "iat"@ || name == "jti"@
}

/// Calls `Claims::new`, which sets `iat`, `nbf` and `exp` (an hour on)
/// from the current time, as texts. Claims that on success `exp` is a text
/// claim; the times are the clock's.
#[verifier::external_body]
fn claims_new() -> (r: Result<pasetors::claims::Claims, String>)
    ensures
        r matches Ok(c) ==> claim_texts(c).dom().contains("exp"@),
{
    pasetors::claims::Claims::new().map_err(|e| e.to_string())
}

/// Calls `Claims::set_expires_in`, which reads the clock and sets `iat` and
/// `nbf` to the current second and `exp` to `secs` seconds later, each
/// formatted as RFC 3339 with the nanoseconds dropped; the other claims
/// stay. Claims exactly that on success; which second it is comes from the
/// clock. The bound on `secs` keeps the expiry within the dates of the
/// `time` crate, whose date arithmetic panics beyond them.
#[verifier::external_body]
fn claims_set_expires_in(c: &mut pasetors::claims::Claims, secs: u64) -> (r: Result<(), String>)
    requires
        secs <= MAX_TOKEN_LIFETIME_SECS,
    ensures
        r is Ok ==> claim_texts(*final(c)).contains_key("iat"@) && claim_texts(*final(c)).contains_key("nbf"@)
            && claim_texts(*final(c)).contains_key("exp"@),
        r is Ok ==> exists|e: int| #[trigger] rfc3339_seconds(e) == claim_texts(*final(c))["exp"@]
            && claim_texts(*final(c))["iat"@] == rfc3339_seconds(e - secs)
            && claim_texts(*final(c))["nbf"@] == rfc3339_seconds(e - secs),
{
    c.set_expires_in(&std::time::Duration::from_secs(secs)).map_err(|e| e.to_string())
}

/// Calls `Claims::add_additional` with an integer: it refuses exactly the
/// reserved names, and otherwise sets the claim to a number, so that the
/// other text claims stay as they were.
#[verifier::external_body]
fn claims_add_integer(c: &mut pasetors::claims::Claims, name: &str, value: i32) -> (r: Result<(), String>)
    ensures
        r is Ok <==> !registered_claim(name@),
        r is Ok ==> claim_texts(*final(c)) == claim_texts(*old(c)).remove(name@),
        r is Ok ==> claim_integers(*final(c)) == claim_integers(*old(c)).insert(name@, value as int),
        r is Err ==> claim_texts(*final(c)) == claim_texts(*old(c)),
{
    c.add_additional(name, value).map_err(|e| e.to_string())
}

/// Calls `Claims::get_claim` and reads the value as a string: the text of
/// a text claim, nothing for another claim or none.
#[verifier::external_body]
fn claims_text(c: &pasetors::claims::Claims, name: &str) -> (r: Option<String>)
    ensures
        opt_view(r) == (if claim_texts(*c).dom().contains(name@) {
            Some(claim_texts(*c)[name@])
        } else {
            None
        }),
{
    c.get_claim(name).and_then(|v| v.as_str()).map(|s| s.to_string())
}

/// Builds the `pasetors` key from its 32 bytes (`SymmetricKey::from`) and
/// calls `pasetors::local::encrypt` with no footer and no implicit
/// assertion. Claims that a token begins with the `v4.local.` header and
/// opens under the same key to the same text and integer claims, as the
/// source's encryption and decryption show; the rest of the token holds a
/// random nonce.
#[verifier::external_body]
fn paseto_local_encrypt(key: &[u8], c: &pasetors::claims::Claims) -> (r: Result<String, String>)
    requires
        key@.len() == 32,
    ensures
        r matches Ok(t) ==> has_prefix(t@, "v4.local."@)
            && v4_local_open(key@, t@) == Some((claim_texts(*c), claim_integers(*c))),
{
    match pasetors::keys::SymmetricKey::<pasetors::version4::V4>::from(key) {
        Ok(k) => pasetors::local::encrypt(&k, c, None, None).map_err(|e| e.to_string()),
        Err(e) => Err(e.to_string()),
    }
}

/// The server's key for session tokens: 32 bytes.
pub struct SessionKey {
    bytes: Vec<u8>,
}

impl SessionKey {
    /// The key bytes.
    pub closed spec fn view(&self) -> Seq<u8> {
        self.bytes@
    }

    #[verifier::type_invariant]
    closed spec fn wf(&self) -> bool {
        self.bytes@.len() == 32
    }

    /// The key of these bytes; a PASETO v4 local key has 32 bytes, and
    /// other lengths are refused.
    pub fn from_bytes(bytes: Vec<u8>) -> (r: Option<SessionKey>)
        ensures
            bytes@.len() == 32 ==> (r matches Some(k) && k.view() == bytes@),
            bytes@.len() != 32 ==> r is None,
    {
        if bytes.len() == 32 {
            Some(SessionKey { bytes })
        } else {
            None
        }
    }
}

/// The token opens under the key to claims whose `uid` is the user id,
/// whose `exp` is the given expiry, and which expire `secs` seconds after
/// they were issued.
pub open spec fn token_opens_to(key: Seq<u8>, token: Seq<char>, exp: Seq<char>, user_id: int, secs: int) -> bool {
    &&& has_prefix(token, "v4.local."@)
    &&& v4_local_open(key, token) matches Some((texts, ints))
    &&& ints.contains_key("uid"@)
    &&& ints["uid"@] == user_id
    &&& texts.contains_key("exp"@)
    &&& texts["exp"@] == exp
    &&& issued_for(texts, secs)
}

/// A session token and its expiry.
pub struct Token {
    pub token: String,
    pub exp: String,
}

/// The claims of a session token for a local user: `uid` is the user id,
/// and `exp` lies `expires_in_secs` after the current time. A failure of
/// the clock is an internal error.
pub fn token_claims(user_id: i32, expires_in_secs: u64) -> (r: Result<pasetors::claims::Claims, ApiError>)
    requires
        expires_in_secs <= MAX_TOKEN_LIFETIME_SECS,
    ensures
        r matches Ok(c) ==> (issued_for(claim_texts(c), expires_in_secs as int)
            && claim_integers(c).dom().contains("uid"@) && claim_integers(c)["uid"@] == user_id as int),
        r matches Err(e) ==> e.error is Internal,
{
    let mut claims = match claims_new() {
        Ok(c) => c,
        Err(reason) => return Err(ApiError { error: ErrorKind::Internal, reason }),
    };
    match claims_set_expires_in(&mut claims, expires_in_secs) {
        Ok(()) => {},
        Err(reason) => return Err(ApiError { error: ErrorKind::Internal, reason }),
    }
    proof {
        reveal_strlit("uid");
        reveal_strlit("iss");
        reveal_strlit("sub");
        reveal_strlit("aud");
        reveal_strlit("exp");
        reveal_strlit("nbf");
        reveal_strlit("iat");
        reveal_strlit("jti");
        assert("uid"@[0] != "iss"@[0] && "uid"@[0] != "sub"@[0] && "uid"@[0] != "aud"@[0]);
        assert("uid"@[0] != "exp"@[0] && "uid"@[0] != "nbf"@[0] && "uid"@[0] != "iat"@[0] && "uid"@[0] != "jti"@[0]);
        assert(!registered_claim("uid"@));
        assert("uid"@ != "exp"@ && "uid"@ != "iat"@ && "uid"@ != "nbf"@);
    }
    let added = claims_add_integer(&mut claims, "uid", user_id);
    assert(added is Ok);
    Ok(claims)
}

/// Encrypts the claims into a session token under the key; the token
/// opens under the key to these claims, and the expiry handed back is the
/// claims' `exp`. A failure of the encryption is an internal error.
pub fn seal_token(key: &SessionKey, claims: &pasetors::claims::Claims) -> (r: Result<Token, ApiError>)
    requires
        claim_texts(*claims).dom().contains("exp"@),
    ensures
        r matches Ok(t) ==> t.exp@ == claim_texts(*claims)["exp"@] && has_prefix(t.token@, "v4.local."@)
            && v4_local_open(key.view(), t.token@) == Some((claim_texts(*claims), claim_integers(*claims))),
        r matches Err(e) ==> e.error is Internal,
{
    proof { use_type_invariant(key); }
    let exp = match claims_text(claims, "exp") {
        Some(e) => e,
        None => {
            assert(false);
            return Err(ApiError { error: ErrorKind::Internal, reason: String::new() });
        },
    };
    match paseto_local_encrypt(key.bytes.as_slice(), claims) {
        Ok(token) => Ok(Token { token, exp }),
        Err(reason) => Err(ApiError { error: ErrorKind::Internal, reason }),
    }
}

/// Mints a session token for a local user: claims with the user id as
/// `uid` and an expiry `expires_in_secs` from now, encrypted under the
/// key into a `v4.local.` token that opens under the key to those claims;
/// the expiry handed back is the claims' `exp`. A failure of the clock or of the encryption is an internal error.
pub fn new_token(key: &SessionKey, user_id: i32, expires_in_secs: u64) -> (r: Result<Token, ApiError>)
    requires
        expires_in_secs <= MAX_TOKEN_LIFETIME_SECS,
    ensures
        r matches Ok(t) ==> token_opens_to(key.view(), t.token@, t.exp@, user_id as int, expires_in_secs as int),
        r matches Err(e) ==> e.error is Internal,
{
    let claims = match token_claims(user_id, expires_in_secs) {
        Ok(c) => c,
        Err(e) => return Err(e),
    };
    seal_token(key, &claims)
}

} // verus!
