//! Token issuance and validation. A session token is an HS256-signed JWT
//! whose claim set carries a subject (the user's email), an absolute
//! expiry timestamp, and a role. Signing and signature checking are done
//! by the `jsonwebtoken` crate; expiry is checked here, in verified code,
//! against a caller-supplied clock reading, and must be strictly in the
//! future for the token to be accepted.

use vstd::prelude::*;

use crate::errors::AuthError;

verus! {

/// Lifetime of an issued session token, in seconds.
pub const TOKEN_TTL_SECS: u64 = 299;

/// The signed payload of a session token.
#[derive(Debug, Clone)]
pub struct Claims {
    /// Subject: the email of the user the token was issued to.
    pub sub: String,
    /// Absolute expiry, in seconds since the unix epoch.
    pub exp: u64,
    /// Role of the user at issuance time.
    pub role: String,
}

/// The mathematical content of a claim set.
pub struct ClaimsView {
    pub sub: Seq<char>,
    pub exp: u64,
    pub role: Seq<char>,
}

impl View for Claims {
    type V = ClaimsView;

    open spec fn view(&self) -> ClaimsView {
        ClaimsView { sub: self.sub@, exp: self.exp, role: self.role@ }
    }
}

pub open spec fn claims_view(sub: Seq<char>, exp: u64, role: Seq<char>) -> ClaimsView {
    ClaimsView { sub: sub, exp: exp, role: role }
}

/// The server's signing secret. One symmetric secret both signs and
/// checks tokens.
#[derive(Clone)]
pub struct Keys {
    pub secret: Vec<u8>,
}

/// The token that signing the claim set `(sub, exp, role)` with `secret`
/// produces. A deterministic function of its arguments; nothing is stated
/// about its value on given arguments, only the trusted items below
/// relate it to the `jsonwebtoken` crate's calls.
pub uninterp spec fn jwt_token_of(sub: Seq<char>, role: Seq<char>, exp: u64, secret: Seq<u8>) -> Seq<char>;

/// The claim set that decoding `token` under `secret` yields: `None` when
/// the token is malformed, its signature does not verify under `secret`,
/// or a claim is missing or ill-typed. A deterministic function of its
/// arguments, given no definition here.
pub uninterp spec fn jwt_claims_of(token: Seq<char>, secret: Seq<u8>) -> Option<ClaimsView>;

/// Sign a claim set.
///
/// Relies on `jsonwebtoken::encode` with `Header::default()` (HS256) and
/// `EncodingKey::from_secret(secret)`: signing always succeeds — the
/// key family matches the header's algorithm, HMAC-SHA256 takes a secret
/// of any length, and serializing the claims map cannot fail — the token
/// is a deterministic function of the claims and the secret, and
/// decoding it under the same secret yields the same claims back.
#[verifier::external_body]
fn jwt_encode(sub: &String, role: &String, exp: u64, secret: &Vec<u8>) -> (r: Option<String>)
    ensures
        r is Some,
        r matches Some(t) ==> t@ == jwt_token_of(sub@, role@, exp, secret@)
            && jwt_claims_of(t@, secret@) == Some(claims_view(sub@, exp, role@)),
{
    let mut claims = serde_json::Map::new();
    claims.insert("sub".to_string(), serde_json::Value::String(sub.clone()));
    claims.insert("exp".to_string(), serde_json::Value::from(exp));
    claims.insert("role".to_string(), serde_json::Value::String(role.clone()));
    let key = jsonwebtoken::EncodingKey::from_secret(secret);
    let body = serde_json::Value::Object(claims);
    jsonwebtoken::encode(&jsonwebtoken::Header::default(), &body, &key).ok()
}

/// Check a token's signature and extract its claims.
///
/// Relies on `jsonwebtoken::decode::<serde_json::Value>` with a
/// `Validation` restricted to HS256 that checks the signature only
/// (expiry is checked by `validate`, in verified code): the result is a
/// deterministic function of the token and the secret, and is `None`
/// exactly when decoding fails or a claim is missing or ill-typed.
#[verifier::external_body]
fn jwt_decode(token: &String, secret: &Vec<u8>) -> (r: Option<Claims>)
    ensures
        match r {
            Some(c) => jwt_claims_of(token@, secret@) == Some(c@),
            None => jwt_claims_of(token@, secret@) is None,
        },
{
    let mut validation = jsonwebtoken::Validation::new(jsonwebtoken::Algorithm::HS256);
    validation.validate_exp = false;
    validation.required_spec_claims.clear();
    let key = jsonwebtoken::DecodingKey::from_secret(secret);
    let data = jsonwebtoken::decode::<serde_json::Value>(token, &key, &validation).ok()?;
    let sub = data.claims.get("sub")?.as_str()?.to_string();
    let exp = data.claims.get("exp")?.as_u64()?;
    let role = data.claims.get("role")?.as_str()?.to_string();
    Some(Claims { sub: sub, exp: exp, role: role })
}

/// Build and sign a claim set expiring `ttl_seconds` after `now`.
/// Success is owed: with a symmetric secret and HS256 signing cannot
/// fail, so the `TokenCreation` arm of the error taxonomy is never
/// taken; the `Result` shape is kept for the callers' error handling.
pub fn issue(keys: &Keys, subject: String, role: String, now: u64, ttl_seconds: u64) -> (r: Result<
    String,
    AuthError,
>)
    requires
        now + ttl_seconds <= u64::MAX,
    ensures
        r is Ok,
        r matches Ok(t) ==> t@ == jwt_token_of(
            subject@,
            role@,
            (now + ttl_seconds) as u64,
            keys.secret@,
        ) && jwt_claims_of(t@, keys.secret@) == Some(
            claims_view(subject@, (now + ttl_seconds) as u64, role@),
        ),
{
    let exp = now + ttl_seconds;
    match jwt_encode(&subject, &role, exp, &keys.secret) {
        Some(t) => Ok(t),
        None => {
            proof {
                assert(false);
            }
            Err(AuthError::TokenCreation)
        },
    }
}

/// What validating `token` under `secret` at time `now` must return:
/// the claims when the signature verifies and the expiry lies strictly
/// in the future, and `InvalidToken` otherwise.
pub open spec fn spec_validate(token: Seq<char>, secret: Seq<u8>, now: u64) -> Result<
    ClaimsView,
    AuthError,
> {
    match jwt_claims_of(token, secret) {
        Some(cv) => if cv.exp > now {
            Ok(cv)
        } else {
            Err(AuthError::InvalidToken)
        },
        None => Err(AuthError::InvalidToken),
    }
}

/// A token whose claims decode — in particular, one freshly issued,
/// whose claims `issue` promises — validates exactly while the clock
/// stands strictly before its expiry, and is turned away as
/// `InvalidToken` from the expiry on.
pub proof fn lemma_token_expiry(token: Seq<char>, secret: Seq<u8>, cv: ClaimsView, at: u64)
    requires
        jwt_claims_of(token, secret) == Some(cv),
    ensures
        (spec_validate(token, secret, at) == Ok::<ClaimsView, AuthError>(cv)) <==> at < cv.exp,
        at >= cv.exp ==> spec_validate(token, secret, at) == Err::<ClaimsView, AuthError>(
            AuthError::InvalidToken,
        ),
{
}

/// Check a token's signature and expiry and give back its claims.
pub fn validate(keys: &Keys, token: &String, now: u64) -> (r: Result<Claims, AuthError>)
    ensures
        match r {
            Ok(c) => spec_validate(token@, keys.secret@, now) == Ok::<ClaimsView, AuthError>(c@),
            Err(e) => spec_validate(token@, keys.secret@, now) == Err::<ClaimsView, AuthError>(e),
        },
{
    match jwt_decode(token, &keys.secret) {
        Some(c) => {
            if c.exp > now {
                Ok(c)
            } else {
                Err(AuthError::InvalidToken)
            }
        },
        None => Err(AuthError::InvalidToken),
    }
}

} // verus!
