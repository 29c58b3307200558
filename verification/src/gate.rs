//! The access gate that guards protected routes. One code path serves
//! both token carriers: the `Authorization: Bearer <token>` header and
//! the `accessToken` cookie. One gate takes the carrier, an optional
//! required role, and whether the subject is looked up again in the
//! credential store; each route picks its own policy at composition
//! time.

use vstd::prelude::*;

use crate::cookies::{cookie_token, spec_cookie_value};
use crate::errors::AuthError;
use crate::store::{spec_find, User, UserRepository, UserView};
use crate::strutil::str_eq;
use crate::token::{jwt_claims_of, validate, Claims, ClaimsView, Keys};

verus! {

/// Where a request carries its session token.
#[derive(Clone, Copy, Debug, PartialEq, Eq, Structural)]
pub enum TokenCarrier {
    /// An `Authorization: Bearer <token>` header.
    Bearer,
    /// A `Cookie` header holding an `accessToken` cookie.
    Cookie,
}

/// The error a gate reports when the request carries no token: the
/// bearer gate names the missing token, the cookie gate only refuses.
pub open spec fn carrier_missing_err(c: TokenCarrier) -> AuthError {
    match c {
        TokenCarrier::Bearer => AuthError::MissingToken,
        TokenCarrier::Cookie => AuthError::Forbidden,
    }
}

/// The error a gate reports for a token it cannot accept.
pub open spec fn carrier_invalid_err(c: TokenCarrier) -> AuthError {
    match c {
        TokenCarrier::Bearer => AuthError::InvalidToken,
        TokenCarrier::Cookie => AuthError::Forbidden,
    }
}

/// The token of a `Bearer <token>` header value, if the prefix is there.
pub open spec fn spec_bearer(h: Seq<char>) -> Option<Seq<char>> {
    if h.len() >= 7 && h.subrange(0, 7) == "Bearer "@ {
        Some(h.subrange(7, h.len() as int))
    } else {
        None
    }
}

/// The token the carrier finds in its header value.
pub open spec fn spec_extract(c: TokenCarrier, h: Seq<char>) -> Option<Seq<char>> {
    match c {
        TokenCarrier::Bearer => spec_bearer(h),
        TokenCarrier::Cookie => spec_cookie_value(h, "accessToken"@, 0),
    }
}

pub open spec fn view_opt_str(h: Option<&String>) -> Option<Seq<char>> {
    match h {
        Some(s) => Some(s@),
        None => None,
    }
}

pub open spec fn view_opt_user(u: Option<User>) -> Option<UserView> {
    match u {
        Some(x) => Some(x@),
        None => None,
    }
}

/// The unified gate as a mathematical function of the store, the
/// secret, the route's policy, the clock, and the one interesting
/// header of the request.
pub open spec fn spec_authorize(
    repo: Seq<UserView>,
    secret: Seq<u8>,
    carrier: TokenCarrier,
    required_role: Option<Seq<char>>,
    refetch: bool,
    header: Option<Seq<char>>,
    now: u64,
) -> Result<(Option<UserView>, ClaimsView), AuthError> {
    match header {
        None => Err(carrier_missing_err(carrier)),
        Some(h) => match spec_extract(carrier, h) {
            None => Err(carrier_missing_err(carrier)),
            Some(tok) => match jwt_claims_of(tok, secret) {
                None => Err(carrier_invalid_err(carrier)),
                Some(cv) => if cv.exp <= now {
                    Err(carrier_invalid_err(carrier))
                } else if (match required_role {
                    Some(role) => cv.role != role,
                    None => false,
                }) {
                    Err(AuthError::Forbidden)
                } else if !refetch {
                    Ok((None, cv))
                } else {
                    match spec_find(repo, cv.sub) {
                        None => Err(carrier_invalid_err(carrier)),
                        Some(u) => Ok((Some(u), cv)),
                    }
                },
            },
        },
    }
}

/// A request is let through exactly if it carries a token whose
/// signature verifies, whose expiry lies strictly in the future, whose
/// role claim meets the requirement, and, if the subject is looked up
/// again, whose subject is still on record; every other request is
/// turned away with the carrier's error.
pub proof fn lemma_gate_decision(
    repo: Seq<UserView>,
    secret: Seq<u8>,
    carrier: TokenCarrier,
    required_role: Option<Seq<char>>,
    refetch: bool,
    header: Option<Seq<char>>,
    now: u64,
)
    ensures
        (spec_authorize(repo, secret, carrier, required_role, refetch, header, now) is Ok) <==> {
            &&& header matches Some(h)
            &&& spec_extract(carrier, h) matches Some(tok)
            &&& jwt_claims_of(tok, secret) matches Some(cv)
            &&& cv.exp > now
            &&& (match required_role {
                Some(role) => cv.role == role,
                None => true,
            })
            &&& (refetch ==> spec_find(repo, cv.sub) is Some)
        },
{
}

/// Extract the token of an `Authorization: Bearer <token>` header value.
fn extract_bearer(header: &str) -> (r: Option<String>)
    ensures
        match r {
            Some(t) => spec_bearer(header@) == Some(t@),
            None => spec_bearer(header@) is None,
        },
{
    let n = header.unicode_len();
    if n >= 7 {
        if str_eq(header.substring_char(0, 7), "Bearer ") {
            return Some(header.substring_char(7, n).to_owned());
        }
    }
    None
}

/// Run a request's header value through the unified gate: extract the
/// token as the carrier does, validate it, enforce the required role
/// against the token's role claim, and, if asked to, look the subject up
/// again.
pub fn authorize(
    repo: &UserRepository,
    keys: &Keys,
    carrier: TokenCarrier,
    required_role: Option<&String>,
    refetch_user: bool,
    header: Option<&String>,
    now: u64,
) -> (r: Result<(Option<User>, Claims), AuthError>)
    ensures
        match r {
            Ok(p) => spec_authorize(
                repo@,
                keys.secret@,
                carrier,
                view_opt_str(required_role),
                refetch_user,
                view_opt_str(header),
                now,
            ) == Ok::<(Option<UserView>, ClaimsView), AuthError>((view_opt_user(p.0), p.1@)),
            Err(e) => spec_authorize(
                repo@,
                keys.secret@,
                carrier,
                view_opt_str(required_role),
                refetch_user,
                view_opt_str(header),
                now,
            ) == Err::<(Option<UserView>, ClaimsView), AuthError>(e),
        },
{
    let h = match header {
        None => {
            return Err(missing_err(carrier));
        },
        Some(h) => h,
    };
    let token = match extract_token(carrier, h) {
        None => {
            return Err(missing_err(carrier));
        },
        Some(t) => t,
    };
    let claims = match validate(keys, &token, now) {
        Err(_) => {
            return Err(invalid_err(carrier));
        },
        Ok(c) => c,
    };
    if let Some(role) = required_role {
        if !str_eq(claims.role.as_str(), role.as_str()) {
            return Err(AuthError::Forbidden);
        }
    }
    if !refetch_user {
        return Ok((None, claims));
    }
    match repo.find_by_email(&claims.sub) {
        None => Err(invalid_err(carrier)),
        Some(u) => Ok((Some(u), claims)),
    }
}

fn missing_err(carrier: TokenCarrier) -> (r: AuthError)
    ensures
        r == carrier_missing_err(carrier),
{
    match carrier {
        TokenCarrier::Bearer => AuthError::MissingToken,
        TokenCarrier::Cookie => AuthError::Forbidden,
    }
}

fn invalid_err(carrier: TokenCarrier) -> (r: AuthError)
    ensures
        r == carrier_invalid_err(carrier),
{
    match carrier {
        TokenCarrier::Bearer => AuthError::InvalidToken,
        TokenCarrier::Cookie => AuthError::Forbidden,
    }
}

fn extract_token(carrier: TokenCarrier, h: &String) -> (r: Option<String>)
    ensures
        match r {
            Some(t) => spec_extract(carrier, h@) == Some(t@),
            None => spec_extract(carrier, h@) is None,
        },
{
    match carrier {
        TokenCarrier::Bearer => extract_bearer(h.as_str()),
        TokenCarrier::Cookie => cookie_token(h.as_str(), "accessToken"),
    }
}

/// The bearer-header gate in front of user routes: token from the
/// `Authorization` header, no role requirement, subject re-fetched from
/// the store.
pub fn jwt_middleware(
    repo: &UserRepository,
    keys: &Keys,
    authorization: Option<&String>,
    now: u64,
) -> (r: Result<(User, Claims), AuthError>)
    ensures
        match r {
            Ok(p) => spec_authorize(
                repo@,
                keys.secret@,
                TokenCarrier::Bearer,
                None,
                true,
                view_opt_str(authorization),
                now,
            ) == Ok::<(Option<UserView>, ClaimsView), AuthError>((Some(p.0@), p.1@)),
            Err(e) => spec_authorize(
                repo@,
                keys.secret@,
                TokenCarrier::Bearer,
                None,
                true,
                view_opt_str(authorization),
                now,
            ) == Err::<(Option<UserView>, ClaimsView), AuthError>(e),
        },
{
    match authorize(repo, keys, TokenCarrier::Bearer, None, true, authorization, now) {
        Ok((Some(u), c)) => Ok((u, c)),
        Ok((None, _)) => {
            proof {
                assert(false);
            }
            Err(AuthError::InvalidToken)
        },
        Err(e) => Err(e),
    }
}

/// The cookie gate in front of administrative routes: token from the
/// `accessToken` cookie, role `"admin"` required, no store lookup.
pub fn auth_middleware(
    repo: &UserRepository,
    keys: &Keys,
    cookie_header: Option<&String>,
    now: u64,
) -> (r: Result<Claims, AuthError>)
    ensures
        match r {
            Ok(c) => spec_authorize(
                repo@,
                keys.secret@,
                TokenCarrier::Cookie,
                Some("admin"@),
                false,
                view_opt_str(cookie_header),
                now,
            ) == Ok::<(Option<UserView>, ClaimsView), AuthError>((None, c@)),
            Err(e) => spec_authorize(
                repo@,
                keys.secret@,
                TokenCarrier::Cookie,
                Some("admin"@),
                false,
                view_opt_str(cookie_header),
                now,
            ) == Err::<(Option<UserView>, ClaimsView), AuthError>(e),
        },
{
    let admin = String::from_str("admin");
    match authorize(repo, keys, TokenCarrier::Cookie, Some(&admin), false, cookie_header, now) {
        Ok((_, c)) => Ok(c),
        Err(e) => Err(e),
    }
}

/// The per-route role check behind the bearer gate: the re-fetched user
/// must hold the `"admin"` role.
pub fn role_middleware(user: &User) -> (r: Result<(), AuthError>)
    ensures
        r is Ok <==> user.rolename@ == "admin"@,
        r is Err ==> r == Err::<(), AuthError>(AuthError::Forbidden),
{
    if str_eq(user.rolename.as_str(), "admin") {
        Ok(())
    } else {
        Err(AuthError::Forbidden)
    }
}

} // verus!
