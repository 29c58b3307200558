//! The auth flow controller: registration and login. Both check their
//! input against the credential store, and on success issue a session
//! token and the `Set-Cookie` header value that carries it. Success
//! payloads carry the user without the password hash.

use vstd::prelude::*;

use crate::cookies::{cookie_header, set_cookie};
use crate::errors::AuthError;
use crate::password::{argon2_verifies, hash_password, verify_password};
use crate::store::{spec_find, User, UserRepository, UserView};
use crate::token::{
    claims_view, issue, jwt_claims_of, jwt_token_of, lemma_token_expiry, spec_validate, ClaimsView,
    Keys, TOKEN_TTL_SECS,
};

verus! {

/// Body of a registration request.
pub struct RegisterRequestPayload {
    pub name: String,
    pub email: String,
    pub password: String,
}

/// Body of a login request.
pub struct AuthRequestPayload {
    pub email: String,
    pub password: String,
}

/// A user as shown to clients: the identity record without the password
/// hash.
#[derive(Debug)]
pub struct PublicUser {
    pub name: String,
    pub rolename: String,
    pub email: String,
    pub created_at: u64,
    pub updated_at: u64,
}

/// The mathematical content of a client-facing user.
pub struct PublicUserView {
    pub name: Seq<char>,
    pub rolename: Seq<char>,
    pub email: Seq<char>,
    pub created_at: u64,
    pub updated_at: u64,
}

impl View for PublicUser {
    type V = PublicUserView;

    open spec fn view(&self) -> PublicUserView {
        PublicUserView {
            name: self.name@,
            rolename: self.rolename@,
            email: self.email@,
            created_at: self.created_at,
            updated_at: self.updated_at,
        }
    }
}

/// What a stored record looks like to clients: everything but the
/// password hash.
pub open spec fn public_view(u: UserView) -> PublicUserView {
    PublicUserView {
        name: u.name,
        rolename: u.rolename,
        email: u.email,
        created_at: u.created_at,
        updated_at: u.updated_at,
    }
}

/// The success payload handed back to an authorised client.
#[derive(Debug)]
pub struct AuthBody {
    pub status: String,
    pub user: PublicUser,
}

impl AuthBody {
    pub fn new(user: User) -> (r: AuthBody)
        ensures
            r.status@ == "success"@,
            r.user@ == public_view(user@),
    {
        AuthBody {
            status: String::from_str("success"),
            user: PublicUser {
                name: user.name,
                rolename: user.rolename,
                email: user.email,
                created_at: user.created_at,
                updated_at: user.updated_at,
            },
        }
    }
}

/// A generic success envelope.
#[derive(Debug)]
pub struct ApiResponse<T> {
    pub status: String,
    pub data: T,
}

impl<T> ApiResponse<T> {
    pub fn new(data: T) -> (r: ApiResponse<T>)
        ensures
            r.status@ == "success"@,
            r.data == data,
    {
        ApiResponse { status: String::from_str("success"), data: data }
    }
}

/// Everything a successful register or login produces: the response
/// body, the issued token, and the `Set-Cookie` header value carrying
/// it.
#[derive(Debug)]
pub struct AuthSuccess {
    pub body: AuthBody,
    pub token: String,
    pub set_cookie: String,
}

/// A record for `email` was appended to the store, hashed from
/// `password`, with role `"user"` and both timestamps `now`.
pub open spec fn registered(
    old_repo: Seq<UserView>,
    new_repo: Seq<UserView>,
    name: Seq<char>,
    email: Seq<char>,
    password: Seq<char>,
    now: u64,
) -> bool {
    &&& new_repo.len() == old_repo.len() + 1
    &&& new_repo == old_repo.push(new_repo.last())
    &&& new_repo.last().name == name
    &&& new_repo.last().rolename == "user"@
    &&& new_repo.last().email == email
    &&& argon2_verifies(new_repo.last().password, password)
    &&& new_repo.last().created_at == now
    &&& new_repo.last().updated_at == now
}

/// The token `t` carries the claim set `(sub, role)` expiring at
/// `now + TOKEN_TTL_SECS`, signed with `secret`.
pub open spec fn issued(t: Seq<char>, sub: Seq<char>, role: Seq<char>, now: u64, secret: Seq<u8>) -> bool {
    &&& t == jwt_token_of(sub, role, (now + TOKEN_TTL_SECS) as u64, secret)
    &&& jwt_claims_of(t, secret) == Some(claims_view(sub, (now + TOKEN_TTL_SECS) as u64, role))
}

/// A token that `register` or `login` issued — one satisfying `issued`
/// — passes `validate` under the same secret exactly until its expiry,
/// with the subject and role it was issued for.
pub proof fn lemma_issued_token_validates(
    t: Seq<char>,
    sub: Seq<char>,
    role: Seq<char>,
    now: u64,
    secret: Seq<u8>,
    at: u64,
)
    requires
        issued(t, sub, role, now, secret),
        now + TOKEN_TTL_SECS <= u64::MAX,
    ensures
        (spec_validate(t, secret, at) == Ok::<ClaimsView, AuthError>(
            claims_view(sub, (now + TOKEN_TTL_SECS) as u64, role),
        )) <==> at < now + TOKEN_TTL_SECS,
{
    lemma_token_expiry(t, secret, claims_view(sub, (now + TOKEN_TTL_SECS) as u64, role), at);
}

/// Register a new user: reject a taken email, hash the password, persist
/// the record with role `"user"`, issue a token, and build its cookie.
/// With the email free, success is owed unless the hashing primitive
/// itself fails (its salt needs randomness the machine may refuse).
pub fn register(
    repo: &mut UserRepository,
    keys: &Keys,
    payload: RegisterRequestPayload,
    now: u64,
) -> (r: Result<AuthSuccess, AuthError>)
    requires
        old(repo).wf(),
        now + TOKEN_TTL_SECS <= u64::MAX,
    ensures
        final(repo).wf(),
        spec_find(old(repo)@, payload.email@) is Some ==> final(repo)@ == old(repo)@ && (match r {
            Err(AuthError::Other(m)) => m@ == "User already exists"@,
            _ => false,
        }),
        (match r {
            Err(AuthError::Other(_)) => spec_find(old(repo)@, payload.email@) is Some,
            _ => true,
        }),
        (match r {
            Err(AuthError::HashingError(_)) => final(repo)@ == old(repo)@ && spec_find(
                old(repo)@,
                payload.email@,
            ) is None,
            _ => true,
        }),
        spec_find(old(repo)@, payload.email@) is None ==> (r is Ok || (r matches Err(
            AuthError::HashingError(_),
        ))),
        r matches Ok(s) ==> {
            &&& spec_find(old(repo)@, payload.email@) is None
            &&& registered(
                old(repo)@,
                final(repo)@,
                payload.name@,
                payload.email@,
                payload.password@,
                now,
            )
            &&& issued(s.token@, payload.email@, "user"@, now, keys.secret@)
            &&& s.set_cookie@ == cookie_header("accessToken"@, s.token@)
            &&& s.body.status@ == "success"@
            &&& s.body.user@ == public_view(final(repo)@.last())
        },
        (match r {
            Err(e) => e matches AuthError::Other(_) || e matches AuthError::HashingError(_),
            Ok(_) => true,
        }),
{
    if repo.find_by_email(&payload.email).is_some() {
        return Err(AuthError::Other(String::from_str("User already exists")));
    }
    let hash = match hash_password(payload.password) {
        Ok(h) => h,
        Err(e) => {
            return Err(AuthError::HashingError(e));
        },
    };
    let new_user = User {
        name: payload.name,
        rolename: String::from_str("user"),
        email: payload.email,
        password: hash,
        created_at: now,
        updated_at: now,
    };
    let stored = new_user.clone();
    repo.save_user(stored);
    let token = match issue(
        keys,
        new_user.email.clone(),
        String::from_str("user"),
        now,
        TOKEN_TTL_SECS,
    ) {
        Ok(t) => t,
        Err(e) => {
            proof {
                assert(false);
            }
            return Err(e);
        },
    };
    let cookie = set_cookie("accessToken", token.clone());
    Ok(AuthSuccess { body: AuthBody::new(new_user), token: token, set_cookie: cookie })
}

/// Log a user in: demand both credentials, look the user up, verify the
/// password, and issue a token carrying the user's current role. On
/// correct credentials success is owed.
pub fn login(
    repo: &UserRepository,
    keys: &Keys,
    payload: AuthRequestPayload,
    now: u64,
) -> (r: Result<AuthSuccess, AuthError>)
    requires
        now + TOKEN_TTL_SECS <= u64::MAX,
    ensures
        (r == Err::<AuthSuccess, AuthError>(AuthError::MissingCredentials)) <==> (
        payload.email@.len() == 0 || payload.password@.len() == 0),
        (r == Err::<AuthSuccess, AuthError>(AuthError::WrongCredentials)) <==> {
            &&& payload.email@.len() > 0
            &&& payload.password@.len() > 0
            &&& match spec_find(repo@, payload.email@) {
                None => true,
                Some(u) => !argon2_verifies(u.password, payload.password@),
            }
        },
        r matches Ok(s) ==> {
            &&& spec_find(repo@, payload.email@) matches Some(u) && argon2_verifies(
                u.password,
                payload.password@,
            ) && issued(s.token@, payload.email@, u.rolename, now, keys.secret@)
                && s.body.user@ == public_view(u)
            &&& s.set_cookie@ == cookie_header("accessToken"@, s.token@)
            &&& s.body.status@ == "success"@
        },
        payload.email@.len() > 0 && payload.password@.len() > 0 && (match spec_find(
            repo@,
            payload.email@,
        ) {
            Some(u) => argon2_verifies(u.password, payload.password@),
            None => false,
        }) ==> r is Ok,
        (match r {
            Err(e) => e == AuthError::MissingCredentials || e == AuthError::WrongCredentials,
            Ok(_) => true,
        }),
{
    if payload.email.as_str().is_empty() || payload.password.as_str().is_empty() {
        return Err(AuthError::MissingCredentials);
    }
    let user = match repo.find_by_email(&payload.email) {
        Some(u) => u,
        None => {
            return Err(AuthError::WrongCredentials);
        },
    };
    match verify_password(user.password.clone(), payload.password) {
        Ok(true) => {},
        _ => {
            return Err(AuthError::WrongCredentials);
        },
    }
    let token = match issue(keys, user.email.clone(), user.rolename.clone(), now, TOKEN_TTL_SECS) {
        Ok(t) => t,
        Err(e) => {
            proof {
                assert(false);
            }
            return Err(e);
        },
    };
    let cookie = set_cookie("accessToken", token.clone());
    Ok(AuthSuccess { body: AuthBody::new(user), token: token, set_cookie: cookie })
}

} // verus!
