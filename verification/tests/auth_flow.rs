use mvd_core::errors::AuthError;
use mvd_core::password::{hash_password, verify_password};
use mvd_core::store::UserRepository;
use mvd_core::token::{issue, validate, Keys, TOKEN_TTL_SECS};
use mvd_core::users::{login, register, AuthRequestPayload, RegisterRequestPayload};

fn keys() -> Keys {
    Keys { secret: b"test-signing-secret".to_vec() }
}

fn register_payload(name: &str, email: &str, password: &str) -> RegisterRequestPayload {
    RegisterRequestPayload {
        name: name.to_string(),
        email: email.to_string(),
        password: password.to_string(),
    }
}

fn login_payload(email: &str, password: &str) -> AuthRequestPayload {
    AuthRequestPayload { email: email.to_string(), password: password.to_string() }
}

#[test]
fn register_creates_one_user_and_issues_token() {
    let mut repo = UserRepository::new();
    let keys = keys();
    let now: u64 = 1_700_000_000;
    let out = register(&mut repo, &keys, register_payload("Ada", "ada@example.com", "pw-1"), now)
        .expect("fresh email must register");
    assert_eq!(repo.len(), 1);
    assert_eq!(out.body.status, "success");
    assert_eq!(out.body.user.name, "Ada");
    assert_eq!(out.body.user.rolename, "user");
    assert_eq!(out.body.user.email, "ada@example.com");
    assert_eq!(out.body.user.created_at, now);
    let claims = validate(&keys, &out.token, now).expect("fresh token must validate");
    assert_eq!(claims.sub, "ada@example.com");
    assert_eq!(claims.role, "user");
    assert_eq!(claims.exp, now + TOKEN_TTL_SECS);
    assert_eq!(
        out.set_cookie,
        format!("accessToken={}; HttpOnly; SameSite=Strict; Secure; Path=/", out.token)
    );
}

#[test]
fn register_rejects_taken_email_and_inserts_nothing() {
    let mut repo = UserRepository::new();
    let keys = keys();
    register(&mut repo, &keys, register_payload("Ada", "ada@example.com", "pw-1"), 1000)
        .expect("first registration");
    let err = register(&mut repo, &keys, register_payload("Eve", "ada@example.com", "pw-2"), 1001)
        .expect_err("reused email must fail");
    assert_eq!(err, AuthError::Other("User already exists".to_string()));
    assert_eq!(repo.len(), 1);
}

#[test]
fn login_with_correct_credentials_issues_matching_token() {
    let mut repo = UserRepository::new();
    let keys = keys();
    let now: u64 = 5000;
    register(&mut repo, &keys, register_payload("Ada", "ada@example.com", "hunter2"), now)
        .expect("registration");
    let out = login(&repo, &keys, login_payload("ada@example.com", "hunter2"), now + 10)
        .expect("correct credentials must log in");
    let claims = validate(&keys, &out.token, now + 10).expect("issued token must validate");
    assert_eq!(claims.sub, "ada@example.com");
    assert_eq!(claims.role, "user");
    assert_eq!(out.body.user.email, "ada@example.com");
}

#[test]
fn login_with_wrong_password_fails() {
    let mut repo = UserRepository::new();
    let keys = keys();
    register(&mut repo, &keys, register_payload("Ada", "ada@example.com", "hunter2"), 1)
        .expect("registration");
    let err = login(&repo, &keys, login_payload("ada@example.com", "wrong"), 2)
        .expect_err("wrong password must fail");
    assert_eq!(err, AuthError::WrongCredentials);
}

#[test]
fn login_with_unknown_email_fails_without_leaking() {
    let repo = UserRepository::new();
    let keys = keys();
    let err = login(&repo, &keys, login_payload("ghost@example.com", "pw"), 2)
        .expect_err("unknown email must fail");
    assert_eq!(err, AuthError::WrongCredentials);
}

#[test]
fn login_with_missing_credentials_fails() {
    let repo = UserRepository::new();
    let keys = keys();
    let err = login(&repo, &keys, login_payload("", "pw"), 2).expect_err("empty email");
    assert_eq!(err, AuthError::MissingCredentials);
    let err = login(&repo, &keys, login_payload("a@b.c", ""), 2).expect_err("empty password");
    assert_eq!(err, AuthError::MissingCredentials);
}

#[test]
fn token_lifetime_is_299_seconds() {
    assert_eq!(TOKEN_TTL_SECS, 299);
}

#[test]
fn token_round_trip_and_expiry_boundary() {
    let keys = keys();
    let now: u64 = 10_000;
    let token = issue(&keys, "ada@example.com".to_string(), "user".to_string(), now, 299)
        .expect("issuing");
    let exp = now + 299;
    assert!(validate(&keys, &token, now).is_ok());
    assert!(validate(&keys, &token, exp - 1).is_ok());
    let err = validate(&keys, &token, exp).expect_err("expired at its expiry instant");
    assert_eq!(err, AuthError::InvalidToken);
    let err = validate(&keys, &token, exp + 1).expect_err("expired after its expiry");
    assert_eq!(err, AuthError::InvalidToken);
}

#[test]
fn token_with_wrong_secret_or_tampering_is_invalid() {
    let keys = keys();
    let other = Keys { secret: b"another-secret".to_vec() };
    let now: u64 = 10_000;
    let token = issue(&keys, "ada@example.com".to_string(), "user".to_string(), now, 299)
        .expect("issuing");
    let err = validate(&other, &token, now).expect_err("wrong secret");
    assert_eq!(err, AuthError::InvalidToken);
    let mut tampered = token.clone();
    tampered.push('x');
    let err = validate(&keys, &tampered, now).expect_err("tampered token");
    assert_eq!(err, AuthError::InvalidToken);
    let err = validate(&keys, &"not-a-token".to_string(), now).expect_err("malformed token");
    assert_eq!(err, AuthError::InvalidToken);
}

#[test]
fn hash_then_verify_accepts_the_password_and_nothing_else() {
    let hash = hash_password("correct horse battery staple".to_string()).expect("hashing");
    assert!(hash.starts_with("$argon2id$"));
    assert_eq!(verify_password(hash.clone(), "correct horse battery staple".to_string()), Ok(true));
    assert_eq!(verify_password(hash.clone(), "correct horse battery stapl".to_string()), Ok(false));
    assert_eq!(verify_password(hash, "".to_string()), Ok(false));
    assert!(verify_password("not-a-phc-string".to_string(), "pw".to_string()).is_err());
}

#[test]
fn two_hashes_of_one_password_differ_but_both_verify() {
    let h1 = hash_password("pw".to_string()).expect("hashing");
    let h2 = hash_password("pw".to_string()).expect("hashing");
    assert_ne!(h1, h2);
    assert_eq!(verify_password(h1, "pw".to_string()), Ok(true));
    assert_eq!(verify_password(h2, "pw".to_string()), Ok(true));
}
