use mvd_core::errors::AuthError;
use mvd_core::gate::{auth_middleware, authorize, jwt_middleware, role_middleware, TokenCarrier};
use mvd_core::store::{User, UserRepository};
use mvd_core::token::{issue, Keys};
use mvd_core::users::{register, RegisterRequestPayload};

fn keys() -> Keys {
    Keys { secret: b"gate-secret".to_vec() }
}

fn repo_with_ada(keys: &Keys, now: u64) -> UserRepository {
    let mut repo = UserRepository::new();
    let payload = RegisterRequestPayload {
        name: "Ada".to_string(),
        email: "ada@example.com".to_string(),
        password: "pw".to_string(),
    };
    register(&mut repo, keys, payload, now).expect("registration");
    repo
}

fn admin_user(now: u64) -> User {
    User {
        name: "Root".to_string(),
        rolename: "admin".to_string(),
        email: "root@example.com".to_string(),
        password: "unused".to_string(),
        created_at: now,
        updated_at: now,
    }
}

#[test]
fn bearer_gate_allows_a_valid_token_of_a_known_user() {
    let keys = keys();
    let now: u64 = 100;
    let repo = repo_with_ada(&keys, now);
    let token =
        issue(&keys, "ada@example.com".to_string(), "user".to_string(), now, 299).expect("issuing");
    let header = format!("Bearer {token}");
    let (user, claims) =
        jwt_middleware(&repo, &keys, Some(&header), now + 1).expect("valid token must pass");
    assert_eq!(user.email, "ada@example.com");
    assert_eq!(claims.sub, "ada@example.com");
    assert_eq!(claims.role, "user");
}

#[test]
fn bearer_gate_rejects_missing_or_prefixless_header() {
    let keys = keys();
    let repo = repo_with_ada(&keys, 100);
    let err = jwt_middleware(&repo, &keys, None, 101).expect_err("no header");
    assert_eq!(err, AuthError::MissingToken);
    let header = "Basic abc".to_string();
    let err = jwt_middleware(&repo, &keys, Some(&header), 101).expect_err("no bearer prefix");
    assert_eq!(err, AuthError::MissingToken);
}

#[test]
fn bearer_gate_rejects_malformed_expired_and_unknown_subject_tokens() {
    let keys = keys();
    let now: u64 = 100;
    let repo = repo_with_ada(&keys, now);

    let header = "Bearer garbage.token.here".to_string();
    let err = jwt_middleware(&repo, &keys, Some(&header), now).expect_err("malformed");
    assert_eq!(err, AuthError::InvalidToken);

    let token =
        issue(&keys, "ada@example.com".to_string(), "user".to_string(), now, 299).expect("issuing");
    let header = format!("Bearer {token}");
    let err = jwt_middleware(&repo, &keys, Some(&header), now + 299).expect_err("expired");
    assert_eq!(err, AuthError::InvalidToken);

    let stranger =
        issue(&keys, "ghost@example.com".to_string(), "user".to_string(), now, 299)
            .expect("issuing");
    let header = format!("Bearer {stranger}");
    let err = jwt_middleware(&repo, &keys, Some(&header), now + 1).expect_err("unknown subject");
    assert_eq!(err, AuthError::InvalidToken);
}

#[test]
fn cookie_gate_allows_admin_and_refuses_everyone_else() {
    let keys = keys();
    let now: u64 = 100;
    let repo = UserRepository::new();

    let admin_token =
        issue(&keys, "root@example.com".to_string(), "admin".to_string(), now, 299)
            .expect("issuing");
    let header = format!("accessToken={admin_token}");
    let claims =
        auth_middleware(&repo, &keys, Some(&header), now + 1).expect("admin cookie must pass");
    assert_eq!(claims.role, "admin");

    let err = auth_middleware(&repo, &keys, None, now).expect_err("no cookie header");
    assert_eq!(err, AuthError::Forbidden);

    let user_token =
        issue(&keys, "ada@example.com".to_string(), "user".to_string(), now, 299).expect("issuing");
    let header = format!("accessToken={user_token}");
    let err = auth_middleware(&repo, &keys, Some(&header), now + 1).expect_err("role is not admin");
    assert_eq!(err, AuthError::Forbidden);

    let header = format!("accessToken={admin_token}");
    let err = auth_middleware(&repo, &keys, Some(&header), now + 299).expect_err("expired");
    assert_eq!(err, AuthError::Forbidden);

    let header = "accessToken=not.a.token".to_string();
    let err = auth_middleware(&repo, &keys, Some(&header), now).expect_err("malformed");
    assert_eq!(err, AuthError::Forbidden);
}

#[test]
fn cookie_gate_finds_the_token_among_other_cookies() {
    let keys = keys();
    let now: u64 = 100;
    let repo = UserRepository::new();
    let admin_token =
        issue(&keys, "root@example.com".to_string(), "admin".to_string(), now, 299)
            .expect("issuing");
    let header = format!("theme=dark; accessToken={admin_token}; lang=es");
    let claims = auth_middleware(&repo, &keys, Some(&header), now + 1)
        .expect("token cookie in the middle must be found");
    assert_eq!(claims.sub, "root@example.com");
}

#[test]
fn unified_gate_checks_the_required_role_against_the_claims() {
    let keys = keys();
    let now: u64 = 100;
    let repo = UserRepository::new();
    let token =
        issue(&keys, "ada@example.com".to_string(), "user".to_string(), now, 299).expect("issuing");
    let header = format!("Bearer {token}");
    let wanted = "admin".to_string();
    let err = authorize(
        &repo,
        &keys,
        TokenCarrier::Bearer,
        Some(&wanted),
        false,
        Some(&header),
        now + 1,
    )
    .expect_err("role user does not meet admin requirement");
    assert_eq!(err, AuthError::Forbidden);
    let wanted = "user".to_string();
    let (user, claims) = authorize(
        &repo,
        &keys,
        TokenCarrier::Bearer,
        Some(&wanted),
        false,
        Some(&header),
        now + 1,
    )
    .expect("matching role must pass");
    assert!(user.is_none());
    assert_eq!(claims.role, "user");
}

#[test]
fn role_middleware_requires_admin() {
    let admin = admin_user(5);
    assert!(role_middleware(&admin).is_ok());
    let mut user = admin_user(5);
    user.rolename = "user".to_string();
    let err = role_middleware(&user).expect_err("non-admin");
    assert_eq!(err, AuthError::Forbidden);
}
