use mvd_core::cookies::{cookie_token, set_cookie};
use mvd_core::errors::AuthError;
use mvd_core::medical::MedicalSocietiesError;
use mvd_core::members::UserError;
use mvd_core::spaces::SpaceError;

#[test]
fn set_cookie_matches_the_cookie_crate_rendering() {
    let ours = set_cookie("accessToken", "tok-123".to_string());
    let theirs = cookie::Cookie::build(("accessToken", "tok-123"))
        .http_only(true)
        .secure(true)
        .same_site(cookie::SameSite::Strict)
        .path("/")
        .build()
        .to_string();
    assert_eq!(ours, theirs);
    assert_eq!(ours, "accessToken=tok-123; HttpOnly; SameSite=Strict; Secure; Path=/");
}

#[test]
fn cookie_token_finds_the_named_cookie() {
    assert_eq!(cookie_token("accessToken=abc", "accessToken"), Some("abc".to_string()));
    assert_eq!(cookie_token("a=1; accessToken=abc", "accessToken"), Some("abc".to_string()));
    assert_eq!(cookie_token("accessToken=abc; a=1", "accessToken"), Some("abc".to_string()));
    assert_eq!(cookie_token("a=1;  accessToken=abc; b=2", "accessToken"), Some("abc".to_string()));
    assert_eq!(cookie_token("accessToken=", "accessToken"), Some(String::new()));
}

#[test]
fn cookie_token_rejects_lookalikes_and_absence() {
    assert_eq!(cookie_token("xaccessToken=abc", "accessToken"), None);
    assert_eq!(cookie_token("accessTokens=abc", "accessToken"), None);
    assert_eq!(cookie_token("a=1; b=2", "accessToken"), None);
    assert_eq!(cookie_token("", "accessToken"), None);
    assert_eq!(cookie_token("accessToken", "accessToken"), None);
}

#[test]
fn auth_errors_map_to_their_status_and_message() {
    assert_eq!(AuthError::WrongCredentials.status_code(), 401);
    assert_eq!(AuthError::WrongCredentials.message(), "Credenciales incorrectas");
    assert_eq!(AuthError::MissingCredentials.status_code(), 400);
    assert_eq!(AuthError::MissingCredentials.message(), "Faltan las credenciales");
    assert_eq!(AuthError::TokenCreation.status_code(), 500);
    assert_eq!(AuthError::TokenCreation.message(), "Error al crear token");
    assert_eq!(AuthError::InvalidToken.status_code(), 401);
    assert_eq!(AuthError::InvalidToken.message(), "Token inválido");
    assert_eq!(AuthError::HashingError("x".to_string()).status_code(), 500);
    assert_eq!(AuthError::HashingError("x".to_string()).message(), "Problema al hashear: x");
    assert_eq!(AuthError::DatabaseError("down".to_string()).status_code(), 500);
    assert_eq!(
        AuthError::DatabaseError("down".to_string()).message(),
        "Error en la base de datos: down"
    );
    assert_eq!(AuthError::MissingToken.status_code(), 401);
    assert_eq!(AuthError::MissingToken.message(), "Falta el token");
    assert_eq!(AuthError::Other("boom".to_string()).status_code(), 500);
    assert_eq!(AuthError::Other("boom".to_string()).message(), "boom");
    assert_eq!(AuthError::Forbidden.status_code(), 403);
    assert_eq!(AuthError::Forbidden.message(), "Acceso no autorizado");
    assert_eq!(AuthError::MissingAppState.status_code(), 500);
    assert_eq!(AuthError::MissingAppState.message(), "Falta el AppState");
    assert_eq!(AuthError::UserNotFound("ada@b.c".to_string()).status_code(), 404);
    assert_eq!(
        AuthError::UserNotFound("ada@b.c".to_string()).message(),
        "Usuario \"ada@b.c\" no encontrado"
    );
}

#[test]
fn route_errors_map_to_their_status_and_message() {
    assert_eq!(UserError::NotFound.status_code(), 404);
    assert_eq!(UserError::NotFound.message(), "User not found");
    assert_eq!(UserError::InternalServerError("e".to_string()).status_code(), 500);
    assert_eq!(UserError::InternalServerError("e".to_string()).message(), "e");
    assert_eq!(SpaceError::NotFound.status_code(), 404);
    assert_eq!(SpaceError::NotFound.message(), "Space not found");
    assert_eq!(SpaceError::InternalServerError("e".to_string()).status_code(), 500);
    assert_eq!(MedicalSocietiesError::NotFound.status_code(), 404);
    assert_eq!(MedicalSocietiesError::NotFound.message(), "Medical Societies not found");
    assert_eq!(MedicalSocietiesError::InternalServerError("e".to_string()).status_code(), 500);
}
