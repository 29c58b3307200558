//! Error taxonomy of the authentication flow, with its mapping to an HTTP
//! status code and a client-facing message. The mapping is centralised here
//! so that every transport layer renders errors the same way.

use vstd::prelude::*;

verus! {

/// Everything that can go wrong while registering, logging in, or passing
/// the access gate.
#[derive(Debug, PartialEq, Eq)]
pub enum AuthError {
    MissingAppState,
    WrongCredentials,
    MissingCredentials,
    TokenCreation,
    InvalidToken,
    HashingError(String),
    DatabaseError(String),
    MissingToken,
    Other(String),
    Forbidden,
    UserNotFound(String),
}

impl AuthError {
    /// The HTTP status code this error is reported with. The access
    /// gate's token denials — a missing or unacceptable bearer token —
    /// are externalized as 401, and a refused cookie gate as 403;
    /// missing login fields stay 400.
    pub open spec fn spec_status(self) -> u16 {
        match self {
            AuthError::MissingAppState => 500,
            AuthError::WrongCredentials => 401,
            AuthError::MissingCredentials => 400,
            AuthError::TokenCreation => 500,
            AuthError::InvalidToken => 401,
            AuthError::HashingError(_) => 500,
            AuthError::DatabaseError(_) => 500,
            AuthError::MissingToken => 401,
            AuthError::Other(_) => 500,
            AuthError::Forbidden => 403,
            AuthError::UserNotFound(_) => 404,
        }
    }

    /// The message shown to the client for this error.
    pub open spec fn spec_message(self) -> Seq<char> {
        match self {
            AuthError::MissingAppState => "Falta el AppState"@,
            AuthError::WrongCredentials => "Credenciales incorrectas"@,
            AuthError::MissingCredentials => "Faltan las credenciales"@,
            AuthError::TokenCreation => "Error al crear token"@,
            AuthError::InvalidToken => "Token inválido"@,
            AuthError::HashingError(e) => "Problema al hashear: "@ + e@,
            AuthError::DatabaseError(e) => "Error en la base de datos: "@ + e@,
            AuthError::MissingToken => "Falta el token"@,
            AuthError::Other(e) => e@,
            AuthError::Forbidden => "Acceso no autorizado"@,
            AuthError::UserNotFound(email) => "Usuario \""@ + email@ + "\" no encontrado"@,
        }
    }

    pub fn status_code(&self) -> (r: u16)
        ensures
            r == self.spec_status(),
    {
        match self {
            AuthError::MissingAppState => 500,
            AuthError::WrongCredentials => 401,
            AuthError::MissingCredentials => 400,
            AuthError::TokenCreation => 500,
            AuthError::InvalidToken => 401,
            AuthError::HashingError(_) => 500,
            AuthError::DatabaseError(_) => 500,
            AuthError::MissingToken => 401,
            AuthError::Other(_) => 500,
            AuthError::Forbidden => 403,
            AuthError::UserNotFound(_) => 404,
        }
    }

    pub fn message(&self) -> (r: String)
        ensures
            r@ == self.spec_message(),
    {
        match self {
            AuthError::MissingAppState => String::from_str("Falta el AppState"),
            AuthError::WrongCredentials => String::from_str("Credenciales incorrectas"),
            AuthError::MissingCredentials => String::from_str("Faltan las credenciales"),
            AuthError::TokenCreation => String::from_str("Error al crear token"),
            AuthError::InvalidToken => String::from_str("Token inválido"),
            AuthError::HashingError(e) => {
                String::from_str("Problema al hashear: ").concat(e.as_str())
            },
            AuthError::DatabaseError(e) => {
                String::from_str("Error en la base de datos: ").concat(e.as_str())
            },
            AuthError::MissingToken => String::from_str("Falta el token"),
            AuthError::Other(e) => e.clone(),
            AuthError::Forbidden => String::from_str("Acceso no autorizado"),
            AuthError::UserNotFound(email) => {
                String::from_str("Usuario \"").concat(email.as_str()).concat("\" no encontrado")
            },
        }
    }
}

} // verus!
