//! Verified core of a membership-management backend: credential storage,
//! password hashing, token issuance and validation, the register/login
//! flow, the access gate that guards protected routes, and the member,
//! space and medical-society records the routes serve.

pub mod cookies;
pub mod errors;
pub mod gate;
pub mod medical;
pub mod members;
pub mod password;
pub mod spaces;
pub mod store;
pub mod strutil;
pub mod token;
pub mod users;
