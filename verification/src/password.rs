//! Password hashing and verification, built on the Argon2id primitive of
//! the `argon2` crate. Hashing salts with fresh randomness, so its output
//! is not a function of its input; what the rest of the library relies on
//! is the relation `argon2_verifies` between a stored hash and a
//! candidate password, and the predicate `argon2_accepts` that separates
//! a usable stored hash from a malformed one.

use vstd::prelude::*;

use argon2::password_hash::phc::PasswordHash;
use argon2::password_hash::PasswordHasher;
use argon2::password_hash::PasswordVerifier;

verus! {

/// Whether verifying `password` against the PHC-encoded `hash` with
/// Argon2 (default parameters, parameters of the hash taken from the hash
/// itself) succeeds. This is a deterministic function of the two strings;
/// it is given no definition here, and the library states nothing about
/// its value on given strings: only the trusted items below relate it to
/// the `argon2` crate's calls.
pub uninterp spec fn argon2_verifies(hash: Seq<char>, password: Seq<char>) -> bool;

/// Whether the Argon2 verifier, handed the stored string `hash`, comes to
/// a match-or-mismatch decision at all: the string parses as a PHC string
/// (`PasswordHash::new`) and its algorithm identifier, version,
/// parameters, salt and output pass the verifier's own checks. When this
/// fails, verification reports an error rather than a mismatch. A
/// deterministic function of the hash string alone: the one
/// password-dependent failure of the primitive (an absurdly long
/// password) is reported as a mismatch, not an error.
pub uninterp spec fn argon2_accepts(hash: Seq<char>) -> bool;

/// Hash a password to a self-describing PHC string with a fresh random
/// salt.
///
/// Relies on `argon2::Argon2::hash_password` and
/// `password_hash::phc::PasswordHash::to_string`: every hash it produces
/// for `password` verifies against `password`, parses back as a PHC
/// string the verifier accepts, starts with the `$argon2id$` algorithm
/// tag, and hashing fails only on a salt-generation or internal failure
/// of the primitive.
#[verifier::external_body]
pub fn hash_password(password: String) -> (r: Result<String, String>)
    ensures
        r matches Ok(h) ==> argon2_verifies(h@, password@) && argon2_accepts(h@) && h@.len() > 10
            && h@.subrange(0, 10) == "$argon2id$"@,
{
    match argon2::Argon2::default().hash_password(password.as_bytes()) {
        Ok(h) => Ok(h.to_string()),
        Err(e) => Err(e.to_string()),
    }
}

/// Check a candidate password against a stored PHC hash string.
///
/// Relies on `password_hash::phc::PasswordHash::new` and
/// `argon2::Argon2::verify_password`: the check passes exactly when the
/// recomputed hash matches (`argon2_verifies`); it errs exactly when the
/// stored hash is one the verifier does not accept (`argon2_accepts`) —
/// a parse failure, or a parameter the verifier refuses, each a
/// non-mismatch error in the source; every accepted hash yields a plain
/// `Ok(true)` or `Ok(false)` decision, a mismatch being reported as
/// `Ok(false)`.
#[verifier::external_body]
pub fn verify_password(password_hash: String, password: String) -> (r: Result<bool, String>)
    ensures
        (r == Ok::<bool, String>(true)) == argon2_verifies(password_hash@, password@),
        (r is Err) == !argon2_accepts(password_hash@),
{
    let parsed = match PasswordHash::new(&password_hash) {
        Ok(p) => p,
        Err(e) => {
            return Err(e.to_string());
        },
    };
    match argon2::Argon2::default().verify_password(password.as_bytes(), &parsed) {
        Ok(()) => Ok(true),
        Err(argon2::password_hash::Error::PasswordInvalid) => Ok(false),
        Err(e) => Err(e.to_string()),
    }
}

} // verus!
