//! Salted password hashing, used for user passwords and for client-site
//! secrets alike.
//!
//! The hashing and verification calls go through trusted wrappers around
//! the `argon2` crate.  Whether a password matches a stored hash is a pure
//! function of the two strings, named `password_matches`; a fresh hash
//! embeds a random salt, so the hash itself gets no name.

use vstd::prelude::*;

verus! {

/// Whether `argon2`'s verification accepts `password` against the PHC
/// hash string `hash`.  A pure function of the two strings; stated as a
/// name only.
pub uninterp spec fn password_matches(password: Seq<char>, hash: Seq<char>) -> bool;

/// Hash a password with a freshly generated random salt.
///
/// Relies on `Argon2::hash_password` with `SaltString::generate`: the
/// returned PHC string embeds the salt and parameters, so verifying the
/// same password against it succeeds.  The salt is random, so the hash
/// itself is not pinned to any value.
#[verifier::external_body]
pub fn hash_password(input_password: String) -> (r: String)
    requires
        input_password@.len() <= 0x3FFFFFFF,
    ensures
        password_matches(input_password@, r@),
{
    let salt = password_hash::SaltString::generate(&mut rand_core::OsRng);
    argon2::PasswordHasher::hash_password(
        &argon2::Argon2::default(),
        input_password.as_bytes(),
        &salt,
    ).unwrap().to_string()
}

/// Check a raw password against a stored hash.
///
/// Relies on `PasswordHash::new` and `Argon2::verify_password`: the
/// outcome is the pure function `password_matches` of the two strings; a
/// hash that does not parse matches nothing.
#[verifier::external_body]
pub fn verify_password(input_password: &String, stored_hash: &String) -> (r: bool)
    ensures
        r == password_matches(input_password@, stored_hash@),
{
    match password_hash::PasswordHash::new(stored_hash) {
        Ok(parsed) => argon2::PasswordVerifier::verify_password(
            &argon2::Argon2::default(),
            input_password.as_bytes(),
            &parsed,
        ).is_ok(),
        Err(_e) => false,
    }
}

} // verus!
