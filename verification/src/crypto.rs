//! Trusted boundary to the password hasher and the entropy sources.

use vstd::prelude::*;

use argon2::password_hash::{PasswordHasher, PasswordVerifier};
use rand::distr::SampleString;

verus! {

/// Whether a password verifies against a PHC-formatted password hash.
/// Verification is a pure function of the password and the hash string:
/// the salt and all parameters are carried inside the hash itself.
pub uninterp spec fn password_matches(password: Seq<char>, hash: Seq<char>) -> bool;

/// Relies on argon2's `Argon2::verify_password` (via `PasswordVerifier<str>`),
/// which parses the PHC hash string, recomputes the digest with the salt and
/// parameters it carries, and compares; the outcome depends on the password
/// and the hash alone. A hash that fails to parse verifies nothing.
#[verifier::external_body]
pub(crate) fn verify_password(password: &str, hash: &str) -> (r: bool)
    ensures
        r == password_matches(password@, hash@),
{
    argon2::Argon2::default().verify_password(password.as_bytes(), hash).is_ok()
}

/// Relies on argon2's `Argon2::hash_password`: it hashes the password with a
/// freshly generated random salt and the default parameters, so the result
/// differs from call to call, but every result verifies the password it was
/// computed from. Passwords longer than the argon2 limit are excluded.
#[verifier::external_body]
pub(crate) fn hash_password(password: &str) -> (r: String)
    requires
        password@.len() < 0x4000_0000,
    ensures
        password_matches(password@, r@),
{
    argon2::Argon2::default()
        .hash_password(password.as_bytes())
        .expect("password hashing failed")
        .to_string()
}

/// Relies on rand's `Alphanumeric` distribution: `sample_string` appends
/// exactly the requested number of random ASCII-alphanumeric characters,
/// drawn from a cryptographically secure generator seeded by the operating
/// system. Nothing is assumed about which characters come back.
#[verifier::external_body]
pub(crate) fn generate_token() -> (r: String)
    ensures
        r@.len() == 255,
{
    rand::distr::Alphanumeric.sample_string(&mut rand::rng(), 255)
}

/// Relies on uuid's `Uuid::new_v4`: a random identifier; nothing is assumed
/// about the value.
#[verifier::external_body]
pub(crate) fn generate_id() -> (r: u128) {
    uuid::Uuid::new_v4().as_u128()
}

} // verus!
