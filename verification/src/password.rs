//! Password hashing with Argon2.

use argon2::password_hash::{PasswordHash, PasswordHasher, PasswordVerifier, SaltString};
use argon2::Argon2;
use rand_chacha::ChaCha20Rng;
use vstd::prelude::*;
use vstd::string::*;

verus! {

/// The longest password, in bytes, that Argon2 takes.
pub const MAX_PASSWORD_BYTES: usize = 0xFFFF_FFFF;

/// How many bytes `text` takes.
pub open spec fn byte_length(text: Seq<char>) -> nat {
    vstd::utf8::encode_utf8(text).len()
}

/// Whether Argon2, run on `password` with the algorithm, the cost
/// parameters and the salt that the hash string `hash` holds, arrives at
/// the digest that `hash` holds. A string that is no hash string matches
/// no password.
pub uninterp spec fn password_matches(hash: Seq<char>, password: Seq<char>) -> bool;

/// `SaltString::generate` and `Argon2::default().hash_password`: draws a
/// salt of the recommended length from `rng`, hashes `password` under it
/// and writes the result out as a hash string. With the default parameters
/// and a salt of that length the call fails on an overlong password only.
/// The string holds everything that went into the digest but the password,
/// so verifying the same password against it arrives at the same digest.
#[verifier::external_body]
pub(crate) fn argon2_hash(password: &str, rng: ChaCha20Rng) -> (hash: String)
    requires
        byte_length(password@) <= MAX_PASSWORD_BYTES,
    ensures
        password_matches(hash@, password@),
{
    let salt = SaltString::generate(rng);
    Argon2::default().hash_password(password.as_bytes(), &salt).unwrap().to_string()
}

/// `PasswordHash::new` and `Argon2::default().verify_password`: parses
/// `hash` and hashes `password` again as `hash` prescribes. The cost of
/// the call is the cost that `hash` names.
#[verifier::external_body]
pub(crate) fn argon2_verify(password: &str, hash: &str) -> (matches: bool)
    ensures
        matches == password_matches(hash@, password@),
{
    match PasswordHash::new(hash) {
        Ok(parsed) => Argon2::default().verify_password(password.as_bytes(), &parsed).is_ok(),
        Err(_) => false,
    }
}

} // verus!
