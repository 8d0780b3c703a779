//! Production credential hasher: Argon2 password hashing and verification,
//! and high-entropy alphanumeric session tokens.

use vstd::prelude::*;
use crate::password::{PasswordError, PasswordHasherTrait};
use crate::text::chars_to_string;
use argon2::{PasswordHasher, PasswordVerifier};
use rand::RngExt;

verus! {

/// Length, in characters, of every generated session token.
pub const SESSION_TOKEN_LEN: usize = 128;

/// Whether `hashed` is an Argon2 PHC string that verifies `candidate`.
/// Verification recomputes the hash from the candidate and the parameters and
/// salt carried inside the PHC string, so the outcome is a function of the two
/// strings alone.
pub uninterp spec fn argon2_matches(hashed: Seq<char>, candidate: Seq<char>) -> bool;

/// The characters a session token is drawn from: ASCII alphanumerics.
pub open spec fn is_token_char(c: char) -> bool {
    ('a' <= c && c <= 'z') || ('A' <= c && c <= 'Z') || ('0' <= c && c <= '9')
}

/// Relies on argon2's `Argon2::hash_password`: it hashes the password with a
/// fresh random salt into a PHC string, which `Argon2::verify_password`
/// accepts for the password it was produced from.
#[verifier::external_body]
fn argon2_hash(password: &String) -> (r: Result<String, PasswordError>)
    ensures
        r matches Ok(h) ==> argon2_matches(h@, password@),
        r matches Err(e) ==> e == PasswordError::HashingFailed,
{
    match argon2::Argon2::default().hash_password(password.as_bytes()) {
        Ok(h) => Ok(h.to_string()),
        Err(_) => Err(PasswordError::HashingFailed),
    }
}

/// Relies on argon2's `PasswordHash::new` and `Argon2::verify_password`: the
/// call recomputes the hash of the candidate under the salt and parameters
/// stored in the PHC string and compares in constant time; a string that does
/// not parse as a PHC string verifies nothing.
#[verifier::external_body]
fn argon2_verify(hashed: &String, candidate: &String) -> (r: bool)
    ensures
        r == argon2_matches(hashed@, candidate@),
{
    match argon2::PasswordHash::new(hashed.as_str()) {
        Ok(parsed) => argon2::Argon2::default().verify_password(
            candidate.as_bytes(),
            &parsed,
        ).is_ok(),
        Err(_) => false,
    }
}

/// Relies on rand's `Alphanumeric` distribution: every sample is one of the 62
/// ASCII alphanumeric bytes, drawn uniformly from the thread-local
/// cryptographically secure generator.
#[verifier::external_body]
fn sample_alphanumeric() -> (c: char)
    ensures
        is_token_char(c),
{
    char::from(rand::rng().sample(rand::distr::Alphanumeric))
}

/// The production credential hasher, backed by Argon2id with per-call salts.
pub struct Argon2PasswordHasher;

impl PasswordHasherTrait for Argon2PasswordHasher {
    open spec fn spec_matches(&self, hashed: Seq<char>, candidate: Seq<char>) -> bool {
        argon2_matches(hashed, candidate)
    }

    open spec fn spec_token_ok(&self, token: Seq<char>) -> bool {
        token.len() == SESSION_TOKEN_LEN && forall|i: int|
            0 <= i < token.len() ==> is_token_char(#[trigger] token[i])
    }

    fn hash_password(&self, password: &String) -> (r: Result<String, PasswordError>) {
        argon2_hash(password)
    }

    fn verify_password(&self, hashed: &String, candidate: &String) -> (r: Result<
        (),
        PasswordError,
    >) {
        if argon2_verify(hashed, candidate) {
            Ok(())
        } else {
            Err(PasswordError::VerificationFailed)
        }
    }

    fn generate_session_token(&self) -> (t: String) {
        let mut chars: Vec<char> = Vec::new();
        let mut i: usize = 0;
        while i < SESSION_TOKEN_LEN
            invariant
                i <= SESSION_TOKEN_LEN,
                chars@.len() == i,
                forall|j: int| 0 <= j < chars@.len() ==> is_token_char(#[trigger] chars@[j]),
            decreases SESSION_TOKEN_LEN - i,
        {
            chars.push(sample_alphanumeric());
            i = i + 1;
        }
        chars_to_string(chars)
    }
}

/// Return the production password hasher.
pub fn create_password_hasher() -> (r: Result<Argon2PasswordHasher, PasswordError>)
    ensures
        r is Ok,
{
    Ok(Argon2PasswordHasher)
}

} // verus!
