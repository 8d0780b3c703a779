//! Password-based authentication behavior: one-way hashing, verification,
//! and opaque session-token generation.
//!
//! The trait is interface-only; implementations are the production hasher in
//! `auth` and the deterministic mock below, injected where a hasher is needed.

use vstd::prelude::*;

verus! {

/// Failure modes of password hashing and verification.
#[derive(Debug, Clone, Copy, PartialEq, Eq, Structural)]
pub enum PasswordError {
    /// Hashing failed for an internal reason (allocation, parameters).
    HashingFailed,
    /// The candidate password does not match the stored hash.
    VerificationFailed,
}

/// Trait for password-based authentication behavior.
///
/// Each implementation fixes, at the specification level, which hashes match
/// which candidate passwords (`spec_matches`) and which strings it may hand
/// out as fresh session tokens (`spec_token_ok`).
pub trait PasswordHasherTrait: Sized {
    /// Whether `hashed` is a hash of `candidate` under this hasher. The
    /// default makes every verification fail; verified implementations
    /// override it.
    open spec fn spec_matches(&self, hashed: Seq<char>, candidate: Seq<char>) -> bool {
        false
    }

    /// Which strings this hasher may return as fresh session tokens. The
    /// default accepts any string; verified implementations override it.
    open spec fn spec_token_ok(&self, token: Seq<char>) -> bool {
        true
    }

    /// Hash a plaintext password. Any hash handed back verifies against the
    /// password it was produced from.
    fn hash_password(&self, password: &String) -> (r: Result<String, PasswordError>)
        ensures
            r matches Ok(h) ==> self.spec_matches(h@, password@),
            r matches Err(e) ==> e == PasswordError::HashingFailed,
    ;

    /// Verify a candidate password against a stored hash. Succeeds exactly
    /// when the hash matches the candidate.
    fn verify_password(&self, hashed: &String, candidate: &String) -> (r: Result<
        (),
        PasswordError,
    >)
        ensures
            r is Ok <==> self.spec_matches(hashed@, candidate@),
            r matches Err(e) ==> e == PasswordError::VerificationFailed,
    ;

    /// Generate a random session token.
    fn generate_session_token(&self) -> (t: String)
        ensures
            self.spec_token_ok(t@),
    ;
}

/// The hash string the mock hasher produces for a given password.
pub open spec fn spec_mock_hash(password: Seq<char>) -> Seq<char> {
    "mock_hash("@ + password + ")"@
}

/// The fixed token the mock hasher hands out.
pub open spec fn spec_mock_token() -> Seq<char> {
    "mock-session-token"@
}

/// A deterministic hasher for tests: the "hash" embeds the password verbatim.
pub struct MockPasswordHasher;

impl MockPasswordHasher {
    /// Build the mock hash string for a password.
    fn mock_hash(password: &String) -> (r: String)
        ensures
            r@ == spec_mock_hash(password@),
    {
        let mut s = String::from_str("mock_hash(");
        s.append(password.as_str());
        s.append(")");
        s
    }
}

impl PasswordHasherTrait for MockPasswordHasher {
    open spec fn spec_matches(&self, hashed: Seq<char>, candidate: Seq<char>) -> bool {
        hashed == spec_mock_hash(candidate)
    }

    open spec fn spec_token_ok(&self, token: Seq<char>) -> bool {
        token == spec_mock_token()
    }

    /// Never fails, and is deterministic: the result is exactly the mock hash
    /// of the password.
    fn hash_password(&self, password: &String) -> (r: Result<String, PasswordError>)
        ensures
            r matches Ok(h) && h@ == spec_mock_hash(password@),
    {
        Ok(Self::mock_hash(password))
    }

    fn verify_password(&self, hashed: &String, candidate: &String) -> (r: Result<
        (),
        PasswordError,
    >) {
        let expected = Self::mock_hash(candidate);
        if *hashed == expected {
            Ok(())
        } else {
            Err(PasswordError::VerificationFailed)
        }
    }

    fn generate_session_token(&self) -> (t: String) {
        String::from_str("mock-session-token")
    }
}

/// Return the mock hasher, for wiring into tests in place of the production one.
pub fn create_mock_password_hasher() -> (r: Result<MockPasswordHasher, PasswordError>)
    ensures
        r is Ok,
{
    Ok(MockPasswordHasher)
}

/// The mock hash embeds its password injectively: equal hashes come only from
/// equal passwords.
pub proof fn lemma_mock_hash_injective(p1: Seq<char>, p2: Seq<char>)
    requires
        spec_mock_hash(p1) == spec_mock_hash(p2),
    ensures
        p1 == p2,
{
    assert(spec_mock_hash(p1).len() == "mock_hash("@.len() + p1.len() + ")"@.len());
    assert(p1.len() == p2.len());
    assert forall|i: int| 0 <= i < p1.len() implies p1[i] == p2[i] by {
        assert(spec_mock_hash(p1)["mock_hash("@.len() + i] == p1[i]);
        assert(spec_mock_hash(p2)["mock_hash("@.len() + i] == p2[i]);
    }
    assert(p1 =~= p2);
}

/// For the mock hasher, a hash of password `p` verifies against candidate `c`
/// exactly when `c == p`: the matching password is accepted and every other
/// password is rejected.
pub proof fn lemma_mock_verify_exact(hasher: MockPasswordHasher, p: Seq<char>, c: Seq<char>)
    ensures
        hasher.spec_matches(spec_mock_hash(p), c) <==> c == p,
{
    if spec_mock_hash(p) == spec_mock_hash(c) {
        lemma_mock_hash_injective(p, c);
    }
}

} // verus!
