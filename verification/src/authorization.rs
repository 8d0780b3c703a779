//! The login flow: credential verification against a stored user record,
//! session-token issuance, and session-store write-back.
//!
//! Unknown usernames and wrong passwords are collapsed into one
//! `InvalidCredentials` signal so that callers cannot enumerate usernames;
//! only a session-store failure surfaces as `Internal`.

use vstd::prelude::*;
use crate::app_user::{AppUser, AppUserTableTrait, RepoError, spec_find_by_username};
use crate::password::PasswordHasherTrait;
use crate::session::CacheContextTrait;

verus! {

/// Login credentials as handed in by the caller. Transient, never persisted.
#[derive(Debug, Clone)]
pub struct Credentials {
    pub username: String,
    pub password: String,
}

impl Credentials {
    /// Bundle a username and password.
    pub fn new(username: String, password: String) -> (r: Credentials)
        ensures
            r.username@ == username@,
            r.password@ == password@,
    {
        Credentials { username, password }
    }
}

/// Why a login failed.
#[derive(Debug)]
pub enum LoginError {
    /// Unknown username or wrong password; deliberately indistinguishable.
    InvalidCredentials,
    /// An infrastructure fault, with a server-side description.
    Internal(String),
}

impl LoginError {
    /// The HTTP status this error is reported as.
    pub fn status_code(&self) -> (r: u16)
        ensures
            self matches LoginError::InvalidCredentials ==> r == 401,
            self matches LoginError::Internal(_) ==> r == 500,
    {
        match self {
            LoginError::InvalidCredentials => 401,
            LoginError::Internal(_) => 500,
        }
    }
}

/// Decide a login given the outcome of the user lookup: verify the candidate
/// password against the stored hash and, on success, issue a fresh session
/// token. Fails with `InvalidCredentials` exactly when the lookup failed or
/// the password does not match.
pub fn login_decision<H: PasswordHasherTrait>(
    hasher: &H,
    lookup: Result<AppUser, RepoError>,
    creds: &Credentials,
) -> (r: Result<(AppUser, String), LoginError>)
    ensures
        r matches Ok(p) ==> lookup matches Ok(u) && p.0@ == u@ && hasher.spec_matches(
            u@.password,
            creds.password@,
        ) && hasher.spec_token_ok(p.1@),
        r matches Err(e) ==> e matches LoginError::InvalidCredentials,
        r is Err <==> (lookup is Err || (lookup matches Ok(u) && !hasher.spec_matches(
            u@.password,
            creds.password@,
        ))),
{
    let user = match lookup {
        Ok(user) => user,
        Err(_) => {
            return Err(LoginError::InvalidCredentials);
        },
    };
    match hasher.verify_password(&user.password, &creds.password) {
        Ok(()) => {},
        Err(_) => {
            return Err(LoginError::InvalidCredentials);
        },
    }
    let token = hasher.generate_session_token();
    Ok((user, token))
}

/// Authenticate a user: look the username up in the repository, verify the
/// password, and issue a session token. The session store is not touched.
pub fn authenticate_user<R: AppUserTableTrait, H: PasswordHasherTrait>(
    repo: &R,
    hasher: &H,
    creds: &Credentials,
) -> (r: Result<(AppUser, String), LoginError>)
    requires
        repo.spec_wf(),
    ensures
        r matches Ok(p) ==> spec_find_by_username(repo.spec_users(), creds.username@) == Some(
            p.0@,
        ) && hasher.spec_matches(p.0@.password, creds.password@) && hasher.spec_token_ok(p.1@),
        r matches Err(e) ==> e matches LoginError::InvalidCredentials,
        spec_find_by_username(repo.spec_users(), creds.username@) is None ==> r is Err,
        (spec_find_by_username(repo.spec_users(), creds.username@) matches Some(u)
            && !hasher.spec_matches(u.password, creds.password@)) ==> r is Err,
{
    let lookup = repo.find_by_username(&creds.username);
    login_decision(hasher, lookup, creds)
}

/// The full login use case: authenticate, then record the (token, user id)
/// mapping in the session store. One new session entry is written on success;
/// no entry is created on any failure path.
pub fn login<R: AppUserTableTrait, H: PasswordHasherTrait, C: CacheContextTrait>(
    repo: &R,
    hasher: &H,
    sessions: &mut C,
    creds: &Credentials,
) -> (r: Result<(AppUser, String), LoginError>)
    requires
        repo.spec_wf(),
        old(sessions).spec_wf(),
    ensures
        final(sessions).spec_wf(),
        r matches Ok(p) ==> spec_find_by_username(repo.spec_users(), creds.username@) == Some(
            p.0@,
        ) && hasher.spec_matches(p.0@.password, creds.password@) && hasher.spec_token_ok(p.1@),
        r matches Ok(p) ==> final(sessions).spec_lookup_token(p.1@) == Some(p.0.id) && forall|
            t: Seq<char>,
        |
            t != p.1@ ==> final(sessions).spec_lookup_token(t) == old(sessions).spec_lookup_token(
                t,
            ),
        (r matches Err(e) && e is InvalidCredentials) ==> forall|t: Seq<char>|
            final(sessions).spec_lookup_token(t) == old(sessions).spec_lookup_token(t),
        spec_find_by_username(repo.spec_users(), creds.username@) is None ==> (r matches Err(e)
            && e is InvalidCredentials),
        (spec_find_by_username(repo.spec_users(), creds.username@) matches Some(u)
            && !hasher.spec_matches(u.password, creds.password@)) ==> (r matches Err(e)
            && e is InvalidCredentials),
{
    let (user, token) = match authenticate_user(repo, hasher, creds) {
        Ok(p) => p,
        Err(e) => {
            return Err(e);
        },
    };
    match sessions.set_user_session_token(user.id, &token) {
        Ok(()) => Ok((user, token)),
        Err(_) => Err(LoginError::Internal(String::from_str("failed to store session token"))),
    }
}

} // verus!
