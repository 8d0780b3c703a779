//! The two-tier authorization guard chain.
//!
//! Tier 1 resolves a bearer token from the authorization header to an
//! authenticated principal through the session store and the user repository.
//! Tier 2 additionally checks role membership: a capability is granted when
//! the principal holds `Admin` or `Editor`, and denied for `Viewer` alone.
//! The chain is fail-fast: the first failing tier decides the outcome.

use vstd::prelude::*;
use crate::app_user::{AppUser, AppUserTableTrait, RepoError, spec_find_by_id};
use crate::role_code::RoleCode;
use crate::session::CacheContextTrait;

verus! {

/// An authenticated principal: the user resolved from a valid session token.
#[derive(Debug)]
pub struct GuardedAppUser(pub AppUser);

/// A principal that has passed the editor capability check.
#[derive(Debug)]
pub struct EditorUser(pub GuardedAppUser);

/// Why a guarded request was rejected.
#[derive(Debug, Clone, Copy, PartialEq, Eq, Structural)]
pub enum GuardError {
    /// Missing, malformed, or unresolvable session token.
    Unauthorized,
    /// The principal lacks the required role.
    Forbidden,
    /// An infrastructure fault while checking roles.
    InternalError,
}

impl GuardError {
    /// The HTTP status this rejection is reported as.
    pub fn status_code(&self) -> (r: u16)
        ensures
            *self == GuardError::Unauthorized ==> r == 401,
            *self == GuardError::Forbidden ==> r == 403,
            *self == GuardError::InternalError ==> r == 500,
    {
        match self {
            GuardError::Unauthorized => 401,
            GuardError::Forbidden => 403,
            GuardError::InternalError => 500,
        }
    }
}

/// The token carried by an authorization header value of exactly the shape
/// `Bearer <token>`, and nothing otherwise.
pub open spec fn spec_bearer_token(h: Seq<char>) -> Option<Seq<char>> {
    if h.len() >= 7 && h.subrange(0, 7) == "Bearer "@ {
        Some(h.subrange(7, h.len() as int))
    } else {
        None
    }
}

/// Extract the bearer token from an authorization header value, if the value
/// has exactly the `Bearer <token>` shape.
pub fn parse_bearer_token(header: Option<&String>) -> (r: Option<String>)
    ensures
        match r {
            Some(t) => header matches Some(h) && spec_bearer_token(h@) == Some(t@),
            None => header matches Some(h) ==> spec_bearer_token(h@) is None,
        },
{
    let h = match header {
        Some(h) => h,
        None => {
            return None;
        },
    };
    let st = h.as_str();
    let n = st.unicode_len();
    proof {
        reveal_strlit("Bearer ");
    }
    if n < 7 {
        return None;
    }
    let prefix = String::from_str(st.substring_char(0, 7));
    let expected = String::from_str("Bearer ");
    if prefix == expected {
        Some(String::from_str(st.substring_char(7, n)))
    } else {
        None
    }
}

/// Whether a role set grants the editor capability: `Admin` or `Editor` is in
/// the set.
pub open spec fn spec_grants_editor(roles: Seq<RoleCode>) -> bool {
    exists|i: int|
        0 <= i < roles.len() && ((#[trigger] roles[i]) == RoleCode::Admin || roles[i]
            == RoleCode::Editor)
}

/// Whether a role set grants the admin capability: `Admin` is in the set.
pub open spec fn spec_grants_admin(roles: Seq<RoleCode>) -> bool {
    exists|i: int| 0 <= i < roles.len() && (#[trigger] roles[i]) == RoleCode::Admin
}

/// Whether the role list contains `Admin` or `Editor`.
pub fn has_editor_role(roles: &Vec<RoleCode>) -> (r: bool)
    ensures
        r == spec_grants_editor(roles@),
{
    let mut i: usize = 0;
    while i < roles.len()
        invariant
            i <= roles@.len(),
            forall|j: int|
                0 <= j < i ==> (#[trigger] roles@[j]) != RoleCode::Admin && roles@[j]
                    != RoleCode::Editor,
        decreases roles@.len() - i,
    {
        let role = roles[i];
        if matches!(role, RoleCode::Admin | RoleCode::Editor) {
            return true;
        }
        i = i + 1;
    }
    false
}

/// Whether the role list contains `Admin`.
pub fn has_admin_role(roles: &Vec<RoleCode>) -> (r: bool)
    ensures
        r == spec_grants_admin(roles@),
{
    let mut i: usize = 0;
    while i < roles.len()
        invariant
            i <= roles@.len(),
            forall|j: int| 0 <= j < i ==> (#[trigger] roles@[j]) != RoleCode::Admin,
        decreases roles@.len() - i,
    {
        let role = roles[i];
        if matches!(role, RoleCode::Admin) {
            return true;
        }
        i = i + 1;
    }
    false
}

/// `Admin` grants every editor-gated capability.
pub proof fn lemma_admin_implies_editor(roles: Seq<RoleCode>)
    ensures
        spec_grants_admin(roles) ==> spec_grants_editor(roles),
{
}

/// A role set of `Viewer` alone grants neither capability.
pub proof fn lemma_viewer_grants_nothing(roles: Seq<RoleCode>)
    requires
        forall|i: int| 0 <= i < roles.len() ==> (#[trigger] roles[i]) == RoleCode::Viewer,
    ensures
        !spec_grants_editor(roles),
        !spec_grants_admin(roles),
{
}

impl GuardedAppUser {
    /// Whether this principal holds the editor capability (`Admin` or
    /// `Editor` among its roles).
    pub fn is_editor<R: AppUserTableTrait>(&self, user_repo: &R) -> (r: Result<bool, RepoError>)
        requires
            user_repo.spec_wf(),
        ensures
            r matches Ok(b) ==> b == spec_grants_editor(user_repo.spec_roles_of(self.0@.id)),
    {
        match user_repo.find_roles_by_user(&self.0) {
            Ok(roles) => Ok(has_editor_role(&roles)),
            Err(e) => Err(e),
        }
    }

    /// Whether this principal holds the admin capability.
    pub fn is_admin<R: AppUserTableTrait>(&self, user_repo: &R) -> (r: Result<bool, RepoError>)
        requires
            user_repo.spec_wf(),
        ensures
            r matches Ok(b) ==> b == spec_grants_admin(user_repo.spec_roles_of(self.0@.id)),
    {
        match user_repo.find_roles_by_user(&self.0) {
            Ok(roles) => Ok(has_admin_role(&roles)),
            Err(e) => Err(e),
        }
    }
}

/// Tier 1: resolve the authorization header to an authenticated principal.
/// Every failure — missing or malformed header, unknown token, missing user —
/// is reported as `Unauthorized`, never distinguished to the caller.
pub fn authorize_request<C: CacheContextTrait, R: AppUserTableTrait>(
    sessions: &C,
    repo: &R,
    auth_header: Option<&String>,
) -> (r: Result<GuardedAppUser, GuardError>)
    requires
        sessions.spec_wf(),
        repo.spec_wf(),
    ensures
        r matches Ok(g) ==> auth_header matches Some(h) && spec_bearer_token(h@) matches Some(t)
            && sessions.spec_lookup_token(t) == Some(g.0.id) && spec_find_by_id(
            repo.spec_users(),
            g.0@.id,
        ) == Some(g.0@),
        r matches Err(e) ==> e == GuardError::Unauthorized,
        auth_header is None ==> r is Err,
        auth_header matches Some(h) && spec_bearer_token(h@) is None ==> r is Err,
        auth_header matches Some(h) && spec_bearer_token(h@) matches Some(t)
            && sessions.spec_lookup_token(t) is None ==> r is Err,
        auth_header matches Some(h) && spec_bearer_token(h@) matches Some(t)
            && sessions.spec_lookup_token(t) matches Some(uid) && spec_find_by_id(
            repo.spec_users(),
            uid as int,
        ) is None ==> r is Err,
{
    let token = match parse_bearer_token(auth_header) {
        Some(t) => t,
        None => {
            return Err(GuardError::Unauthorized);
        },
    };
    let user_id = match sessions.get_user_id_by_session_token(&token) {
        Ok(Some(id)) => id,
        _ => {
            return Err(GuardError::Unauthorized);
        },
    };
    match repo.find(user_id) {
        Ok(user) => {
            proof {
                crate::app_user::lemma_find_by_id_has_id(repo.spec_users(), user_id as int);
            }
            Ok(GuardedAppUser(user))
        },
        Err(_) => Err(GuardError::Unauthorized),
    }
}

/// Tier 2 on top of tier 1: demand the editor capability. A resolved
/// principal without it is `Forbidden`; a role-lookup infrastructure failure
/// is `InternalError`, distinct from an authorization denial.
pub fn require_editor<C: CacheContextTrait, R: AppUserTableTrait>(
    sessions: &C,
    repo: &R,
    auth_header: Option<&String>,
) -> (r: Result<EditorUser, GuardError>)
    requires
        sessions.spec_wf(),
        repo.spec_wf(),
    ensures
        r matches Ok(e) ==> auth_header matches Some(h) && spec_bearer_token(h@) matches Some(t)
            && sessions.spec_lookup_token(t) == Some(e.0.0.id) && spec_find_by_id(
            repo.spec_users(),
            e.0.0@.id,
        ) == Some(e.0.0@) && spec_grants_editor(repo.spec_roles_of(e.0.0@.id)),
        (r matches Err(g) && g == GuardError::Forbidden) ==> (auth_header matches Some(h)
            && spec_bearer_token(h@) matches Some(t) && sessions.spec_lookup_token(
            t,
        ) matches Some(uid) && spec_find_by_id(repo.spec_users(), uid as int) matches Some(u)
            && !spec_grants_editor(repo.spec_roles_of(u.id))),
        (r matches Err(g) && g == GuardError::InternalError) ==> (auth_header matches Some(h)
            && spec_bearer_token(h@) matches Some(t) && sessions.spec_lookup_token(
            t,
        ) matches Some(uid) && spec_find_by_id(repo.spec_users(), uid as int) is Some),
        auth_header is None ==> (r matches Err(g) && g == GuardError::Unauthorized),
        auth_header matches Some(h) && spec_bearer_token(h@) is None ==> (r matches Err(g) && g
            == GuardError::Unauthorized),
        auth_header matches Some(h) && spec_bearer_token(h@) matches Some(t)
            && sessions.spec_lookup_token(t) is None ==> (r matches Err(g) && g
            == GuardError::Unauthorized),
        auth_header matches Some(h) && spec_bearer_token(h@) matches Some(t)
            && sessions.spec_lookup_token(t) matches Some(uid) && spec_find_by_id(
            repo.spec_users(),
            uid as int,
        ) is None ==> (r matches Err(g) && g == GuardError::Unauthorized),
{
    let user = match authorize_request(sessions, repo, auth_header) {
        Ok(user) => user,
        Err(e) => {
            return Err(e);
        },
    };
    match user.is_editor(repo) {
        Ok(true) => Ok(EditorUser(user)),
        Ok(false) => Err(GuardError::Forbidden),
        Err(_) => Err(GuardError::InternalError),
    }
}

/// The principal fields exposed to an authenticated caller: id and username.
/// The password hash is never serialized to clients.
pub fn me(user: &GuardedAppUser) -> (r: (i32, String))
    ensures
        r.0 == user.0.id,
        r.1@ == user.0.username@,
{
    (user.0.id, user.0.username.clone())
}

} // verus!
