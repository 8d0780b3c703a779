//! Authentication flow and guard chain tests against the in-memory stores
//! and the real credential hasher.

use cr8s::app_user::{AppUserTableTrait, MemoryUserRepo, NewUser};
use cr8s::auth::create_password_hasher;
use cr8s::authorization::{login, Credentials, LoginError};
use cr8s::guards::{authorize_request, me, require_editor, GuardedAppUser};
use cr8s::health::{health_status_code, HealthTrait};
use cr8s::password::PasswordHasherTrait;
use cr8s::session::{CacheContextTrait, SessionStore};
use cr8s::RoleCode;

fn repo_with_user(username: &str, password: &str, roles: Vec<RoleCode>) -> MemoryUserRepo {
    let mut repo = MemoryUserRepo::new();
    let hasher = create_password_hasher().unwrap();
    cr8s::commands::create_user(
        &mut repo,
        &hasher,
        username.to_string(),
        password.to_string(),
        roles,
    )
    .unwrap();
    repo
}

fn guarded(repo: &MemoryUserRepo, username: &str) -> GuardedAppUser {
    GuardedAppUser(repo.find_by_username(&username.to_string()).unwrap())
}

#[test]
fn test_login_success() {
    let repo = repo_with_user("alice", "password", vec![]);
    let hasher = create_password_hasher().unwrap();
    let mut sessions = SessionStore::new();

    let creds = Credentials::new("alice".to_string(), "password".to_string());
    match login(&repo, &hasher, &mut sessions, &creds) {
        Ok((user, token)) => {
            assert_eq!(user.username, "alice");
            assert!(!token.is_empty());
        }
        Err(e) => panic!("Expected success but got error: {:?}", e),
    }
}

#[test]
fn test_login_invalid_password() {
    let repo = repo_with_user("alice", "correct", vec![]);
    let hasher = create_password_hasher().unwrap();
    let mut sessions = SessionStore::new();

    let creds = Credentials::new("alice".to_string(), "wrong".to_string());
    match login(&repo, &hasher, &mut sessions, &creds) {
        Err(e) => assert_eq!(e.status_code(), 401),
        Ok(_) => panic!("Expected unauthorized error but got success"),
    }
}

#[test]
fn test_login_unknown_user_indistinguishable() {
    let repo = repo_with_user("alice", "correct", vec![]);
    let hasher = create_password_hasher().unwrap();
    let mut sessions = SessionStore::new();

    let wrong_password = login(
        &repo,
        &hasher,
        &mut sessions,
        &Credentials::new("alice".to_string(), "wrong".to_string()),
    )
    .unwrap_err();
    let unknown_user = login(
        &repo,
        &hasher,
        &mut sessions,
        &Credentials::new("mallory".to_string(), "whatever".to_string()),
    )
    .unwrap_err();

    assert_eq!(wrong_password.status_code(), 401);
    assert_eq!(unknown_user.status_code(), 401);
    // Enumeration resistance: the two failures carry the same error body.
    assert_eq!(
        format!("{:?}", wrong_password),
        format!("{:?}", unknown_user)
    );
    assert!(matches!(wrong_password, LoginError::InvalidCredentials));
}

#[test]
fn test_login_token_resolves_to_user() {
    let repo = repo_with_user("alice", "password123", vec![RoleCode::Viewer]);
    let hasher = create_password_hasher().unwrap();
    let mut sessions = SessionStore::new();

    let (user, token) = login(
        &repo,
        &hasher,
        &mut sessions,
        &Credentials::new("alice".to_string(), "password123".to_string()),
    )
    .unwrap();
    assert!(!token.is_empty());
    let resolved = sessions.get_user_id_by_session_token(&token).unwrap();
    assert_eq!(resolved, Some(user.id));
}

#[test]
fn test_me_requires_authentication() {
    let repo = repo_with_user("bob", "password123", vec![RoleCode::Viewer]);
    let hasher = create_password_hasher().unwrap();
    let mut sessions = SessionStore::new();

    // No Authorization header at all.
    let no_header = authorize_request(&sessions, &repo, None).unwrap_err();
    assert_eq!(no_header.status_code(), 401);

    // A malformed header (not the `Bearer <token>` shape).
    let malformed = "not-bearer-format".to_string();
    let bad_shape = authorize_request(&sessions, &repo, Some(&malformed)).unwrap_err();
    assert_eq!(bad_shape.status_code(), 401);

    // A syntactically valid but unknown token.
    let unknown = "Bearer deadbeefdeadbeef".to_string();
    let unknown_token = authorize_request(&sessions, &repo, Some(&unknown)).unwrap_err();
    assert_eq!(unknown_token.status_code(), 401);

    // A valid token resolves to the logged-in user.
    let (user, token) = login(
        &repo,
        &hasher,
        &mut sessions,
        &Credentials::new("bob".to_string(), "password123".to_string()),
    )
    .unwrap();
    let header = format!("Bearer {}", token);
    let principal = authorize_request(&sessions, &repo, Some(&header)).unwrap();
    let (id, username) = me(&principal);
    assert_eq!(id, user.id);
    assert_eq!(username, "bob");
}

#[test]
fn test_viewer_forbidden_editor_and_admin_allowed() {
    let hasher = create_password_hasher().unwrap();

    for (roles, expect_allowed) in [
        (vec![RoleCode::Viewer], false),
        (vec![RoleCode::Editor], true),
        (vec![RoleCode::Admin], true),
    ] {
        let repo = repo_with_user("carol", "pw-carol", roles);
        let mut sessions = SessionStore::new();
        let (_, token) = login(
            &repo,
            &hasher,
            &mut sessions,
            &Credentials::new("carol".to_string(), "pw-carol".to_string()),
        )
        .unwrap();
        let header = format!("Bearer {}", token);
        let outcome = require_editor(&sessions, &repo, Some(&header));
        if expect_allowed {
            assert!(outcome.is_ok());
        } else {
            assert_eq!(outcome.unwrap_err().status_code(), 403);
        }
    }
}

#[test]
fn test_is_editor_with_admin_role() {
    let repo = repo_with_user("test_user", "hashed_password", vec![RoleCode::Admin]);
    let user = guarded(&repo, "test_user");
    let result = user.is_editor(&repo).unwrap();
    assert!(result, "Admin should have editor privileges");
}

#[test]
fn test_is_editor_with_editor_role() {
    let repo = repo_with_user("test_user", "hashed_password", vec![RoleCode::Editor]);
    let user = guarded(&repo, "test_user");
    let result = user.is_editor(&repo).unwrap();
    assert!(result, "Editor should have editor privileges");
}

#[test]
fn test_is_editor_with_viewer_role() {
    let repo = repo_with_user("test_user", "hashed_password", vec![RoleCode::Viewer]);
    let user = guarded(&repo, "test_user");
    let result = user.is_editor(&repo).unwrap();
    assert!(!result, "Viewer should not have editor privileges");
}

#[test]
fn test_is_editor_with_multiple_roles() {
    let repo = repo_with_user(
        "test_user",
        "hashed_password",
        vec![RoleCode::Viewer, RoleCode::Editor],
    );
    let user = guarded(&repo, "test_user");
    let result = user.is_editor(&repo).unwrap();
    assert!(
        result,
        "User with Editor among multiple roles should have editor privileges"
    );
}

#[test]
fn test_is_editor_with_no_roles() {
    let repo = repo_with_user("test_user", "hashed_password", vec![]);
    let user = guarded(&repo, "test_user");
    let result = user.is_editor(&repo).unwrap();
    assert!(
        !result,
        "User with no roles should not have editor privileges"
    );
}

#[test]
fn test_is_admin_with_admin_role() {
    let repo = repo_with_user("test_user", "hashed_password", vec![RoleCode::Admin]);
    let user = guarded(&repo, "test_user");
    let result = user.is_admin(&repo).unwrap();
    assert!(result, "Admin should have admin privileges");
}

#[test]
fn test_is_admin_with_editor_role() {
    let repo = repo_with_user("test_user", "hashed_password", vec![RoleCode::Editor]);
    let user = guarded(&repo, "test_user");
    let result = user.is_admin(&repo).unwrap();
    assert!(!result, "Editor should not have admin privileges");
}

#[test]
fn test_is_admin_with_viewer_role() {
    let repo = repo_with_user("test_user", "hashed_password", vec![RoleCode::Viewer]);
    let user = guarded(&repo, "test_user");
    let result = user.is_admin(&repo).unwrap();
    assert!(!result, "Viewer should not have admin privileges");
}

struct MockHealthService {
    should_fail: bool,
}

impl HealthTrait for MockHealthService {
    fn health_check(&mut self) -> Result<(), String> {
        if self.should_fail {
            Err("Health check failed".to_string())
        } else {
            Ok(())
        }
    }
}

#[test]
fn test_check_cache_health_ok() {
    let mut service = MockHealthService { should_fail: false };
    let result = service.health_check();
    assert_eq!(health_status_code(&result), 200);
}

#[test]
fn test_check_cache_health_fails() {
    let mut service = MockHealthService { should_fail: true };
    let result = service.health_check();
    assert_eq!(health_status_code(&result), 503);
}

#[test]
fn test_session_put_overwrites_and_clear_is_idempotent() {
    let mut sessions = SessionStore::new();
    let token = "tok-1".to_string();
    sessions.set_user_session_token(7, &token).unwrap();
    sessions.set_user_session_token(9, &token).unwrap();
    assert_eq!(
        sessions.get_user_id_by_session_token(&token).unwrap(),
        Some(9)
    );
    assert!(sessions.clear_session_token(&token).unwrap());
    assert!(!sessions.clear_session_token(&token).unwrap());
    assert_eq!(sessions.get_user_id_by_session_token(&token).unwrap(), None);
}

#[test]
fn test_require_editor_propagates_unauthorized() {
    let repo = repo_with_user("frank", "pw-frank", vec![RoleCode::Editor]);
    let sessions = SessionStore::new();

    // Tier-1 failures pass through as 401, never as 500.
    assert_eq!(
        require_editor(&sessions, &repo, None).unwrap_err().status_code(),
        401
    );
    let malformed = "Token abc".to_string();
    assert_eq!(
        require_editor(&sessions, &repo, Some(&malformed))
            .unwrap_err()
            .status_code(),
        401
    );
    let unknown = "Bearer no-such-token".to_string();
    assert_eq!(
        require_editor(&sessions, &repo, Some(&unknown))
            .unwrap_err()
            .status_code(),
        401
    );
}

#[test]
fn test_login_failures_leave_sessions_untouched() {
    let repo = repo_with_user("grace", "right", vec![]);
    let hasher = create_password_hasher().unwrap();
    let mut sessions = SessionStore::new();

    // Seed one unrelated session entry.
    let other = "existing-token".to_string();
    sessions.set_user_session_token(42, &other).unwrap();

    // A wrong password and an unknown username both fail with the
    // credential signal and write nothing.
    for creds in [
        Credentials::new("grace".to_string(), "wrong".to_string()),
        Credentials::new("heidi".to_string(), "whatever".to_string()),
    ] {
        let err = login(&repo, &hasher, &mut sessions, &creds).unwrap_err();
        assert!(matches!(err, LoginError::InvalidCredentials));
    }
    assert_eq!(
        sessions.get_user_id_by_session_token(&other).unwrap(),
        Some(42)
    );
}
