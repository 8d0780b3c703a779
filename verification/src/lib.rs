//! Core library for a user/package management backend: credential hashing,
//! session tokens, role-based authorization, the login flow, and the
//! retry/backoff bootstrap of the two external backing stores.

pub mod app_user;
pub mod auth;
pub mod author;
pub mod authorization;
pub mod bootstrap;
pub mod cli;
pub mod commands;
pub mod database;
pub mod guards;
pub mod health;
pub mod krate;
pub mod mail;
pub mod password;
pub mod role_code;
pub mod server_args;
pub mod session;
pub mod text;

pub use app_user::{
    AppUser, AppUserTableTrait, AppUserView, AppUserWithRoleCodes, MemoryUserRepo, NewUser,
    RepoError,
};
pub use auth::{Argon2PasswordHasher, SESSION_TOKEN_LEN, create_password_hasher};
pub use author::{Author, NewAuthor};
pub use authorization::{Credentials, LoginError, authenticate_user, login};
pub use bootstrap::{
    BootstrapStats, Connector, PoolSlot, RetryConfig, StartupFailure, backoff_delay, run_bootstrap,
};
pub use cli::{Cli, CliRoleCode, Commands, RoleSubcommand, UserSubcommand};
pub use commands::{CommandError, create_user, delete_user, list_users_formatted, user_exists};
pub use database::prepare_sql_statements;
pub use guards::{EditorUser, GuardError, GuardedAppUser, authorize_request, me, require_editor};
pub use health::HealthTrait;
pub use krate::{Crate, CrateSummary, NewCrate};
pub use mail::{DigestOutcome, MailerTrait, digest_send};
pub use password::{
    MockPasswordHasher, PasswordError, PasswordHasherTrait, create_mock_password_hasher,
};
pub use role_code::{Role, RoleCode, RoleCodeMapping, RoleCodeTableTrait};
pub use session::{CacheContextTrait, CacheError, SessionStore, create_cache_context};
