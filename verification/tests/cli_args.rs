//! Command-line grammar tests for the administration tool.

use cr8s::cli::{Cli, CliRoleCode, Commands};

fn args(list: &[&str]) -> Vec<String> {
    list.iter().map(|s| s.to_string()).collect()
}

#[test]
fn test_create_user_basic_one_role() {
    let cli = Cli::parse_from(args(&[
        "cr8s-cli",
        "create-user",
        "--username",
        "testuser",
        "--password",
        "secret123",
        "--roles",
        "admin",
    ]))
    .unwrap();

    match cli.command {
        Commands::CreateUser {
            username,
            password,
            roles,
        } => {
            assert_eq!(username, "testuser");
            assert_eq!(password, "secret123");
            assert_eq!(roles.len(), 1);
            assert!(roles[0] == CliRoleCode::Admin);
        }
        _ => panic!("Expected CreateUser command"),
    }
}

#[test]
fn test_create_user_multiple_roles_comma_separated() {
    let cli = Cli::parse_from(args(&[
        "cr8s-cli",
        "create-user",
        "--username",
        "multiuser",
        "--password",
        "complex_pass",
        "--roles",
        "admin,editor,viewer",
    ]))
    .unwrap();

    match cli.command {
        Commands::CreateUser {
            username,
            password,
            roles,
        } => {
            assert_eq!(username, "multiuser");
            assert_eq!(password, "complex_pass");
            assert_eq!(roles.len(), 3);
            assert!(roles.contains(&CliRoleCode::Admin));
            assert!(roles.contains(&CliRoleCode::Editor));
            assert!(roles.contains(&CliRoleCode::Viewer));
        }
        _ => panic!("Expected CreateUser command"),
    }
}

#[test]
fn test_create_user_no_roles() {
    let cli = Cli::parse_from(args(&[
        "cr8s-cli",
        "create-user",
        "--username",
        "noroles",
        "--password",
        "pass123",
    ]))
    .unwrap();

    match cli.command {
        Commands::CreateUser {
            username,
            password,
            roles,
        } => {
            assert_eq!(username, "noroles");
            assert_eq!(password, "pass123");
            assert!(roles.is_empty());
        }
        _ => panic!("Expected CreateUser command"),
    }
}

#[test]
fn test_delete_user_by_id() {
    let cli = Cli::parse_from(args(&["cr8s-cli", "delete-user", "42"])).unwrap();

    match cli.command {
        Commands::DeleteUser { user_id } => {
            assert_eq!(user_id, 42);
        }
        _ => panic!("Expected DeleteUser command"),
    }
}

#[test]
fn test_delete_user_by_name() {
    let cli = Cli::parse_from(args(&["cr8s-cli", "delete-user-by-name", "olduser"])).unwrap();

    match cli.command {
        Commands::DeleteUserByName { username } => {
            assert_eq!(username, "olduser");
        }
        _ => panic!("Expected DeleteUserByName command"),
    }
}

#[test]
fn test_list_users() {
    let cli = Cli::parse_from(args(&["cr8s-cli", "list-users"])).unwrap();

    match cli.command {
        Commands::ListUsers => {
            // No parameters to check, just ensure the correct variant.
        }
        _ => panic!("Expected ListUsers command"),
    }
}

#[test]
fn test_user_exists() {
    let cli = Cli::parse_from(args(&["cr8s-cli", "user-exists", "checkme"])).unwrap();

    match cli.command {
        Commands::UserExists { username } => {
            assert_eq!(username, "checkme");
        }
        _ => panic!("Expected UserExists command"),
    }
}

#[test]
fn test_digest_send_basic() {
    let cli =
        Cli::parse_from(args(&["cr8s-cli", "digest-send", "--email", "test@example.com"])).unwrap();

    match cli.command {
        Commands::DigestSend { email, hours_since } => {
            assert_eq!(email, "test@example.com");
            assert_eq!(hours_since, 24); // Default value
        }
        _ => panic!("Expected DigestSend command"),
    }
}

#[test]
fn test_digest_send_custom_hours() {
    let cli = Cli::parse_from(args(&[
        "cr8s-cli",
        "digest-send",
        "--email",
        "weekly@example.com",
        "--hours-since",
        "168",
    ]))
    .unwrap();

    match cli.command {
        Commands::DigestSend { email, hours_since } => {
            assert_eq!(email, "weekly@example.com");
            assert_eq!(hours_since, 168); // 1 week
        }
        _ => panic!("Expected DigestSend command"),
    }
}

#[test]
fn test_init_default_roles() {
    let cli = Cli::parse_from(args(&["cr8s-cli", "init-default-roles"])).unwrap();

    match cli.command {
        Commands::InitDefaultRoles => {
            // No parameters to check.
        }
        _ => panic!("Expected InitDefaultRoles command"),
    }
}

#[test]
fn test_role_code_conversion() {
    let admin = CliRoleCode::Admin.to_role_code();
    let editor = CliRoleCode::Editor.to_role_code();
    let viewer = CliRoleCode::Viewer.to_role_code();

    let _admin_str = format!("{:?}", admin);
    let _editor_str = format!("{:?}", editor);
    let _viewer_str = format!("{:?}", viewer);
}

#[test]
fn test_role_code_cloning_and_equality() {
    let role1 = CliRoleCode::Admin;
    let role2 = role1.clone();
    let role3 = CliRoleCode::Editor;

    assert!(role1 == role2);
    assert!(role1 != role3);
    assert!(role2 != role3);
}

#[test]
fn test_empty_username_allowed() {
    // CLI parsing allows empty strings, business logic should validate.
    let cli = Cli::parse_from(args(&[
        "cr8s-cli",
        "create-user",
        "--username",
        "",
        "--password",
        "pass",
    ]))
    .unwrap();

    match cli.command {
        Commands::CreateUser { username, .. } => {
            assert!(username.is_empty());
        }
        _ => panic!("Expected CreateUser command"),
    }
}

#[test]
fn test_negative_user_id() {
    let cli = Cli::parse_from(args(&["cr8s-cli", "delete-user", "-5"])).unwrap();

    match cli.command {
        Commands::DeleteUser { user_id } => {
            assert_eq!(user_id, -5);
        }
        _ => panic!("Expected DeleteUser command"),
    }
}

#[test]
fn test_zero_hours_since() {
    let cli = Cli::parse_from(args(&[
        "cr8s-cli",
        "digest-send",
        "--email",
        "immediate@example.com",
        "--hours-since",
        "0",
    ]))
    .unwrap();

    match cli.command {
        Commands::DigestSend { email, hours_since } => {
            assert_eq!(email, "immediate@example.com");
            assert_eq!(hours_since, 0);
        }
        _ => panic!("Expected DigestSend command"),
    }
}

#[test]
fn test_large_hours_since() {
    let cli = Cli::parse_from(args(&[
        "cr8s-cli",
        "digest-send",
        "--email",
        "archive@example.com",
        "--hours-since",
        "8760", // 1 year
    ]))
    .unwrap();

    match cli.command {
        Commands::DigestSend { email, hours_since } => {
            assert_eq!(email, "archive@example.com");
            assert_eq!(hours_since, 8760);
        }
        _ => panic!("Expected DigestSend command"),
    }
}

#[test]
fn test_special_characters_in_username() {
    let cli = Cli::parse_from(args(&[
        "cr8s-cli",
        "create-user",
        "--username",
        "user.name+test@domain",
        "--password",
        "p@ssw0rd!",
    ]))
    .unwrap();

    match cli.command {
        Commands::CreateUser {
            username, password, ..
        } => {
            assert_eq!(username, "user.name+test@domain");
            assert_eq!(password, "p@ssw0rd!");
        }
        _ => panic!("Expected CreateUser command"),
    }
}

#[test]
fn test_unicode_in_username() {
    let cli = Cli::parse_from(args(&[
        "cr8s-cli",
        "create-user",
        "--username",
        "用戶名",
        "--password",
        "パスワード",
    ]))
    .unwrap();

    match cli.command {
        Commands::CreateUser {
            username, password, ..
        } => {
            assert_eq!(username, "用戶名");
            assert_eq!(password, "パスワード");
        }
        _ => panic!("Expected CreateUser command"),
    }
}

#[test]
fn test_very_long_input() {
    let long_username = "a".repeat(1000);
    let long_password = "b".repeat(1000);

    let cli = Cli::parse_from(args(&[
        "cr8s-cli",
        "create-user",
        "--username",
        &long_username,
        "--password",
        &long_password,
    ]))
    .unwrap();

    match cli.command {
        Commands::CreateUser {
            username, password, ..
        } => {
            assert_eq!(username.len(), 1000);
            assert_eq!(password.len(), 1000);
            assert!(username.chars().all(|c| c == 'a'));
            assert!(password.chars().all(|c| c == 'b'));
        }
        _ => panic!("Expected CreateUser command"),
    }
}

#[test]
fn test_role_case_insensitive_parsing() {
    let admin = CliRoleCode::from_str(&"ADMIN".to_string()).unwrap();
    let editor = CliRoleCode::from_str(&"EdItOr".to_string()).unwrap();
    let viewer = CliRoleCode::from_str(&"viewer".to_string()).unwrap();

    assert!(admin == CliRoleCode::Admin);
    assert!(editor == CliRoleCode::Editor);
    assert!(viewer == CliRoleCode::Viewer);
}

#[test]
fn test_invalid_role_parsing() {
    let result = CliRoleCode::from_str(&"invalid_role".to_string());
    assert!(result.is_err());
    assert!(result.unwrap_err().contains("Invalid role"));
}

#[test]
fn test_role_shortcuts_and_trimming() {
    assert!(CliRoleCode::from_str(&" a ".to_string()).unwrap() == CliRoleCode::Admin);
    assert!(CliRoleCode::from_str(&"edit".to_string()).unwrap() == CliRoleCode::Editor);
    assert!(CliRoleCode::from_str(&"\tView\n".to_string()).unwrap() == CliRoleCode::Viewer);
}

#[test]
fn test_rejects_unknown_subcommand_and_bad_id() {
    assert!(Cli::parse_from(args(&["cr8s-cli", "frobnicate"])).is_err());
    assert!(Cli::parse_from(args(&["cr8s-cli", "delete-user", "forty-two"])).is_err());
    assert!(Cli::parse_from(args(&["cr8s-cli"])).is_err());
    assert!(Cli::parse_from(args(&["cr8s-cli", "create-user", "--username", "x"])).is_err());
}

#[test]
fn test_roles_value_is_trimmed_and_case_insensitive() {
    let cli = Cli::parse_from(args(&[
        "cr8s-cli",
        "create-user",
        "--username",
        "u",
        "--password",
        "p",
        "--roles",
        " Admin , e ,VIEW",
    ]))
    .unwrap();

    match cli.command {
        Commands::CreateUser { roles, .. } => {
            assert_eq!(
                roles,
                vec![CliRoleCode::Admin, CliRoleCode::Editor, CliRoleCode::Viewer]
            );
        }
        _ => panic!("Expected CreateUser command"),
    }

    let bad = Cli::parse_from(args(&[
        "cr8s-cli",
        "create-user",
        "--username",
        "u",
        "--password",
        "p",
        "--roles",
        "admin,invalid",
    ]));
    assert!(bad.is_err());
}
