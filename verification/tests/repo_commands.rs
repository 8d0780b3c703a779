//! User repository and administration command tests, including the exact
//! shape of the formatted user listing.

use cr8s::app_user::{AppUserTableTrait, MemoryUserRepo, NewUser, RepoError};
use cr8s::commands::{create_user, delete_user, list_users_formatted, user_exists, CommandError};
use cr8s::krate::CrateSummary;
use cr8s::mail::{digest_send, DigestOutcome, MailerTrait};
use cr8s::password::{create_mock_password_hasher, PasswordHasherTrait};
use cr8s::role_code::{Role, RoleCode, RoleCodeMapping};
use cr8s::text::{i32_to_string, parse_i32, u64_to_string};

#[test]
fn test_create_find_and_roles() {
    let mut repo = MemoryUserRepo::new();
    let user = repo
        .create(
            NewUser {
                username: "alice".to_string(),
                password: "h1".to_string(),
            },
            vec![RoleCode::Admin, RoleCode::Viewer],
        )
        .unwrap();
    assert_eq!(user.username, "alice");

    let by_name = repo.find_by_username(&"alice".to_string()).unwrap();
    assert_eq!(by_name.id, user.id);
    let by_id = repo.find(user.id).unwrap();
    assert_eq!(by_id.username, "alice");

    let roles = repo.find_roles_by_user(&user).unwrap();
    assert_eq!(roles, vec![RoleCode::Admin, RoleCode::Viewer]);

    // A second user with the same username is refused.
    assert!(repo
        .create(
            NewUser {
                username: "alice".to_string(),
                password: "h2".to_string(),
            },
            vec![],
        )
        .is_err());
}

#[test]
fn test_user_exists_and_delete() {
    let mut repo = MemoryUserRepo::new();
    let hasher = create_mock_password_hasher().unwrap();
    let user = create_user(
        &mut repo,
        &hasher,
        "dave".to_string(),
        "pw".to_string(),
        vec![RoleCode::Editor],
    )
    .unwrap();

    assert_eq!(user_exists(&repo, &"dave".to_string()), Ok(true));
    assert_eq!(user_exists(&repo, &"nobody".to_string()), Ok(false));

    // The stored record holds a verifying hash, not the plaintext password.
    assert_ne!(user.password, "pw");
    assert!(hasher
        .verify_password(&user.password, &"pw".to_string())
        .is_ok());

    // Creating the same username again reports the conflict.
    let again = create_user(
        &mut repo,
        &hasher,
        "dave".to_string(),
        "pw2".to_string(),
        vec![],
    );
    assert_eq!(again.unwrap_err(), CommandError::UserAlreadyExists);

    // Delete by name, then by (unparseable) name again: silently fine.
    delete_user(&mut repo, &"dave".to_string()).unwrap();
    assert_eq!(user_exists(&repo, &"dave".to_string()), Ok(false));
    delete_user(&mut repo, &"dave".to_string()).unwrap();
}

#[test]
fn test_delete_user_dispatches_on_numeric_argument() {
    let mut repo = MemoryUserRepo::new();
    let hasher = create_mock_password_hasher().unwrap();
    let user = create_user(
        &mut repo,
        &hasher,
        "erin".to_string(),
        "pw".to_string(),
        vec![],
    )
    .unwrap();

    // A numeric argument deletes by id.
    delete_user(&mut repo, &i32_to_string(user.id)).unwrap();
    assert_eq!(user_exists(&repo, &"erin".to_string()), Ok(false));
    assert_eq!(
        repo.find(user.id).unwrap_err(),
        RepoError::NotFound
    );
}

#[test]
fn test_list_users_formatted_exact_table() {
    let mut repo = MemoryUserRepo::new();
    repo.create(
        NewUser {
            username: "alice".to_string(),
            password: "h".to_string(),
        },
        vec![RoleCode::Admin, RoleCode::Editor],
    )
    .unwrap();
    repo.create(
        NewUser {
            username: "bob".to_string(),
            password: "h".to_string(),
        },
        vec![],
    )
    .unwrap();

    let lines = list_users_formatted(&repo).unwrap();
    assert_eq!(lines.len(), 4);
    // Widest username is "alice" (5), so the username column is 7 wide.
    assert_eq!(lines[0], "Username ID     Created At           Roles");
    assert_eq!(lines[1], "-".repeat(47));
    // The in-memory repository records no creation timestamp.
    assert_eq!(lines[2], "alice   1      ".to_owned() + &" ".repeat(20) + " Admin, Editor");
    assert_eq!(lines[3], "bob     2      ".to_owned() + &" ".repeat(20) + " ");
}

struct RecordingMailer {
    sent: Vec<(String, usize)>,
    fail: bool,
}

impl MailerTrait for RecordingMailer {
    fn send_digest(&mut self, email: &String, crates: &Vec<CrateSummary>) -> Result<(), String> {
        if self.fail {
            return Err("smtp unavailable".to_string());
        }
        self.sent.push((email.clone(), crates.len()));
        Ok(())
    }
}

#[test]
fn test_digest_send_skips_empty_and_sends_batches() {
    let mut mailer = RecordingMailer {
        sent: Vec::new(),
        fail: false,
    };
    let email = "ops@example.com".to_string();

    let none = digest_send(&mut mailer, &email, &Vec::new()).unwrap();
    assert_eq!(none, DigestOutcome::NoNewCrates);
    assert!(mailer.sent.is_empty());

    let crates = vec![
        CrateSummary {
            name: "serde".to_string(),
            version: "1.0".to_string(),
        },
        CrateSummary {
            name: "rand".to_string(),
            version: "0.9".to_string(),
        },
    ];
    let sent = digest_send(&mut mailer, &email, &crates).unwrap();
    assert_eq!(sent, DigestOutcome::Sent(2));
    assert_eq!(mailer.sent, vec![("ops@example.com".to_string(), 2)]);

    let mut failing = RecordingMailer {
        sent: Vec::new(),
        fail: true,
    };
    assert!(digest_send(&mut failing, &email, &crates).is_err());
}

#[test]
fn test_role_string_encoding_round_trip() {
    for code in [RoleCode::Admin, RoleCode::Editor, RoleCode::Viewer] {
        let encoded = code.as_str().to_string();
        let decoded = RoleCode::from_str(&encoded).unwrap();
        assert!(decoded == code);
    }
    assert_eq!(RoleCode::Admin.as_str(), "Admin");
    assert!(RoleCode::from_str(&"admin".to_string()).is_err());

    let role = Role {
        id: 3,
        code: RoleCode::Editor,
        name: "Editors".to_string(),
    };
    assert!(RoleCodeMapping::from_role_code(role.code) == RoleCodeMapping::Editor);
    assert!(RoleCodeMapping::Editor.to_role_code() == RoleCode::Editor);
}

#[test]
fn test_decimal_formatting_and_parsing() {
    assert_eq!(i32_to_string(0), "0");
    assert_eq!(i32_to_string(-5), "-5");
    assert_eq!(i32_to_string(2147483647), "2147483647");
    assert_eq!(i32_to_string(-2147483648), "-2147483648");
    assert_eq!(u64_to_string(9007199254740993), "9007199254740993");

    assert_eq!(parse_i32(&"42".to_string()), Some(42));
    assert_eq!(parse_i32(&"-5".to_string()), Some(-5));
    assert_eq!(parse_i32(&"+7".to_string()), Some(7));
    assert_eq!(parse_i32(&"2147483647".to_string()), Some(2147483647));
    assert_eq!(parse_i32(&"2147483648".to_string()), None);
    assert_eq!(parse_i32(&"-2147483648".to_string()), Some(-2147483648));
    assert_eq!(parse_i32(&"-2147483649".to_string()), None);
    assert_eq!(parse_i32(&"".to_string()), None);
    assert_eq!(parse_i32(&"-".to_string()), None);
    assert_eq!(parse_i32(&"12a".to_string()), None);
    assert_eq!(parse_i32(&"999999999999999999999".to_string()), None);
}

#[test]
fn test_prepare_sql_statements_strips_comments_and_splits() {
    let script = "CREATE TABLE role (id INT); -- roles\n-- a whole comment line\nINSERT INTO role VALUES (1);\n ; \nCREATE INDEX i ON role (id)".to_string();
    let stmts = cr8s::database::prepare_sql_statements(&script);
    assert_eq!(
        stmts,
        vec![
            "CREATE TABLE role (id INT)".to_string(),
            "INSERT INTO role VALUES (1)".to_string(),
            "CREATE INDEX i ON role (id)".to_string(),
        ]
    );
}
