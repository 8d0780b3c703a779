//! Command-line grammar of the administration tool: subcommands for user
//! management and digest mail, with role lists parsed case-insensitively.

use vstd::prelude::*;
use crate::role_code::RoleCode;
use crate::text::{
    eq_ignore_ascii_case,
    parse_i32,
    spec_ci_matches,
    spec_parse_i32,
    spec_split_commas,
    spec_trim,
    split_commas,
    trim,
};

verus! {

/// A role name as written on the command line. Parsing is case-insensitive
/// and accepts shortcuts (`a`/`e`/`edit`/`v`/`view`).
#[derive(Clone, Copy, Debug, PartialEq, Eq, Structural)]
pub enum CliRoleCode {
    Admin,
    Editor,
    Viewer,
}

/// What a single role word (before trimming) parses to, if anything.
pub open spec fn spec_role_of(piece: Seq<char>) -> Option<CliRoleCode> {
    let t = spec_trim(piece);
    if spec_ci_matches(t, "admin"@) || spec_ci_matches(t, "a"@) {
        Some(CliRoleCode::Admin)
    } else if spec_ci_matches(t, "editor"@) || spec_ci_matches(t, "edit"@) || spec_ci_matches(
        t,
        "e"@,
    ) {
        Some(CliRoleCode::Editor)
    } else if spec_ci_matches(t, "viewer"@) || spec_ci_matches(t, "view"@) || spec_ci_matches(
        t,
        "v"@,
    ) {
        Some(CliRoleCode::Viewer)
    } else {
        None
    }
}

impl CliRoleCode {
    /// Parse one role word, ignoring surrounding whitespace and ASCII case.
    pub fn from_str(s: &String) -> (r: Result<CliRoleCode, String>)
        ensures
            match r {
                Ok(c) => spec_role_of(s@) == Some(c),
                Err(_) => spec_role_of(s@) is None,
            },
    {
        let t = trim(s.as_str());
        if eq_ignore_ascii_case(t, "admin") || eq_ignore_ascii_case(t, "a") {
            Ok(CliRoleCode::Admin)
        } else if eq_ignore_ascii_case(t, "editor") || eq_ignore_ascii_case(t, "edit")
            || eq_ignore_ascii_case(t, "e") {
            Ok(CliRoleCode::Editor)
        } else if eq_ignore_ascii_case(t, "viewer") || eq_ignore_ascii_case(t, "view")
            || eq_ignore_ascii_case(t, "v") {
            Ok(CliRoleCode::Viewer)
        } else {
            let mut msg = String::from_str("Invalid role: '");
            msg.append(s.as_str());
            msg.append("'. Valid roles: Admin, Editor, Viewer (or a/e/v shortcuts)");
            Err(msg)
        }
    }

    /// The canonical display form of this role name.
    pub fn as_str(&self) -> (r: &'static str)
        ensures
            r@ == crate::role_code::spec_role_str(spec_cli_to_role(*self)),
    {
        match self {
            CliRoleCode::Admin => "Admin",
            CliRoleCode::Editor => "Editor",
            CliRoleCode::Viewer => "Viewer",
        }
    }

    /// The corresponding domain role code.
    pub fn to_role_code(self) -> (r: RoleCode)
        ensures
            r == spec_cli_to_role(self),
    {
        match self {
            CliRoleCode::Admin => RoleCode::Admin,
            CliRoleCode::Editor => RoleCode::Editor,
            CliRoleCode::Viewer => RoleCode::Viewer,
        }
    }
}

pub open spec fn spec_cli_to_role(c: CliRoleCode) -> RoleCode {
    match c {
        CliRoleCode::Admin => RoleCode::Admin,
        CliRoleCode::Editor => RoleCode::Editor,
        CliRoleCode::Viewer => RoleCode::Viewer,
    }
}

/// What a list of role words parses to: every word must parse.
pub open spec fn spec_roles_list(pieces: Seq<Seq<char>>) -> Option<Seq<CliRoleCode>>
    decreases pieces.len(),
{
    if pieces.len() == 0 {
        Some(Seq::empty())
    } else {
        match (spec_role_of(pieces[0]), spec_roles_list(pieces.drop_first())) {
            (Some(r), Some(rest)) => Some(seq![r] + rest),
            _ => None,
        }
    }
}

/// Parse a comma-separated role list.
pub fn parse_roles(value: &String) -> (r: Result<Vec<CliRoleCode>, String>)
    ensures
        match r {
            Ok(rs) => spec_roles_list(spec_split_commas(value@)) == Some(rs@),
            Err(_) => spec_roles_list(spec_split_commas(value@)) is None,
        },
{
    let pieces = split_commas(value);
    let ghost pv = pieces@.map_values(|p: String| p@);
    let mut roles: Vec<CliRoleCode> = Vec::new();
    let mut i: usize = 0;
    proof {
        assert(pv.subrange(0, pv.len() as int) =~= pv);
    }
    while i < pieces.len()
        invariant
            i <= pieces@.len(),
            pv == pieces@.map_values(|p: String| p@),
            pv == spec_split_commas(value@),
            spec_roles_list(pv) == (match spec_roles_list(pv.subrange(i as int, pv.len() as int)) {
                Some(rest) => Some(roles@ + rest),
                None => None::<Seq<CliRoleCode>>,
            }),
        decreases pieces@.len() - i,
    {
        let ghost suf = pv.subrange(i as int, pv.len() as int);
        proof {
            assert(suf[0] == pv[i as int]);
            assert(suf.drop_first() =~= pv.subrange(i + 1 as int, pv.len() as int));
        }
        match CliRoleCode::from_str(&pieces[i]) {
            Ok(role) => {
                roles.push(role);
                proof {
                    if spec_roles_list(suf.drop_first()) is Some {
                        let rest = spec_roles_list(suf.drop_first())->Some_0;
                        assert(roles@ + rest =~= roles@.drop_last() + (seq![role] + rest));
                    }
                }
            },
            Err(e) => {
                proof {
                    assert(suf[0] == pieces@[i as int]@);
                    assert(spec_role_of(suf[0]) is None);
                    assert(spec_roles_list(suf) is None);
                }
                return Err(e);
            },
        }
        i = i + 1;
    }
    proof {
        assert(pv.subrange(pv.len() as int, pv.len() as int) =~= Seq::<Seq<char>>::empty());
        assert(roles@ + Seq::<CliRoleCode>::empty() =~= roles@);
    }
    Ok(roles)
}

/// Subcommands of the administration tool.
pub enum Commands {
    /// Create a new user with the given roles.
    CreateUser { username: String, password: String, roles: Vec<CliRoleCode> },
    /// Delete a user by id.
    DeleteUser { user_id: i32 },
    /// Delete a user by username.
    DeleteUserByName { username: String },
    /// List all users with their roles.
    ListUsers,
    /// Check whether a user exists.
    UserExists { username: String },
    /// Send a digest mail with the packages of the last `hours_since` hours.
    DigestSend { email: String, hours_since: i32 },
    /// Seed the default roles.
    InitDefaultRoles,
}

/// Mathematical view of a parsed command.
pub enum CommandView {
    CreateUser { username: Seq<char>, password: Seq<char>, roles: Seq<CliRoleCode> },
    DeleteUser { user_id: int },
    DeleteUserByName { username: Seq<char> },
    ListUsers,
    UserExists { username: Seq<char> },
    DigestSend { email: Seq<char>, hours_since: int },
    InitDefaultRoles,
}

impl View for Commands {
    type V = CommandView;

    open spec fn view(&self) -> CommandView {
        match self {
            Commands::CreateUser { username, password, roles } => CommandView::CreateUser {
                username: username@,
                password: password@,
                roles: roles@,
            },
            Commands::DeleteUser { user_id } => CommandView::DeleteUser { user_id: *user_id as int },
            Commands::DeleteUserByName { username } => CommandView::DeleteUserByName {
                username: username@,
            },
            Commands::ListUsers => CommandView::ListUsers,
            Commands::UserExists { username } => CommandView::UserExists { username: username@ },
            Commands::DigestSend { email, hours_since } => CommandView::DigestSend {
                email: email@,
                hours_since: *hours_since as int,
            },
            Commands::InitDefaultRoles => CommandView::InitDefaultRoles,
        }
    }
}

/// What the `create-user` option section parses to, scanning flag/value pairs
/// from position `i` with the options gathered so far. A repeated flag, an
/// unknown flag, or a flag without a value fails the parse; the username and
/// password are required, the role list defaults to empty.
pub open spec fn spec_parse_create(
    args: Seq<Seq<char>>,
    i: int,
    u: Option<Seq<char>>,
    p: Option<Seq<char>>,
    rv: Option<Seq<char>>,
) -> Option<CommandView>
    decreases args.len() - i,
{
    if i >= args.len() {
        match (u, p) {
            (Some(username), Some(password)) => {
                let roles = match rv {
                    None => Some(Seq::<CliRoleCode>::empty()),
                    Some(v) => spec_roles_list(spec_split_commas(v)),
                };
                match roles {
                    Some(rs) => Some(
                        CommandView::CreateUser { username, password, roles: rs },
                    ),
                    None => None,
                }
            },
            _ => None,
        }
    } else if i + 1 >= args.len() {
        None
    } else {
        let flag = args[i];
        let value = args[i + 1];
        if (flag == "--username"@ || flag == "-u"@) && u is None {
            spec_parse_create(args, i + 2, Some(value), p, rv)
        } else if (flag == "--password"@ || flag == "-p"@) && p is None {
            spec_parse_create(args, i + 2, u, Some(value), rv)
        } else if (flag == "--roles"@ || flag == "-r"@) && rv is None {
            spec_parse_create(args, i + 2, u, p, Some(value))
        } else {
            None
        }
    }
}

/// What the `digest-send` option section parses to. The email is required;
/// the hour window defaults to 24.
pub open spec fn spec_parse_digest(
    args: Seq<Seq<char>>,
    i: int,
    email: Option<Seq<char>>,
    hours: Option<int>,
) -> Option<CommandView>
    decreases args.len() - i,
{
    if i >= args.len() {
        match email {
            Some(e) => Some(
                CommandView::DigestSend {
                    email: e,
                    hours_since: match hours {
                        Some(h) => h,
                        None => 24,
                    },
                },
            ),
            None => None,
        }
    } else if i + 1 >= args.len() {
        None
    } else {
        let flag = args[i];
        let value = args[i + 1];
        if (flag == "--email"@ || flag == "-e"@) && email is None {
            spec_parse_digest(args, i + 2, Some(value), hours)
        } else if flag == "--hours-since"@ && hours is None {
            match spec_parse_i32(value) {
                Some(h) => spec_parse_digest(args, i + 2, email, Some(h)),
                None => None,
            }
        } else {
            None
        }
    }
}

/// The full command-line grammar: the first argument is the program name, the
/// second the subcommand, the rest the subcommand's arguments.
pub open spec fn spec_parse_cli(args: Seq<Seq<char>>) -> Option<CommandView> {
    if args.len() < 2 {
        None
    } else {
        let sub = args[1];
        if sub == "create-user"@ {
            spec_parse_create(args, 2, None, None, None)
        } else if sub == "delete-user"@ {
            if args.len() == 3 {
                match spec_parse_i32(args[2]) {
                    Some(v) => Some(CommandView::DeleteUser { user_id: v }),
                    None => None,
                }
            } else {
                None
            }
        } else if sub == "delete-user-by-name"@ {
            if args.len() == 3 {
                Some(CommandView::DeleteUserByName { username: args[2] })
            } else {
                None
            }
        } else if sub == "list-users"@ {
            if args.len() == 2 {
                Some(CommandView::ListUsers)
            } else {
                None
            }
        } else if sub == "user-exists"@ {
            if args.len() == 3 {
                Some(CommandView::UserExists { username: args[2] })
            } else {
                None
            }
        } else if sub == "digest-send"@ {
            spec_parse_digest(args, 2, None, None)
        } else if sub == "init-default-roles"@ {
            if args.len() == 2 {
                Some(CommandView::InitDefaultRoles)
            } else {
                None
            }
        } else {
            None
        }
    }
}

/// The administration tool's parsed command line.
pub struct Cli {
    pub command: Commands,
}

impl Cli {
    /// Parse a command line, program name first. Accepts exactly what
    /// `spec_parse_cli` accepts.
    pub fn parse_from(args: Vec<String>) -> (r: Result<Cli, String>)
        ensures
            match r {
                Ok(cli) => spec_parse_cli(args@.map_values(|a: String| a@)) == Some(cli.command@),
                Err(_) => spec_parse_cli(args@.map_values(|a: String| a@)) is None,
            },
    {
        let ghost av = args@.map_values(|a: String| a@);
        if args.len() < 2 {
            return Err(String::from_str("missing subcommand"));
        }
        let sub = &args[1];
        if *sub == String::from_str("create-user") {
            Self::parse_create_user(&args)
        } else if *sub == String::from_str("delete-user") {
            if args.len() != 3 {
                return Err(String::from_str("delete-user takes exactly one user id"));
            }
            match parse_i32(&args[2]) {
                Some(user_id) => Ok(Cli { command: Commands::DeleteUser { user_id } }),
                None => Err(String::from_str("invalid user id")),
            }
        } else if *sub == String::from_str("delete-user-by-name") {
            if args.len() != 3 {
                return Err(String::from_str("delete-user-by-name takes exactly one username"));
            }
            Ok(Cli { command: Commands::DeleteUserByName { username: args[2].clone() } })
        } else if *sub == String::from_str("list-users") {
            if args.len() != 2 {
                return Err(String::from_str("list-users takes no arguments"));
            }
            Ok(Cli { command: Commands::ListUsers })
        } else if *sub == String::from_str("user-exists") {
            if args.len() != 3 {
                return Err(String::from_str("user-exists takes exactly one username"));
            }
            Ok(Cli { command: Commands::UserExists { username: args[2].clone() } })
        } else if *sub == String::from_str("digest-send") {
            Self::parse_digest_send(&args)
        } else if *sub == String::from_str("init-default-roles") {
            if args.len() != 2 {
                return Err(String::from_str("init-default-roles takes no arguments"));
            }
            Ok(Cli { command: Commands::InitDefaultRoles })
        } else {
            Err(String::from_str("unknown subcommand"))
        }
    }

    fn parse_create_user(args: &Vec<String>) -> (r: Result<Cli, String>)
        requires
            args@.len() >= 2,
        ensures
            match r {
                Ok(cli) => spec_parse_create(
                    args@.map_values(|a: String| a@),
                    2,
                    None,
                    None,
                    None,
                ) == Some(cli.command@),
                Err(_) => spec_parse_create(
                    args@.map_values(|a: String| a@),
                    2,
                    None,
                    None,
                    None,
                ) is None,
            },
    {
        let ghost av = args@.map_values(|a: String| a@);
        let mut username: Option<String> = None;
        let mut password: Option<String> = None;
        let mut roles_value: Option<String> = None;
        let mut i: usize = 2;
        while i < args.len()
            invariant
                2 <= i <= args@.len(),
                av == args@.map_values(|a: String| a@),
                spec_parse_create(av, 2, None, None, None) == spec_parse_create(
                    av,
                    i as int,
                    match username {
                        Some(ref u) => Some(u@),
                        None => None,
                    },
                    match password {
                        Some(ref p) => Some(p@),
                        None => None,
                    },
                    match roles_value {
                        Some(ref v) => Some(v@),
                        None => None,
                    },
                ),
            decreases args@.len() - i,
        {
            if i + 1 >= args.len() {
                return Err(String::from_str("flag without a value"));
            }
            let flag = &args[i];
            let is_username = *flag == String::from_str("--username") || *flag == String::from_str(
                "-u",
            );
            let is_password = *flag == String::from_str("--password") || *flag == String::from_str(
                "-p",
            );
            let is_roles = *flag == String::from_str("--roles") || *flag == String::from_str("-r");
            if is_username && username.is_none() {
                username = Some(args[i + 1].clone());
            } else if is_password && password.is_none() {
                password = Some(args[i + 1].clone());
            } else if is_roles && roles_value.is_none() {
                roles_value = Some(args[i + 1].clone());
            } else {
                return Err(String::from_str("unknown or repeated flag"));
            }
            i = i + 2;
        }
        let username = match username {
            Some(u) => u,
            None => {
                return Err(String::from_str("missing --username"));
            },
        };
        let password = match password {
            Some(p) => p,
            None => {
                return Err(String::from_str("missing --password"));
            },
        };
        let roles: Vec<CliRoleCode> = match roles_value {
            None => Vec::new(),
            Some(v) => {
                match parse_roles(&v) {
                    Ok(rs) => rs,
                    Err(e) => {
                        return Err(e);
                    },
                }
            },
        };
        Ok(Cli { command: Commands::CreateUser { username, password, roles } })
    }

    fn parse_digest_send(args: &Vec<String>) -> (r: Result<Cli, String>)
        requires
            args@.len() >= 2,
        ensures
            match r {
                Ok(cli) => spec_parse_digest(args@.map_values(|a: String| a@), 2, None, None)
                    == Some(cli.command@),
                Err(_) => spec_parse_digest(args@.map_values(|a: String| a@), 2, None, None) is None,
            },
    {
        let ghost av = args@.map_values(|a: String| a@);
        let mut email: Option<String> = None;
        let mut hours: Option<i32> = None;
        let mut i: usize = 2;
        while i < args.len()
            invariant
                2 <= i <= args@.len(),
                av == args@.map_values(|a: String| a@),
                spec_parse_digest(av, 2, None, None) == spec_parse_digest(
                    av,
                    i as int,
                    match email {
                        Some(ref e) => Some(e@),
                        None => None,
                    },
                    match hours {
                        Some(h) => Some(h as int),
                        None => None,
                    },
                ),
            decreases args@.len() - i,
        {
            if i + 1 >= args.len() {
                return Err(String::from_str("flag without a value"));
            }
            let flag = &args[i];
            let is_email = *flag == String::from_str("--email") || *flag == String::from_str("-e");
            let is_hours = *flag == String::from_str("--hours-since");
            if is_email && email.is_none() {
                email = Some(args[i + 1].clone());
            } else if is_hours && hours.is_none() {
                match parse_i32(&args[i + 1]) {
                    Some(h) => {
                        hours = Some(h);
                    },
                    None => {
                        return Err(String::from_str("invalid --hours-since value"));
                    },
                }
            } else {
                return Err(String::from_str("unknown or repeated flag"));
            }
            i = i + 2;
        }
        let email = match email {
            Some(e) => e,
            None => {
                return Err(String::from_str("missing --email"));
            },
        };
        let hours_since: i32 = match hours {
            Some(h) => h,
            None => 24,
        };
        Ok(Cli { command: Commands::DigestSend { email, hours_since } })
    }
}

/// Subcommands of the legacy user-management command line, kept as the data
/// model its dispatcher works on.
#[derive(Debug)]
pub enum UserSubcommand {
    /// Create a new user with one or more roles.
    Create { username: String, password: String, roles: Vec<RoleCode> },
    /// Delete a user by id or username.
    Delete { id_or_username: String },
    /// List all users with their assigned roles.
    List,
}

/// Role administration subcommands of the legacy command line.
#[derive(Debug)]
pub enum RoleSubcommand {
    /// Seed the default roles.
    InitDefaults,
}

} // verus!
