//! Administration commands over the user repository: creation with hashed
//! passwords, deletion by id or name, existence checks, and the formatted
//! user listing.

use vstd::prelude::*;
use crate::app_user::{
    AppUser,
    AppUserTableTrait,
    AppUserView,
    NewUser,
    RepoError,
    spec_find_by_id,
    spec_find_by_username,
};
use crate::password::PasswordHasherTrait;
use crate::role_code::{RoleCode, spec_role_str};
use crate::text::{
    i32_to_string,
    join,
    pad_right,
    repeat_char,
    spec_int_str,
    spec_join,
    spec_pad_right,
    spec_parse_i32,
    spec_repeat,
    parse_i32,
};

verus! {

/// Why an administration command failed.
#[derive(Debug, Clone, Copy, PartialEq, Eq, Structural)]
pub enum CommandError {
    /// A user with the requested username already exists.
    UserAlreadyExists,
    /// Password hashing failed.
    Hashing,
    /// The repository failed.
    Repo,
}

/// Whether a user with the given username exists. A missing user is a `false`
/// answer, not an error.
pub fn user_exists<R: AppUserTableTrait>(repo: &R, username: &String) -> (r: Result<
    bool,
    RepoError,
>)
    requires
        repo.spec_wf(),
    ensures
        r matches Ok(b) ==> b == (spec_find_by_username(repo.spec_users(), username@) is Some),
        r matches Err(e) ==> e == RepoError::Backend,
{
    match repo.find_by_username(username) {
        Ok(_) => Ok(true),
        Err(RepoError::NotFound) => Ok(false),
        Err(RepoError::Backend) => Err(RepoError::Backend),
    }
}

/// Create a user: hash the password, then persist the user with its roles.
/// The stored record never holds the plaintext password, only a hash that
/// verifies it.
pub fn create_user<R: AppUserTableTrait, H: PasswordHasherTrait>(
    repo: &mut R,
    hasher: &H,
    username: String,
    password: String,
    role_codes: Vec<RoleCode>,
) -> (r: Result<AppUser, CommandError>)
    requires
        old(repo).spec_wf(),
    ensures
        final(repo).spec_wf(),
        r matches Ok(u) ==> u@.username == username@ && hasher.spec_matches(u@.password, password@)
            && spec_find_by_username(old(repo).spec_users(), username@) is None,
        r matches Ok(u) ==> final(repo).spec_users() == old(repo).spec_users().push(u@),
        r matches Ok(u) ==> final(repo).spec_roles_of(u@.id) == role_codes@,
        (r matches Err(e) && e == CommandError::UserAlreadyExists) ==> spec_find_by_username(
            old(repo).spec_users(),
            username@,
        ) is Some,
        r is Err ==> final(repo).spec_users() == old(repo).spec_users(),
{
    let exists = match user_exists(repo, &username) {
        Ok(b) => b,
        Err(_) => {
            return Err(CommandError::Repo);
        },
    };
    if exists {
        return Err(CommandError::UserAlreadyExists);
    }
    let password_hash = match hasher.hash_password(&password) {
        Ok(h) => h,
        Err(_) => {
            return Err(CommandError::Hashing);
        },
    };
    let new_user = NewUser { username, password: password_hash };
    match repo.create(new_user, role_codes) {
        Ok(user) => Ok(user),
        Err(_) => Err(CommandError::Repo),
    }
}

/// Delete a user by numeric id when the argument parses as one, by username
/// otherwise.
pub fn delete_user<R: AppUserTableTrait>(repo: &mut R, id_or_username: &String) -> (r: Result<
    (),
    RepoError,
>)
    requires
        old(repo).spec_wf(),
    ensures
        final(repo).spec_wf(),
        spec_parse_i32(id_or_username@) matches Some(id) ==> (r is Ok ==> spec_find_by_id(
            final(repo).spec_users(),
            id,
        ) is None),
        spec_parse_i32(id_or_username@) is None ==> (r is Ok ==> spec_find_by_username(
            final(repo).spec_users(),
            id_or_username@,
        ) is None),
{
    match parse_i32(id_or_username) {
        Some(id) => repo.delete_by_id(id),
        None => repo.delete_by_username(id_or_username),
    }
}

/// The widest username among the users, in characters; 10 when there are no
/// users at all.
pub open spec fn spec_names_max_from(users: Seq<AppUserView>, i: int) -> nat
    decreases users.len() - i,
{
    if i >= users.len() {
        0
    } else {
        let rest = spec_names_max_from(users, i + 1);
        if users[i].username.len() > rest {
            users[i].username.len()
        } else {
            rest
        }
    }
}

pub open spec fn spec_max_name_len(users: Seq<AppUserView>) -> nat {
    if users.len() == 0 {
        10
    } else {
        spec_names_max_from(users, 0)
    }
}

/// The username column width: the widest username plus two.
pub open spec fn spec_col_width(maxlen: nat) -> nat {
    if maxlen + 2 <= usize::MAX {
        maxlen + 2
    } else {
        usize::MAX as nat
    }
}

/// The separator width: the username column plus the fixed columns.
pub open spec fn spec_total_width(w: nat) -> nat {
    if w + 40 <= usize::MAX {
        w + 40
    } else {
        usize::MAX as nat
    }
}

/// The header line of the user listing.
pub open spec fn spec_header(w: nat) -> Seq<char> {
    spec_pad_right("Username"@, w) + " "@ + spec_pad_right("ID"@, 6) + " "@ + spec_pad_right(
        "Created At"@,
        20,
    ) + " "@ + "Roles"@
}

/// One user's line in the listing: padded username, id and creation time,
/// then the role names joined with commas.
pub open spec fn spec_user_line(u: AppUserView, roles: Seq<RoleCode>, w: nat) -> Seq<char> {
    spec_pad_right(u.username, w) + " "@ + spec_pad_right(spec_int_str(u.id), 6) + " "@
        + spec_pad_right(u.created_at, 20) + " "@ + spec_join(
        roles.map_values(|rc: RoleCode| spec_role_str(rc)),
        ", "@,
    )
}

fn format_user_line(user: &AppUser, roles: &Vec<RoleCode>, width: usize) -> (r: String)
    ensures
        r@ == spec_user_line(user@, roles@, width as nat),
{
    let mut line = pad_right(&user.username, width);
    line.append(" ");
    let id_str = i32_to_string(user.id);
    let id_col = pad_right(&id_str, 6);
    line.append(id_col.as_str());
    line.append(" ");
    let created_col = pad_right(&user.created_at, 20);
    line.append(created_col.as_str());
    line.append(" ");
    let mut role_names: Vec<String> = Vec::new();
    let mut i: usize = 0;
    while i < roles.len()
        invariant
            i <= roles@.len(),
            role_names@.len() == i,
            forall|j: int| 0 <= j < i ==> (#[trigger] role_names@[j])@ == spec_role_str(roles@[j]),
        decreases roles@.len() - i,
    {
        role_names.push(String::from_str(roles[i].as_str()));
        i = i + 1;
    }
    proof {
        assert(role_names@.map_values(|p: String| p@) =~= roles@.map_values(
            |rc: RoleCode| spec_role_str(rc),
        ));
    }
    let joined = join(&role_names, ", ");
    line.append(joined.as_str());
    line
}

/// Fetch all users with their roles and format them as a table: a header, a
/// separator, and one line per user in insertion order, with the username
/// column sized to the widest name.
pub fn list_users_formatted<R: AppUserTableTrait>(repo: &R) -> (r: Result<Vec<String>, RepoError>)
    requires
        repo.spec_wf(),
    ensures
        r matches Ok(lines) ==> ({
            let users = repo.spec_users();
            let w = spec_col_width(spec_max_name_len(users));
            &&& lines@.len() == 2 + users.len()
            &&& lines@[0]@ == spec_header(w)
            &&& lines@[1]@ == spec_repeat('-', spec_total_width(w))
            &&& forall|i: int|
                0 <= i < users.len() ==> (#[trigger] lines@[2 + i])@ == spec_user_line(
                    users[i],
                    repo.spec_roles_of(users[i].id),
                    w,
                )
        }),
{
    let ghost users = repo.spec_users();
    let rows = match repo.find_with_roles() {
        Ok(rows) => rows,
        Err(_) => {
            return Err(RepoError::Backend);
        },
    };
    let mut maxlen: usize = 0;
    let mut i: usize = 0;
    while i < rows.len()
        invariant
            i <= rows@.len(),
            rows@.len() == users.len(),
            forall|j: int|
                0 <= j < rows@.len() ==> (#[trigger] rows@[j]).0@ == users[j] && rows@[j].1@
                    == repo.spec_roles_of(users[j].id),
            spec_names_max_from(users, 0) == (if maxlen as nat > spec_names_max_from(
                users,
                i as int,
            ) {
                maxlen as nat
            } else {
                spec_names_max_from(users, i as int)
            }),
        decreases rows@.len() - i,
    {
        let len = rows[i].0.username.as_str().unicode_len();
        if len > maxlen {
            maxlen = len;
        }
        i = i + 1;
    }
    let maxlen: usize = if rows.len() == 0 {
        10
    } else {
        maxlen
    };
    proof {
        assert(maxlen as nat == spec_max_name_len(users));
    }
    let width: usize = if maxlen <= usize::MAX - 2 {
        maxlen + 2
    } else {
        usize::MAX
    };
    let total: usize = if width <= usize::MAX - 40 {
        width + 40
    } else {
        usize::MAX
    };
    let mut lines: Vec<String> = Vec::new();
    let mut header = pad_right(&String::from_str("Username"), width);
    header.append(" ");
    let id_col = pad_right(&String::from_str("ID"), 6);
    header.append(id_col.as_str());
    header.append(" ");
    let created_col = pad_right(&String::from_str("Created At"), 20);
    header.append(created_col.as_str());
    header.append(" ");
    header.append("Roles");
    lines.push(header);
    lines.push(repeat_char('-', total));
    let mut i: usize = 0;
    while i < rows.len()
        invariant
            i <= rows@.len(),
            rows@.len() == users.len(),
            lines@.len() == 2 + i,
            width as nat == spec_col_width(spec_max_name_len(users)),
            lines@[0]@ == spec_header(width as nat),
            lines@[1]@ == spec_repeat('-', spec_total_width(width as nat)),
            forall|j: int|
                0 <= j < rows@.len() ==> (#[trigger] rows@[j]).0@ == users[j] && rows@[j].1@
                    == repo.spec_roles_of(users[j].id),
            forall|j: int|
                0 <= j < i ==> (#[trigger] lines@[2 + j])@ == spec_user_line(
                    users[j],
                    repo.spec_roles_of(users[j].id),
                    width as nat,
                ),
        decreases rows@.len() - i,
    {
        let line = format_user_line(&rows[i].0, &rows[i].1, width);
        lines.push(line);
        i = i + 1;
    }
    Ok(lines)
}

} // verus!
