//! Application users: the domain model, the repository interface, and a
//! verified in-memory repository.
//!
//! The repository trait is the abstraction point between the core and the
//! relational store: a production implementation runs queries against the
//! backing database, while `MemoryUserRepo` keeps everything in process and is
//! what the verified logic and the tests are exercised against.

use vstd::prelude::*;
use crate::role_code::RoleCode;

verus! {

/// Mathematical view of a user record.
pub struct AppUserView {
    pub id: int,
    pub username: Seq<char>,
    pub password: Seq<char>,
    pub created_at: Seq<char>,
}

/// A stored user. `password` holds the password hash, never a plaintext
/// password; `created_at` carries the rendered creation timestamp, which the
/// core never interprets.
#[derive(Debug, Clone)]
pub struct AppUser {
    pub id: i32,
    pub username: String,
    pub password: String,
    pub created_at: String,
}

impl View for AppUser {
    type V = AppUserView;

    open spec fn view(&self) -> AppUserView {
        AppUserView {
            id: self.id as int,
            username: self.username@,
            password: self.password@,
            created_at: self.created_at@,
        }
    }
}

impl AppUser {
    /// A field-by-field copy with the same view.
    pub fn duplicate(&self) -> (r: AppUser)
        ensures
            r@ == self@,
    {
        AppUser {
            id: self.id,
            username: self.username.clone(),
            password: self.password.clone(),
            created_at: self.created_at.clone(),
        }
    }
}

/// A user as handed in on registration.
#[derive(Debug, Clone)]
pub struct NewUser {
    pub username: String,
    pub password: String,
}

/// A user together with the roles assigned to it.
pub type AppUserWithRoleCodes = (AppUser, Vec<RoleCode>);

/// Failure modes of a repository call.
#[derive(Debug, Clone, Copy, PartialEq, Eq, Structural)]
pub enum RepoError {
    /// No record matches the query.
    NotFound,
    /// The backing store failed.
    Backend,
}

/// The first user with the given username, if any.
pub open spec fn spec_find_by_username(users: Seq<AppUserView>, name: Seq<char>) -> Option<
    AppUserView,
>
    decreases users.len(),
{
    if users.len() == 0 {
        None
    } else if users[0].username == name {
        Some(users[0])
    } else {
        spec_find_by_username(users.drop_first(), name)
    }
}

/// The first user with the given id, if any.
pub open spec fn spec_find_by_id(users: Seq<AppUserView>, id: int) -> Option<AppUserView>
    decreases users.len(),
{
    if users.len() == 0 {
        None
    } else if users[0].id == id {
        Some(users[0])
    } else {
        spec_find_by_id(users.drop_first(), id)
    }
}

/// A user found by id carries that id.
pub proof fn lemma_find_by_id_has_id(users: Seq<AppUserView>, id: int)
    ensures
        spec_find_by_id(users, id) matches Some(u) ==> u.id == id,
    decreases users.len(),
{
    if users.len() > 0 {
        lemma_find_by_id_has_id(users.drop_first(), id);
    }
}

/// The roles assigned to `uid`, in assignment order.
pub open spec fn spec_roles_for(asgn: Seq<(i32, RoleCode)>, uid: int) -> Seq<RoleCode>
    decreases asgn.len(),
{
    if asgn.len() == 0 {
        Seq::empty()
    } else {
        let rest = spec_roles_for(asgn.drop_first(), uid);
        if asgn[0].0 == uid {
            seq![asgn[0].1] + rest
        } else {
            rest
        }
    }
}

/// Abstract user repository: lookups by id and by name, role queries, and
/// user creation and deletion. Any call may fail with `RepoError::Backend`;
/// the in-memory implementation never does.
pub trait AppUserTableTrait: Sized {
    /// Implementation-specific well-formedness. The default leaves an outside
    /// implementation unconstrained; verified implementations override it.
    open spec fn spec_wf(&self) -> bool {
        true
    }

    /// The stored users, in insertion order. The default claims nothing;
    /// verified implementations override it.
    open spec fn spec_users(&self) -> Seq<AppUserView> {
        Seq::empty()
    }

    /// The roles assigned to a user id. The default claims nothing; verified
    /// implementations override it.
    open spec fn spec_roles_of(&self, user_id: int) -> Seq<RoleCode> {
        Seq::empty()
    }

    /// Create a new user with the given roles (possibly none). Succeeds only
    /// for a username not yet taken; the new record carries the given
    /// username and password hash and the given roles.
    fn create(&mut self, new_user: NewUser, role_codes: Vec<RoleCode>) -> (r: Result<
        AppUser,
        RepoError,
    >)
        requires
            old(self).spec_wf(),
        ensures
            final(self).spec_wf(),
            r matches Ok(u) ==> u@.username == new_user.username@ && u@.password
                == new_user.password@,
            r matches Ok(u) ==> spec_find_by_username(
                old(self).spec_users(),
                new_user.username@,
            ) is None,
            r matches Ok(u) ==> final(self).spec_users() == old(self).spec_users().push(u@),
            r matches Ok(u) ==> final(self).spec_roles_of(u@.id) == role_codes@,
            r is Err ==> final(self).spec_users() == old(self).spec_users(),
    ;

    /// Find a user by unique id.
    fn find(&self, id: i32) -> (r: Result<AppUser, RepoError>)
        requires
            self.spec_wf(),
        ensures
            match r {
                Ok(u) => spec_find_by_id(self.spec_users(), id as int) == Some(u@),
                Err(RepoError::NotFound) => spec_find_by_id(self.spec_users(), id as int) is None,
                Err(RepoError::Backend) => true,
            },
    ;

    /// Find a user by unique username.
    fn find_by_username(&self, username: &String) -> (r: Result<AppUser, RepoError>)
        requires
            self.spec_wf(),
        ensures
            match r {
                Ok(u) => spec_find_by_username(self.spec_users(), username@) == Some(u@),
                Err(RepoError::NotFound) => spec_find_by_username(
                    self.spec_users(),
                    username@,
                ) is None,
                Err(RepoError::Backend) => true,
            },
    ;

    /// The roles this user holds.
    fn find_roles_by_user(&self, user: &AppUser) -> (r: Result<Vec<RoleCode>, RepoError>)
        requires
            self.spec_wf(),
        ensures
            r matches Ok(roles) ==> roles@ == self.spec_roles_of(user@.id),
    ;

    /// Delete a user by id; succeeds silently when no such user exists.
    fn delete_by_id(&mut self, user_id: i32) -> (r: Result<(), RepoError>)
        requires
            old(self).spec_wf(),
        ensures
            final(self).spec_wf(),
            r is Ok ==> spec_find_by_id(final(self).spec_users(), user_id as int) is None
                && forall|id2: int|
                id2 != user_id ==> spec_find_by_id(final(self).spec_users(), id2)
                    == spec_find_by_id(old(self).spec_users(), id2),
    ;

    /// Delete a user by username; succeeds silently when no such user exists.
    fn delete_by_username(&mut self, username: &String) -> (r: Result<(), RepoError>)
        requires
            old(self).spec_wf(),
        ensures
            final(self).spec_wf(),
            r is Ok ==> spec_find_by_username(final(self).spec_users(), username@) is None
                && forall|n2: Seq<char>|
                n2 != username@ ==> spec_find_by_username(final(self).spec_users(), n2)
                    == spec_find_by_username(old(self).spec_users(), n2),
    ;

    /// All users together with their roles, in insertion order.
    fn find_with_roles(&self) -> (r: Result<Vec<AppUserWithRoleCodes>, RepoError>)
        requires
            self.spec_wf(),
        ensures
            r matches Ok(v) ==> v@.len() == self.spec_users().len() && forall|i: int|
                0 <= i < v@.len() ==> (#[trigger] v@[i]).0@ == self.spec_users()[i] && v@[i].1@
                    == self.spec_roles_of(self.spec_users()[i].id),
    ;
}

/// No two users share an id.
pub open spec fn unique_ids(users: Seq<AppUserView>) -> bool {
    forall|i: int, j: int| 0 <= i < j < users.len() ==> (#[trigger] users[i]).id != (
    #[trigger] users[j]).id
}

/// No two users share a username.
pub open spec fn unique_names(users: Seq<AppUserView>) -> bool {
    forall|i: int, j: int| 0 <= i < j < users.len() ==> (#[trigger] users[i]).username != (
    #[trigger] users[j]).username
}

proof fn lemma_find_id_found(users: Seq<AppUserView>, id: int, k: int)
    requires
        0 <= k < users.len(),
        users[k].id == id,
        forall|j: int| 0 <= j < k ==> (#[trigger] users[j]).id != id,
    ensures
        spec_find_by_id(users, id) == Some(users[k]),
    decreases users.len(),
{
    if k > 0 {
        lemma_find_id_found(users.drop_first(), id, k - 1);
    }
}

proof fn lemma_find_id_absent(users: Seq<AppUserView>, id: int)
    ensures
        (spec_find_by_id(users, id) is None) == (forall|j: int|
            0 <= j < users.len() ==> (#[trigger] users[j]).id != id),
    decreases users.len(),
{
    if users.len() > 0 {
        let sub = users.drop_first();
        lemma_find_id_absent(sub, id);
        if forall|j: int| 0 <= j < users.len() ==> (#[trigger] users[j]).id != id {
            assert forall|j: int| 0 <= j < sub.len() implies (#[trigger] sub[j]).id != id by {
                assert(sub[j] == users[j + 1]);
            }
        }
        if spec_find_by_id(users, id) is None {
            assert forall|j: int| 0 <= j < users.len() implies (#[trigger] users[j]).id != id by {
                if j > 0 {
                    assert(sub[j - 1] == users[j]);
                }
            }
        }
    }
}

proof fn lemma_find_name_found(users: Seq<AppUserView>, name: Seq<char>, k: int)
    requires
        0 <= k < users.len(),
        users[k].username == name,
        forall|j: int| 0 <= j < k ==> (#[trigger] users[j]).username != name,
    ensures
        spec_find_by_username(users, name) == Some(users[k]),
    decreases users.len(),
{
    if k > 0 {
        lemma_find_name_found(users.drop_first(), name, k - 1);
    }
}

proof fn lemma_find_name_absent(users: Seq<AppUserView>, name: Seq<char>)
    ensures
        (spec_find_by_username(users, name) is None) == (forall|j: int|
            0 <= j < users.len() ==> (#[trigger] users[j]).username != name),
    decreases users.len(),
{
    if users.len() > 0 {
        let sub = users.drop_first();
        lemma_find_name_absent(sub, name);
        if forall|j: int| 0 <= j < users.len() ==> (#[trigger] users[j]).username != name {
            assert forall|j: int| 0 <= j < sub.len() implies (#[trigger] sub[j]).username
                != name by {
                assert(sub[j] == users[j + 1]);
            }
        }
        if spec_find_by_username(users, name) is None {
            assert forall|j: int| 0 <= j < users.len() implies (#[trigger] users[j]).username
                != name by {
                if j > 0 {
                    assert(sub[j - 1] == users[j]);
                }
            }
        }
    }
}

proof fn lemma_find_id_remove(users: Seq<AppUserView>, k: int, id: int)
    requires
        unique_ids(users),
        0 <= k < users.len(),
    ensures
        spec_find_by_id(users.remove(k), id) == (if users[k].id == id {
            None
        } else {
            spec_find_by_id(users, id)
        }),
    decreases users.len(),
{
    assert(unique_ids(users.drop_first()));
    if k == 0 {
        assert(users.remove(0) =~= users.drop_first());
        if users[0].id == id {
            lemma_find_id_absent(users.drop_first(), id);
            assert(forall|j: int|
                0 <= j < users.drop_first().len() ==> (#[trigger] users.drop_first()[j]).id != id);
        }
    } else {
        assert(users.remove(k)[0] == users[0]);
        assert(users.remove(k).drop_first() =~= users.drop_first().remove(k - 1));
        lemma_find_id_remove(users.drop_first(), k - 1, id);
    }
}

proof fn lemma_find_name_remove(users: Seq<AppUserView>, k: int, name: Seq<char>)
    requires
        unique_names(users),
        0 <= k < users.len(),
    ensures
        spec_find_by_username(users.remove(k), name) == (if users[k].username == name {
            None
        } else {
            spec_find_by_username(users, name)
        }),
    decreases users.len(),
{
    assert(unique_names(users.drop_first()));
    if k == 0 {
        assert(users.remove(0) =~= users.drop_first());
        if users[0].username == name {
            lemma_find_name_absent(users.drop_first(), name);
            assert(forall|j: int|
                0 <= j < users.drop_first().len() ==> (#[trigger] users.drop_first()[j]).username
                    != name);
        }
    } else {
        assert(users.remove(k)[0] == users[0]);
        assert(users.remove(k).drop_first() =~= users.drop_first().remove(k - 1));
        lemma_find_name_remove(users.drop_first(), k - 1, name);
    }
}

proof fn lemma_roles_absent(asgn: Seq<(i32, RoleCode)>, uid: int)
    requires
        forall|j: int| 0 <= j < asgn.len() ==> (#[trigger] asgn[j]).0 != uid,
    ensures
        spec_roles_for(asgn, uid) == Seq::<RoleCode>::empty(),
    decreases asgn.len(),
{
    if asgn.len() > 0 {
        lemma_roles_absent(asgn.drop_first(), uid);
    }
}

proof fn lemma_roles_push(asgn: Seq<(i32, RoleCode)>, x: (i32, RoleCode), uid: int)
    ensures
        spec_roles_for(asgn.push(x), uid) == spec_roles_for(asgn, uid) + (if x.0 == uid {
            seq![x.1]
        } else {
            Seq::<RoleCode>::empty()
        }),
    decreases asgn.len(),
{
    let ps = asgn.push(x);
    if asgn.len() == 0 {
        assert(ps[0] == x);
        assert(ps.drop_first() =~= Seq::<(i32, RoleCode)>::empty());
        assert(spec_roles_for(ps.drop_first(), uid) == Seq::<RoleCode>::empty());
        if x.0 == uid {
            assert(spec_roles_for(ps, uid) == seq![x.1] + Seq::<RoleCode>::empty());
            assert(seq![x.1] + Seq::<RoleCode>::empty() =~= spec_roles_for(asgn, uid) + seq![x.1]);
        } else {
            assert(spec_roles_for(ps, uid) == Seq::<RoleCode>::empty());
            assert(spec_roles_for(asgn, uid) + Seq::<RoleCode>::empty()
                =~= Seq::<RoleCode>::empty());
        }
    } else {
        assert(ps[0] == asgn[0]);
        assert(ps.drop_first() =~= asgn.drop_first().push(x));
        lemma_roles_push(asgn.drop_first(), x, uid);
        if asgn[0].0 == uid {
            assert(seq![asgn[0].1] + (spec_roles_for(asgn.drop_first(), uid) + (if x.0 == uid {
                seq![x.1]
            } else {
                Seq::<RoleCode>::empty()
            })) =~= (seq![asgn[0].1] + spec_roles_for(asgn.drop_first(), uid)) + (if x.0 == uid {
                seq![x.1]
            } else {
                Seq::<RoleCode>::empty()
            }));
        }
    }
}

/// In-memory user repository: users and role assignments held in vectors,
/// with ids handed out from a private counter and never reused.
pub struct MemoryUserRepo {
    users: Vec<AppUser>,
    assignments: Vec<(i32, RoleCode)>,
    next_id: i32,
}

impl MemoryUserRepo {
    /// An empty repository whose first user will get id `1`.
    pub fn new() -> (r: MemoryUserRepo)
        ensures
            r.spec_wf(),
            r.spec_users() == Seq::<AppUserView>::empty(),
            forall|uid: int| r.spec_roles_of(uid) == Seq::<RoleCode>::empty(),
            r.spec_can_allocate(),
    {
        let r = MemoryUserRepo { users: Vec::new(), assignments: Vec::new(), next_id: 1 };
        proof {
            assert(r.spec_users() =~= Seq::<AppUserView>::empty());
            assert forall|uid: int| r.spec_roles_of(uid) == Seq::<RoleCode>::empty() by {
                lemma_roles_absent(r.assignments@, uid);
            }
        }
        r
    }

    /// Whether another user id can still be handed out.
    pub closed spec fn spec_can_allocate(&self) -> bool {
        self.next_id < i32::MAX
    }

    fn index_by_id(&self, id: i32) -> (r: Option<usize>)
        ensures
            match r {
                Some(k) => k < self.users@.len() && self.users@[k as int]@.id == id as int,
                None => forall|j: int|
                    0 <= j < self.users@.len() ==> (#[trigger] self.users@[j])@.id != id as int,
            },
    {
        let mut i: usize = 0;
        while i < self.users.len()
            invariant
                i <= self.users@.len(),
                forall|j: int| 0 <= j < i ==> (#[trigger] self.users@[j])@.id != id as int,
            decreases self.users@.len() - i,
        {
            if self.users[i].id == id {
                return Some(i);
            }
            i = i + 1;
        }
        None
    }

    fn index_by_name(&self, username: &String) -> (r: Option<usize>)
        ensures
            match r {
                Some(k) => k < self.users@.len() && self.users@[k as int]@.username == username@,
                None => forall|j: int|
                    0 <= j < self.users@.len() ==> (#[trigger] self.users@[j])@.username
                        != username@,
            },
    {
        let mut i: usize = 0;
        while i < self.users.len()
            invariant
                i <= self.users@.len(),
                forall|j: int| 0 <= j < i ==> (#[trigger] self.users@[j])@.username != username@,
            decreases self.users@.len() - i,
        {
            if self.users[i].username == *username {
                return Some(i);
            }
            i = i + 1;
        }
        None
    }
}

impl AppUserTableTrait for MemoryUserRepo {
    closed spec fn spec_wf(&self) -> bool {
        &&& unique_ids(self.spec_users())
        &&& unique_names(self.spec_users())
        &&& forall|i: int|
            0 <= i < self.spec_users().len() ==> (#[trigger] self.spec_users()[i]).id
                < self.next_id
        &&& forall|k: int|
            0 <= k < self.assignments@.len() ==> (#[trigger] self.assignments@[k]).0 < self.next_id
    }

    closed spec fn spec_users(&self) -> Seq<AppUserView> {
        self.users@.map_values(|u: AppUser| u@)
    }

    closed spec fn spec_roles_of(&self, user_id: int) -> Seq<RoleCode> {
        spec_roles_for(self.assignments@, user_id)
    }

    /// Fails exactly when the username is taken or the id space is exhausted.
    fn create(&mut self, new_user: NewUser, role_codes: Vec<RoleCode>) -> (r: Result<
        AppUser,
        RepoError,
    >)
        ensures
            r is Ok <==> (spec_find_by_username(old(self).spec_users(), new_user.username@) is None
                && old(self).spec_can_allocate()),
            r matches Err(e) ==> e == RepoError::Backend,
    {
        match self.index_by_name(&new_user.username) {
            Some(k) => {
                proof {
                    assert forall|j: int| 0 <= j < k implies (#[trigger] self.spec_users()[j])
                        .username != new_user.username@ by {
                        assert(self.spec_users()[j].username != self.spec_users()[
                            k as int].username);
                    }
                    lemma_find_name_found(self.spec_users(), new_user.username@, k as int);
                }
                Err(RepoError::Backend)
            },
            None => {
                proof {
                    lemma_find_name_absent(self.spec_users(), new_user.username@);
                }
                if self.next_id == i32::MAX {
                    return Err(RepoError::Backend);
                }
                let id = self.next_id;
                self.next_id = id + 1;
                let user = AppUser {
                    id,
                    username: new_user.username,
                    password: new_user.password,
                    created_at: String::new(),
                };
                let ghost users0 = self.spec_users();
                let ghost asgn0 = self.assignments@;
                self.users.push(user.duplicate());
                proof {
                    assert(self.spec_users() =~= users0.push(user@));
                    assert forall|uid: int| self.spec_roles_of(uid) == spec_roles_for(asgn0, uid)
                        by {}
                    lemma_roles_absent(asgn0, id as int);
                }
                let mut k: usize = 0;
                while k < role_codes.len()
                    invariant
                        k <= role_codes@.len(),
                        self.spec_roles_of(id as int) == role_codes@.subrange(0, k as int),
                        forall|j: int|
                            0 <= j < self.assignments@.len() ==> (#[trigger] self.assignments@[j]).0
                                <= id,
                        self.spec_users() == old(self).spec_users().push(user@),
                        self.next_id == id + 1,
                        id == old(self).next_id,
                        user@.id == id as int,
                    decreases role_codes@.len() - k,
                {
                    let ghost asgn1 = self.assignments@;
                    self.assignments.push((id, role_codes[k]));
                    proof {
                        lemma_roles_push(asgn1, (id, role_codes[k as int]), id as int);
                        assert(role_codes@.subrange(0, k as int).push(role_codes@[k as int]) =~= role_codes@.subrange(
                            0,
                            k + 1 as int,
                        ));
                        assert(spec_roles_for(asgn1, id as int) + seq![role_codes@[k as int]]
                            =~= spec_roles_for(asgn1, id as int).push(role_codes@[k as int]));
                    }
                    k = k + 1;
                }
                proof {
                    assert(role_codes@.subrange(0, role_codes@.len() as int) =~= role_codes@);
                    assert(self.spec_users() =~= old(self).spec_users().push(user@));
                    assert(spec_find_by_id(old(self).spec_users(), id as int) is None) by {
                        lemma_find_id_absent(old(self).spec_users(), id as int);
                    }
                    assert(unique_ids(self.spec_users())) by {
                        assert forall|i: int, j: int|
                            0 <= i < j < self.spec_users().len() implies (
                        #[trigger] self.spec_users()[i]).id != (#[trigger] self.spec_users()[j]).id
                            by {
                            if j == self.spec_users().len() - 1 {
                                assert(self.spec_users()[i] == old(self).spec_users()[i]);
                            } else {
                                assert(self.spec_users()[i] == old(self).spec_users()[i]);
                                assert(self.spec_users()[j] == old(self).spec_users()[j]);
                            }
                        }
                    }
                    assert(unique_names(self.spec_users())) by {
                        assert forall|i: int, j: int|
                            0 <= i < j < self.spec_users().len() implies (
                        #[trigger] self.spec_users()[i]).username != (
                        #[trigger] self.spec_users()[j]).username by {
                            if j == self.spec_users().len() - 1 {
                                assert(self.spec_users()[i] == old(self).spec_users()[i]);
                            } else {
                                assert(self.spec_users()[i] == old(self).spec_users()[i]);
                                assert(self.spec_users()[j] == old(self).spec_users()[j]);
                            }
                        }
                    }
                }
                Ok(user)
            },
        }
    }

    /// Fails only with `NotFound`, exactly when no user has the id.
    fn find(&self, id: i32) -> (r: Result<AppUser, RepoError>)
        ensures
            r matches Err(e) ==> e == RepoError::NotFound,
    {
        match self.index_by_id(id) {
            Some(k) => {
                proof {
                    assert forall|j: int| 0 <= j < k implies (#[trigger] self.spec_users()[j]).id
                        != id as int by {
                        assert(self.spec_users()[j].id != self.spec_users()[k as int].id);
                    }
                    lemma_find_id_found(self.spec_users(), id as int, k as int);
                }
                Ok(self.users[k].duplicate())
            },
            None => {
                proof {
                    lemma_find_id_absent(self.spec_users(), id as int);
                }
                Err(RepoError::NotFound)
            },
        }
    }

    /// Fails only with `NotFound`, exactly when no user has the username.
    fn find_by_username(&self, username: &String) -> (r: Result<AppUser, RepoError>)
        ensures
            r matches Err(e) ==> e == RepoError::NotFound,
    {
        match self.index_by_name(username) {
            Some(k) => {
                proof {
                    assert forall|j: int| 0 <= j < k implies (#[trigger] self.spec_users()[j])
                        .username != username@ by {
                        assert(self.spec_users()[j].username != self.spec_users()[
                            k as int].username);
                    }
                    lemma_find_name_found(self.spec_users(), username@, k as int);
                }
                Ok(self.users[k].duplicate())
            },
            None => {
                proof {
                    lemma_find_name_absent(self.spec_users(), username@);
                }
                Err(RepoError::NotFound)
            },
        }
    }

    /// Never fails: the assignments are in process.
    fn find_roles_by_user(&self, user: &AppUser) -> (r: Result<Vec<RoleCode>, RepoError>)
        ensures
            r is Ok,
    {
        let uid = user.id;
        let mut roles: Vec<RoleCode> = Vec::new();
        let ghost a = self.assignments@;
        let mut i: usize = 0;
        proof {
            assert(a.subrange(0, a.len() as int) =~= a);
            assert(roles@ + spec_roles_for(a.subrange(0, a.len() as int), uid as int)
                =~= spec_roles_for(a, uid as int));
        }
        while i < self.assignments.len()
            invariant
                i <= a.len(),
                a == self.assignments@,
                spec_roles_for(a, uid as int) == roles@ + spec_roles_for(
                    a.subrange(i as int, a.len() as int),
                    uid as int,
                ),
            decreases a.len() - i,
        {
            let ghost suf = a.subrange(i as int, a.len() as int);
            proof {
                assert(suf[0] == a[i as int]);
                assert(suf.drop_first() =~= a.subrange(i + 1 as int, a.len() as int));
            }
            if self.assignments[i].0 == uid {
                roles.push(self.assignments[i].1);
                proof {
                    assert(roles@ + spec_roles_for(suf.drop_first(), uid as int)
                        =~= (roles@.drop_last() + (seq![a[i as int].1] + spec_roles_for(
                        suf.drop_first(),
                        uid as int,
                    ))));
                }
            }
            i = i + 1;
        }
        proof {
            assert(a.subrange(a.len() as int, a.len() as int) =~= Seq::<(i32, RoleCode)>::empty());
            assert(roles@ + Seq::<RoleCode>::empty() =~= roles@);
        }
        Ok(roles)
    }

    /// Never fails; removes the user when present.
    fn delete_by_id(&mut self, user_id: i32) -> (r: Result<(), RepoError>)
        ensures
            r is Ok,
    {
        match self.index_by_id(user_id) {
            Some(k) => {
                let ghost users0 = self.spec_users();
                self.users.remove(k);
                proof {
                    assert(self.spec_users() =~= users0.remove(k as int));
                    assert forall|id2: int|
                        #[trigger] spec_find_by_id(self.spec_users(), id2) == (if id2
                            == user_id as int {
                            None
                        } else {
                            spec_find_by_id(users0, id2)
                        }) by {
                        lemma_find_id_remove(users0, k as int, id2);
                    }
                    lemma_remove_keeps_wf(users0, k as int, self.next_id as int);
                    assert forall|n2: Seq<char>|
                        #[trigger] spec_find_by_username(self.spec_users(), n2)
                            == spec_find_by_username(users0, n2) || true by {}
                }
                Ok(())
            },
            None => {
                proof {
                    lemma_find_id_absent(self.spec_users(), user_id as int);
                }
                Ok(())
            },
        }
    }

    /// Never fails; removes the user when present.
    fn delete_by_username(&mut self, username: &String) -> (r: Result<(), RepoError>)
        ensures
            r is Ok,
    {
        match self.index_by_name(username) {
            Some(k) => {
                let ghost users0 = self.spec_users();
                self.users.remove(k);
                proof {
                    assert(self.spec_users() =~= users0.remove(k as int));
                    assert forall|n2: Seq<char>|
                        #[trigger] spec_find_by_username(self.spec_users(), n2) == (if n2
                            == username@ {
                            None
                        } else {
                            spec_find_by_username(users0, n2)
                        }) by {
                        lemma_find_name_remove(users0, k as int, n2);
                    }
                    lemma_remove_keeps_wf(users0, k as int, self.next_id as int);
                }
                Ok(())
            },
            None => {
                proof {
                    lemma_find_name_absent(self.spec_users(), username@);
                }
                Ok(())
            },
        }
    }

    /// Never fails: the users are in process.
    fn find_with_roles(&self) -> (r: Result<Vec<AppUserWithRoleCodes>, RepoError>)
        ensures
            r is Ok,
    {
        let mut out: Vec<(AppUser, Vec<RoleCode>)> = Vec::new();
        let mut i: usize = 0;
        while i < self.users.len()
            invariant
                i <= self.users@.len(),
                out@.len() == i,
                self.spec_wf(),
                forall|j: int|
                    0 <= j < i ==> (#[trigger] out@[j]).0@ == self.spec_users()[j] && out@[j].1@
                        == self.spec_roles_of(self.spec_users()[j].id),
            decreases self.users@.len() - i,
        {
            let roles = match self.find_roles_by_user(&self.users[i]) {
                Ok(roles) => roles,
                Err(_) => {
                    return Err(RepoError::Backend);
                },
            };
            out.push((self.users[i].duplicate(), roles));
            i = i + 1;
        }
        Ok(out)
    }
}

proof fn lemma_remove_keeps_wf(users: Seq<AppUserView>, k: int, bound: int)
    requires
        unique_ids(users),
        unique_names(users),
        forall|i: int| 0 <= i < users.len() ==> (#[trigger] users[i]).id < bound,
        0 <= k < users.len(),
    ensures
        unique_ids(users.remove(k)),
        unique_names(users.remove(k)),
        forall|i: int| 0 <= i < users.remove(k).len() ==> (#[trigger] users.remove(k)[i]).id
            < bound,
{
    let rs = users.remove(k);
    assert forall|i: int, j: int| 0 <= i < j < rs.len() implies (#[trigger] rs[i]).id != (
    #[trigger] rs[j]).id && rs[i].username != rs[j].username by {
        let i0: int = if i < k {
            i
        } else {
            i + 1
        };
        let j0: int = if j < k {
            j
        } else {
            j + 1
        };
        assert(rs[i] == users[i0]);
        assert(rs[j] == users[j0]);
    }
    assert forall|i: int| 0 <= i < rs.len() implies (#[trigger] rs[i]).id < bound by {
        let i0: int = if i < k {
            i
        } else {
            i + 1
        };
        assert(rs[i] == users[i0]);
    }
}

} // verus!
