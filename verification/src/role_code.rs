//! User role classification and its stable string encoding.
//!
//! Roles gate access to mutating operations: `Admin` implies every
//! `Editor`-gated capability, and `Viewer` implies none.

use vstd::prelude::*;

verus! {

/// Distinct access roles available to application users.
#[derive(Debug, Clone, Copy, PartialEq, Eq, Structural)]
pub enum RoleCode {
    Admin,
    Editor,
    Viewer,
}

/// A stored role: its row id, code, and human-readable name.
#[derive(Debug, Clone)]
pub struct Role {
    pub id: i32,
    pub code: RoleCode,
    pub name: String,
}

/// The stable string encoding of a role code, used for persistence and display.
pub open spec fn spec_role_str(code: RoleCode) -> Seq<char> {
    match code {
        RoleCode::Admin => "Admin"@,
        RoleCode::Editor => "Editor"@,
        RoleCode::Viewer => "Viewer"@,
    }
}

impl RoleCode {
    /// Encode this role code as its stable string form.
    pub fn as_str(&self) -> (r: &'static str)
        ensures
            r@ == spec_role_str(*self),
    {
        match self {
            RoleCode::Admin => "Admin",
            RoleCode::Editor => "Editor",
            RoleCode::Viewer => "Viewer",
        }
    }

    /// Decode the stable string form back into a role code.
    /// Returns `Err(())` exactly when the string is not one of the three encodings.
    pub fn from_str(s: &String) -> (r: Result<RoleCode, ()>)
        ensures
            match r {
                Ok(code) => s@ == spec_role_str(code),
                Err(()) => s@ != spec_role_str(RoleCode::Admin)
                    && s@ != spec_role_str(RoleCode::Editor)
                    && s@ != spec_role_str(RoleCode::Viewer),
            },
    {
        let admin: String = String::from_str("Admin");
        let editor: String = String::from_str("Editor");
        let viewer: String = String::from_str("Viewer");
        if *s == admin {
            Ok(RoleCode::Admin)
        } else if *s == editor {
            Ok(RoleCode::Editor)
        } else if *s == viewer {
            Ok(RoleCode::Viewer)
        } else {
            Err(())
        }
    }
}

/// The string encoding of role codes is injective: the write and read paths
/// of the bidirectional mapping cannot diverge.
pub proof fn lemma_role_str_injective(a: RoleCode, b: RoleCode)
    requires
        spec_role_str(a) == spec_role_str(b),
    ensures
        a == b,
{
    reveal_strlit("Admin");
    reveal_strlit("Editor");
    reveal_strlit("Viewer");
    if a != b {
        assert(spec_role_str(RoleCode::Admin).len() == 5);
        assert(spec_role_str(RoleCode::Editor).len() == 6);
        assert(spec_role_str(RoleCode::Viewer).len() == 6);
        assert(spec_role_str(RoleCode::Editor)[0] == 'E');
        assert(spec_role_str(RoleCode::Viewer)[0] == 'V');
    }
}

/// Storage-layer mirror of `RoleCode`, kept as a separate type so that the
/// mapping between domain and storage encodings stays explicit.
#[derive(Debug, Clone, Copy, PartialEq, Eq, Structural)]
pub enum RoleCodeMapping {
    Admin,
    Editor,
    Viewer,
}

pub open spec fn spec_mapping_to_role(m: RoleCodeMapping) -> RoleCode {
    match m {
        RoleCodeMapping::Admin => RoleCode::Admin,
        RoleCodeMapping::Editor => RoleCode::Editor,
        RoleCodeMapping::Viewer => RoleCode::Viewer,
    }
}

pub open spec fn spec_role_to_mapping(code: RoleCode) -> RoleCodeMapping {
    match code {
        RoleCode::Admin => RoleCodeMapping::Admin,
        RoleCode::Editor => RoleCodeMapping::Editor,
        RoleCode::Viewer => RoleCodeMapping::Viewer,
    }
}

impl RoleCodeMapping {
    /// Convert the storage encoding to the domain role code.
    pub fn to_role_code(self) -> (r: RoleCode)
        ensures
            r == spec_mapping_to_role(self),
    {
        match self {
            RoleCodeMapping::Admin => RoleCode::Admin,
            RoleCodeMapping::Editor => RoleCode::Editor,
            RoleCodeMapping::Viewer => RoleCode::Viewer,
        }
    }

    /// Convert a domain role code to the storage encoding.
    pub fn from_role_code(code: RoleCode) -> (r: RoleCodeMapping)
        ensures
            r == spec_role_to_mapping(code),
    {
        match code {
            RoleCode::Admin => RoleCodeMapping::Admin,
            RoleCode::Editor => RoleCodeMapping::Editor,
            RoleCode::Viewer => RoleCodeMapping::Viewer,
        }
    }
}

/// Role queries against the backing store: which roles a user holds, which
/// roles exist, and the stored record behind a role code. Implementations
/// live with the relational store and are injected where roles are resolved;
/// nothing is promised about their outcomes. The library's own guard chain
/// resolves roles through `AppUserTableTrait::find_roles_by_user`; this
/// interface is the seam kept for store-side role administration.
pub trait RoleCodeTableTrait: Sized {
    /// The role codes assigned to the user with this id.
    fn find_role_codes_by_user(&self, user_id: i32) -> (r: Result<Vec<RoleCode>, String>);

    /// Every role code known to the store.
    fn find_all(&self) -> (r: Result<Vec<RoleCode>, String>);

    /// The stored role record for a code.
    fn find_role_name_by_code(&self, code: RoleCode) -> (r: Result<Role, String>);
}

/// The domain/storage mapping is a bijection: converting either way and back
/// yields the value one started with.
pub proof fn lemma_role_mapping_round_trip()
    ensures
        forall|code: RoleCode| spec_mapping_to_role(#[trigger] spec_role_to_mapping(code)) == code,
        forall|m: RoleCodeMapping| spec_role_to_mapping(#[trigger] spec_mapping_to_role(m)) == m,
{
}

} // verus!
