//! Package (crate) metadata types consumed by the core's digest mailing.
//! The package CRUD itself is an external collaborator of the core.

use vstd::prelude::*;

verus! {

/// A simplified projection of a package used in digest mails.
#[derive(Debug, Clone)]
pub struct CrateSummary {
    pub name: String,
    pub version: String,
}

/// A stored package record. `created_at` carries the rendered creation
/// timestamp; `row_version` supports optimistic concurrency on updates.
#[derive(Debug, Clone)]
pub struct Crate {
    pub id: i32,
    pub author_id: i32,
    pub code: String,
    pub name: String,
    pub version: String,
    pub description: Option<String>,
    pub created_at: String,
    pub row_version: i32,
}

/// A package as handed in on creation.
#[derive(Debug, Clone)]
pub struct NewCrate {
    pub author_id: i32,
    pub code: String,
    pub name: String,
    pub version: String,
    pub description: Option<String>,
    pub row_version: i32,
}

} // verus!
