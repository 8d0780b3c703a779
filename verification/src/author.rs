//! Author types. Author CRUD is an external collaborator of the core.

use vstd::prelude::*;

verus! {

/// A stored author record.
#[derive(Debug, Clone)]
pub struct Author {
    pub id: i32,
    pub name: String,
    pub email: String,
    pub created_at: String,
    pub row_version: i32,
}

/// An author as handed in on creation.
#[derive(Debug, Clone)]
pub struct NewAuthor {
    pub name: String,
    pub email: String,
}

} // verus!
