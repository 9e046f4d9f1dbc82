//! Engine-level error taxonomy shared by every component of the access
//! layer: builder validation, CRUD operations and edge linking.

use vstd::prelude::*;

pub mod db;
pub mod session;

verus! {

/// One shared error enumeration; no component panics on an expected
/// condition (missing document, duplicate key, empty input).
#[derive(Debug, Clone, Copy, PartialEq, Eq, Structural)]
pub enum DbError {
    /// A host was not provided to the builder.
    NoHostProvided,
    /// No database name was provided to the builder.
    BlankDatabaseName,
    /// An identity did not match any acceptable credential.
    InvalidIdentification,
    /// A document id could not be split into collection and key.
    ParseFail,
    /// A lookup or removal targeted a document that does not exist.
    ItemNotFound,
    /// A create-only insert hit an existing key, or a fan-out produced
    /// zero successes.
    FailedToCreate,
}

impl DbError {
    /// Human-readable description of the error, one line per kind.
    pub fn message(&self) -> (r: &'static str)
        ensures
            *self is NoHostProvided ==> r@ == "A host was not provided to the builder."@,
            *self is BlankDatabaseName ==> r@
                == "No name of the database was provided to the builder."@,
            *self is InvalidIdentification ==> r@ == "Invalid identification"@,
            *self is ParseFail ==> r@ == "Parse fail"@,
            *self is ItemNotFound ==> r@ == "Could not find item in the database."@,
            *self is FailedToCreate ==> r@ == "Failed to create new item"@,
    {
        match self {
            DbError::NoHostProvided => "A host was not provided to the builder.",
            DbError::BlankDatabaseName => "No name of the database was provided to the builder.",
            DbError::InvalidIdentification => "Invalid identification",
            DbError::ParseFail => "Parse fail",
            DbError::ItemNotFound => "Could not find item in the database.",
            DbError::FailedToCreate => "Failed to create new item",
        }
    }
}

} // verus!
