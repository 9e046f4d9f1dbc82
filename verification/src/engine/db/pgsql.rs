//! Placeholder for a document engine backed by PostgreSQL; only the
//! handle type exists so far.

use vstd::prelude::*;

verus! {

/// Handle to a PostgreSQL backend.
#[derive(Debug)]
pub struct PostgresSQL;

impl PostgresSQL {
    /// Short description of the backend.
    pub fn db_info(&self) -> (r: &'static str)
        ensures
            r@ == "Postgres SQL database"@,
    {
        "Postgres SQL database"
    }
}

} // verus!
