//! Placeholder for a document engine backed by MongoDB; only the handle
//! type exists so far.

use vstd::prelude::*;

verus! {

/// Handle to a MongoDB backend.
#[derive(Debug)]
pub struct MongoDb;

impl MongoDb {
    /// Short description of the backend.
    pub fn db_info(&self) -> (r: &'static str)
        ensures
            r@ == "MongoDb database"@,
    {
        "MongoDb database"
    }
}

} // verus!
