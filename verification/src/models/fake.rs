//! A stand-in document type used when exercising the layer without any
//! real model.

use vstd::prelude::*;

verus! {

/// A blank document shape with only the backend identity fields.
#[derive(Debug)]
pub struct Fake {
    /// Backend id, wire name `_id`
    pub id: String,
    /// Backend key, wire name `_key`
    pub key: String,
}

impl Clone for Fake {
    fn clone(&self) -> (r: Self)
        ensures
            r == *self,
    {
        Fake { id: self.id.clone(), key: self.key.clone() }
    }
}

impl Default for Fake {
    fn default() -> (r: Self)
        ensures
            r.id@.len() == 0,
            r.key@.len() == 0,
    {
        Fake { id: String::new(), key: String::new() }
    }
}

impl Fake {
    /// A blank stand-in document.
    pub fn new() -> (r: Self)
        ensures
            r.id@.len() == 0,
            r.key@.len() == 0,
    {
        Fake { id: String::new(), key: String::new() }
    }
}

} // verus!
