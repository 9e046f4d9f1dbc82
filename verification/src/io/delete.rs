//! The typed delete method of the engine contract: parse an id, delete
//! what it names, hand the deleted document back.

use vstd::prelude::*;
use crate::engine::DbError;
use crate::engine::db::memory::{MemoryDb, spec_index_of_key};
use crate::io::read::EngineState;
use crate::models::{ReqModelTraits, spec_parse_id};

verus! {

/// Typed removal, generic over any document type satisfying the
/// document contract.
pub trait EngineDelete: EngineState {
    /// Parse the id into collection and key, delete the document they
    /// name, and return it typed. `ParseFail` when the id holds no
    /// separator or the deleted document is of another type (the
    /// deletion itself stands, as the backend's does); `ItemNotFound`,
    /// changing nothing, when nothing matches.
    fn remove<T: ReqModelTraits>(&mut self, id: &str) -> (r: Result<T, DbError>)
        ensures
            spec_parse_id(id@) is None ==> (r matches Err(e) && e is ParseFail) && final(self).engine_docs() == old(self).engine_docs(),
            spec_parse_id(id@) matches Some(ck) ==> ({
                let i = spec_index_of_key(old(self).engine_docs(), ck.0, ck.1);
                &&& i >= 0 ==> final(self).engine_docs() == old(self).engine_docs().remove(i)
                    && ({
                    let d = old(self).engine_docs()[i];
                    &&& T::of_doc_spec(d) matches Some(x) ==> (r matches Ok(y) && y == x)
                    &&& T::of_doc_spec(d) is None ==> (r matches Err(e) && e is ParseFail)
                })
                &&& i < 0 ==> (r matches Err(e) && e is ItemNotFound) && final(self).engine_docs() == old(self).engine_docs()
            }),
    ;
}

impl EngineDelete for MemoryDb {
    fn remove<T: ReqModelTraits>(&mut self, id: &str) -> (r: Result<T, DbError>) {
        match self.remove_doc(id) {
            Ok(d) => {
                match T::from_doc(d) {
                    Some(x) => Ok(x),
                    None => Err(DbError::ParseFail),
                }
            },
            Err(e) => Err(e),
        }
    }
}

} // verus!
