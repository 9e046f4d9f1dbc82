//! Typed write methods of the engine contract, and the per-model write
//! trait. Inserts are create-only; the batch helper inserts
//! sequentially and aborts on the first failure.

use vstd::prelude::*;
use crate::engine::DbError;
use crate::engine::db::memory::{
    MemoryDb, spec_has_key, spec_index_of_key, spec_insert_all,
};
use crate::io::read::EngineState;
use crate::models::{AnyDoc, BoxedDoc, ReqModelTraits, doc_eq, doc_id, wf_doc};

verus! {

/// Typed writes, generic over any document type satisfying the document
/// contract: create-only insert, replacement update, sequential batch
/// insert.
pub trait EngineWrite: EngineState {
    /// Create-only insert: it fails, changing nothing, exactly when the
    /// collection already holds the document's key; otherwise the wire
    /// form is appended and the new id comes back with a copy of the
    /// stored document.
    fn insert<T: ReqModelTraits + BoxedDoc>(&mut self, doc: T) -> (r: Result<
        (String, AnyDoc),
        DbError,
    >)
        requires
            doc.wf(),
        ensures
            spec_has_key(old(self).engine_docs(), T::spec_collection_name(), doc.key_spec())
                ==> (r matches Err(e) && e is FailedToCreate) && final(self).engine_docs()
                == old(self).engine_docs(),
            !spec_has_key(old(self).engine_docs(), T::spec_collection_name(), doc.key_spec())
                ==> final(self).engine_docs() == old(self).engine_docs().push(doc.to_doc_spec())
                && (r matches Ok(p) && p.0@ == doc.id_spec() && doc_eq(p.1, doc.to_doc_spec())),
    ;

    /// Replace the stored document sharing the incoming document's
    /// collection and key; `ItemNotFound`, changing nothing, exactly
    /// when none does.
    fn update<T: ReqModelTraits>(&mut self, doc: T) -> (r: Result<(), DbError>)
        requires
            doc.wf(),
        ensures
            ({
                let i = spec_index_of_key(
                    old(self).engine_docs(),
                    T::spec_collection_name(),
                    doc.key_spec(),
                );
                &&& i >= 0 ==> r is Ok && final(self).engine_docs() == old(self).engine_docs().update(i, doc.to_doc_spec())
                &&& i < 0 ==> (r matches Err(e) && e is ItemNotFound) && final(self).engine_docs() == old(self).engine_docs()
            }),
    ;

    /// Insert a batch sequentially, aborting on the first failure: the
    /// batch fails as a whole, but documents inserted before the failing
    /// one stay. On success the new ids come back in order.
    fn insert_collection<T: ReqModelTraits + BoxedDoc>(&mut self, jobs: Vec<T>) -> (r: Result<
        Vec<String>,
        DbError,
    >)
        requires
            forall|j: int| 0 <= j < jobs@.len() ==> (#[trigger] jobs@[j]).wf(),
        ensures
            ({
                let out = spec_insert_all(
                    old(self).engine_docs(),
                    jobs@.map_values(|t: T| t.to_doc_spec()),
                );
                &&& final(self).engine_docs() == out.0
                &&& !out.2 ==> (r matches Ok(v) && v@.len() == out.1.len() && (forall|k: int|
                    0 <= k < v@.len() ==> (#[trigger] v@[k])@ == out.1[k]))
                &&& out.2 ==> (r matches Err(e) && e is FailedToCreate)
            }),
    ;
}

impl EngineWrite for MemoryDb {
    fn insert<T: ReqModelTraits + BoxedDoc>(&mut self, doc: T) -> (r: Result<
        (String, AnyDoc),
        DbError,
    >) {
        let wire = doc.into_doc();
        self.insert_doc(wire)
    }

    fn update<T: ReqModelTraits>(&mut self, doc: T) -> (r: Result<(), DbError>) {
        let wire = doc.into_doc();
        self.update_doc(wire)
    }

    fn insert_collection<T: ReqModelTraits + BoxedDoc>(&mut self, jobs: Vec<T>) -> (r: Result<
        Vec<String>,
        DbError,
    >) {
        let ghost jobs0 = jobs@;
        let mut jobs = jobs;
        let mut wire: Vec<AnyDoc> = Vec::new();
        while jobs.len() > 0
            invariant
                wire@.len() + jobs@.len() == jobs0.len(),
                forall|j: int| 0 <= j < jobs0.len() ==> (#[trigger] jobs0[j]).wf(),
                forall|j: int| 0 <= j < jobs@.len() ==> jobs@[j] == jobs0[wire@.len() + j],
                forall|k: int|
                    0 <= k < wire@.len() ==> #[trigger] wire@[k] == jobs0[k].to_doc_spec()
                        && wf_doc(wire@[k]),
            decreases jobs@.len(),
        {
            let ghost jpre = jobs@;
            let ghost done = wire@.len() as int;
            let t = jobs.remove(0);
            proof {
                assert(t == jpre[0]);
                assert(t == jobs0[done]);
                assert(t.wf());
            }
            let d = t.into_doc();
            wire.push(d);
            proof {
                assert forall|j: int| 0 <= j < jobs@.len() implies jobs@[j] == jobs0[wire@.len()
                    + j] by {
                    assert(jobs@[j] == jpre[j + 1]);
                }
            }
        }
        proof {
            assert(wire@ =~= jobs0.map_values(|t: T| t.to_doc_spec()));
        }
        self.insert_docs(wire)
    }
}

/// Per-document write methods an engine implements for one document
/// type; an implementation may choose other storage semantics, as the
/// edge type's upsert does.
pub trait Write<T> {
    /// Store one document; what storing means is the implementation's
    /// choice for this document type.
    fn insert(&mut self, doc: T) -> Result<(String, AnyDoc), DbError>;

    /// Replace one stored document.
    fn update(&mut self, doc: T) -> Result<(), DbError>;
}

/// What a backend's answer to a create-only insert means: the new
/// document when the insert landed, nothing when the key was taken.
pub fn interpret_insert_response(resp: Vec<AnyDoc>) -> (r: Result<(String, AnyDoc), DbError>)
    ensures
        resp@.len() == 0 ==> (r matches Err(e) && e is FailedToCreate),
        resp@.len() > 0 ==> (r matches Ok(p) && p.0@ == doc_id(resp@[0]) && p.1 == resp@[0]),
{
    let mut resp = resp;
    if resp.len() == 0 {
        return Err(DbError::FailedToCreate);
    }
    let first = resp.remove(0);
    let id = first.id_of();
    Ok((id, first))
}

} // verus!
