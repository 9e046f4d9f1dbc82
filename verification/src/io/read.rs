//! Typed read methods of the engine contract, and the per-model read
//! trait. One implementation per engine serves every document type.

use vstd::prelude::*;
use crate::engine::DbError;
use crate::engine::db::memory::{
    MemoryDb, spec_collection_docs, spec_find_field, spec_find_id,
};
use crate::models::{
    AnyDoc, ReqModelTraits, doc_collection, doc_eq, lemma_doc_eq_parts,
};
use crate::text::spec_normalize;

verus! {

/// The abstract state an engine exposes to the contract: the wire
/// documents it holds, in storage order.
pub trait EngineState {
    spec fn engine_docs(&self) -> Seq<AnyDoc>;
}

impl EngineState for MemoryDb {
    open spec fn engine_docs(&self) -> Seq<AnyDoc> {
        self.docs()
    }
}

/// Typed reads, generic over any document type satisfying the document
/// contract: list a collection, fetch by id, search a field.
pub trait EngineGet: EngineState {
    /// Every document of `T`'s collection, in storage order, as typed
    /// copies: nothing omitted, nothing repeated.
    fn get_all<T: ReqModelTraits>(&self) -> (r: Result<Vec<T>, DbError>)
        ensures
            r matches Ok(v) && ({
                let full = spec_collection_docs(self.engine_docs(), T::spec_collection_name());
                &&& v@.len() == full.len()
                &&& forall|k: int|
                    0 <= k < v@.len() ==> doc_eq((#[trigger] v@[k]).to_doc_spec(), full[k])
            }),
    ;

    /// The first document with the given id, as a typed copy;
    /// `ItemNotFound` exactly when no document carries the id or the
    /// document is of another type.
    fn get<T: ReqModelTraits>(&self, id: &str) -> (r: Result<T, DbError>)
        ensures
            match spec_find_id(self.engine_docs(), id@) {
                Some(d) => {
                    &&& doc_collection(d) == T::spec_collection_name() ==> (r matches Ok(x)
                        && doc_eq(x.to_doc_spec(), d))
                    &&& doc_collection(d) != T::spec_collection_name() ==> (r matches Err(e)
                        && e is ItemNotFound)
                },
                None => r matches Err(e) && e is ItemNotFound,
            },
    ;

    /// The first document of `T`'s collection whose field equals the
    /// trimmed, lower-cased value — the deliberate case-insensitive
    /// lookup; `ItemNotFound` exactly when nothing matches.
    fn find<T: ReqModelTraits>(&self, field: &str, value: &str) -> (r: Result<T, DbError>)
        ensures
            match spec_find_field(
                self.engine_docs(),
                T::spec_collection_name(),
                field@,
                spec_normalize(value@),
            ) {
                Some(d) => r matches Ok(x) && doc_eq(x.to_doc_spec(), d),
                None => r matches Err(e) && e is ItemNotFound,
            },
    ;
}

impl EngineGet for MemoryDb {
    fn get_all<T: ReqModelTraits>(&self) -> (r: Result<Vec<T>, DbError>) {
        let ghost full = spec_collection_docs(self.docs(), T::spec_collection_name());
        let wire = match self.get_all_docs(T::collection_name()) {
            Ok(v) => v,
            Err(e) => {
                return Err(e);
            },
        };
        let mut wire = wire;
        let mut out: Vec<T> = Vec::new();
        while wire.len() > 0
            invariant
                out@.len() + wire@.len() == full.len(),
                full == spec_collection_docs(self.docs(), T::spec_collection_name()),
                forall|k: int|
                    0 <= k < out@.len() ==> doc_eq(
                        (#[trigger] out@[k]).to_doc_spec(),
                        full[k],
                    ),
                forall|j: int|
                    0 <= j < wire@.len() ==> doc_eq(
                        #[trigger] wire@[j],
                        full[out@.len() + j],
                    ),
            decreases wire@.len(),
        {
            let ghost done = out@.len() as int;
            let ghost wire0 = wire@;
            let d = wire.remove(0);
            proof {
                assert(d == wire0[0]);
                assert(doc_eq(d, full[done]));
                Seq::lemma_filter_pred(
                    self.docs(),
                    |x: AnyDoc| doc_collection(x) == T::spec_collection_name(),
                    done,
                );
                assert(doc_collection(full[done]) == T::spec_collection_name());
                lemma_doc_eq_parts(d, full[done]);
                T::lemma_of_doc(d);
            }
            match T::from_doc(d) {
                Some(x) => {
                    out.push(x);
                    proof {
                        assert forall|j: int| 0 <= j < wire@.len() implies doc_eq(
                            #[trigger] wire@[j],
                            full[out@.len() + j],
                        ) by {
                            assert(wire@[j] == wire0[j + 1]);
                        }
                    }
                },
                None => {
                    return Err(DbError::ItemNotFound);
                },
            }
        }
        Ok(out)
    }

    fn get<T: ReqModelTraits>(&self, id: &str) -> (r: Result<T, DbError>) {
        match self.get_doc(id) {
            Ok(d) => {
                proof {
                    let s = spec_find_id(self.docs(), id@).unwrap();
                    lemma_doc_eq_parts(d, s);
                    T::lemma_of_doc(d);
                }
                match T::from_doc(d) {
                    Some(x) => Ok(x),
                    None => Err(DbError::ItemNotFound),
                }
            },
            Err(e) => Err(e),
        }
    }

    fn find<T: ReqModelTraits>(&self, field: &str, value: &str) -> (r: Result<T, DbError>) {
        match self.find_doc(T::collection_name(), field, value) {
            Ok(d) => {
                proof {
                    let p = |x: AnyDoc|
                        doc_collection(x) == T::spec_collection_name() && crate::models::doc_field(
                            x,
                            field@,
                        ) == Some(spec_normalize(value@));
                    crate::engine::db::memory::lemma_first_index(self.docs(), p);
                    let s = spec_find_field(
                        self.docs(),
                        T::spec_collection_name(),
                        field@,
                        spec_normalize(value@),
                    ).unwrap();
                    assert(p(s));
                    lemma_doc_eq_parts(d, s);
                    T::lemma_of_doc(d);
                }
                match T::from_doc(d) {
                    Some(x) => Ok(x),
                    None => Err(DbError::ItemNotFound),
                }
            },
            Err(e) => Err(e),
        }
    }
}

/// Per-model read methods: the same reads, written from the document
/// type's side against a chosen engine.
pub trait Get<T>: Sized {
    /// All documents of this type.
    fn get_all(engine: &T) -> Result<Vec<Self>, DbError>;

    /// One document of this type, by id.
    fn get(id: &str, engine: &T) -> Result<Self, DbError>;

    /// The first document of this type whose field equals the
    /// normalized value.
    fn find(field: &str, value: &str, engine: &T) -> Result<Self, DbError>;
}

} // verus!
