//! Edge documents: one directed relationship between two stored
//! documents, named by their ids.

use vstd::prelude::*;
use crate::engine::DbError;
use crate::engine::db::memory::{
    MemoryDb, edge_between, is_completed_edge, lemma_first_push, spec_find_edge,
    spec_index_of_key,
};
use crate::io::write::Write;
use crate::models::{
    AnyDoc, BoxedDoc, DocDetails, ReqModelTraits, lemma_collections_wf, make_id, spec_id,
};
use crate::text::str_eq;

verus! {

/// A directed relationship from one document to another. A fresh edge
/// carries no backend identity; the engine assigns one when the edge is
/// stored.
#[derive(Debug)]
pub struct Edge {
    /// The edge collection this relationship is meant for
    pub edge_name: String,
    /// Backend id, assigned on storage
    pub _id: Option<String>,
    /// Backend key, assigned on storage
    pub _key: Option<String>,
    /// Id of the source document
    pub _from: String,
    /// Id of the destination document
    pub _to: String,
}

impl Clone for Edge {
    fn clone(&self) -> (r: Self)
        ensures
            r == *self,
    {
        Edge {
            edge_name: self.edge_name.clone(),
            _id: match &self._id {
                Some(s) => Some(s.clone()),
                None => None,
            },
            _key: match &self._key {
                Some(s) => Some(s.clone()),
                None => None,
            },
            _from: self._from.clone(),
            _to: self._to.clone(),
        }
    }
}

impl Default for Edge {
    /// A blank, unstored edge.
    fn default() -> (r: Self)
        ensures
            r.edge_name@.len() == 0,
            r._id is None,
            r._key is None,
            r._from@.len() == 0,
            r._to@.len() == 0,
    {
        Edge {
            edge_name: String::new(),
            _id: None,
            _key: None,
            _from: String::new(),
            _to: String::new(),
        }
    }
}

impl Edge {
    /// A fresh edge from `parent` to `child`, not yet stored.
    pub fn new(edge_name: &str, parent: String, child: String) -> (r: Self)
        ensures
            r.edge_name@ == edge_name@,
            r._id is None,
            r._key is None,
            r._from == parent,
            r._to == child,
    {
        Edge {
            edge_name: edge_name.to_owned(),
            _id: None,
            _key: None,
            _from: parent,
            _to: child,
        }
    }
}

impl DocDetails for Edge {
    open spec fn spec_collection_name() -> Seq<char> {
        "generic_edge"@
    }

    open spec fn key_spec(&self) -> Seq<char> {
        match self._key {
            Some(k) => k@,
            None => "NULL"@,
        }
    }

    open spec fn id_spec(&self) -> Seq<char> {
        match self._id {
            Some(i) => i@,
            None => "NULL"@,
        }
    }

    fn collection_name() -> (r: &'static str) {
        "generic_edge"
    }

    fn key(&self) -> (r: String) {
        match &self._key {
            Some(k) => k.clone(),
            None => "NULL".to_owned(),
        }
    }

    fn id(&self) -> (r: String) {
        match &self._id {
            Some(i) => i.clone(),
            None => "NULL".to_owned(),
        }
    }
}

impl ReqModelTraits for Edge {
    open spec fn wf(&self) -> bool {
        match (self._id, self._key) {
            (Some(i), Some(k)) => i@ == spec_id("generic_edge"@, k@),
            _ => false,
        }
    }

    open spec fn to_doc_spec(&self) -> AnyDoc {
        AnyDoc::Edge(*self)
    }

    open spec fn of_doc_spec(d: AnyDoc) -> Option<Edge> {
        match d {
            AnyDoc::Edge(e) => Some(e),
            _ => None,
        }
    }

    fn into_doc(self) -> (r: AnyDoc) {
        AnyDoc::Edge(self)
    }

    fn from_doc(d: AnyDoc) -> (r: Option<Edge>) {
        match d {
            AnyDoc::Edge(e) => Some(e),
            _ => None,
        }
    }

    proof fn lemma_roundtrip(&self) {
    }

    proof fn lemma_of_doc(d: AnyDoc) {
        lemma_collections_wf();
    }
}

impl BoxedDoc for Edge {}

/// The successful outcomes of a fan-out, in order; individual failures
/// are discarded.
pub open spec fn spec_successes(s: Seq<Result<(String, AnyDoc), DbError>>) -> Seq<AnyDoc>
    decreases s.len(),
{
    if s.len() == 0 {
        Seq::empty()
    } else {
        let rest = spec_successes(s.drop_first());
        match s[0] {
            Ok(p) => seq![p.1] + rest,
            Err(_) => rest,
        }
    }
}

fn gather_successes(outcomes: Vec<Result<(String, AnyDoc), DbError>>) -> (v: Vec<AnyDoc>)
    ensures
        v@ == spec_successes(outcomes@),
    decreases outcomes@.len(),
{
    let ghost outcomes0 = outcomes@;
    let mut outcomes = outcomes;
    if outcomes.len() == 0 {
        let v: Vec<AnyDoc> = Vec::new();
        proof {
            assert(v@ =~= spec_successes(outcomes0));
        }
        return v;
    }
    let first = outcomes.remove(0);
    proof {
        assert(first == outcomes0[0]);
        assert(outcomes@ =~= outcomes0.drop_first());
    }
    let mut rest = gather_successes(outcomes);
    match first {
        Ok(p) => {
            rest.insert(0, p.1);
            proof {
                assert(rest@ =~= spec_successes(outcomes0));
            }
            rest
        },
        Err(_) => rest,
    }
}

/// Aggregate fan-out outcomes, best effort: keep exactly the successful
/// results, in order, discarding individual failures; the whole
/// operation fails only when there were no outcomes at all or none
/// succeeded.
pub fn collect_successes(outcomes: Vec<Result<(String, AnyDoc), DbError>>) -> (r: Result<
    Vec<AnyDoc>,
    DbError,
>)
    ensures
        (outcomes@.len() == 0 || spec_successes(outcomes@).len() == 0) ==> (r matches Err(e)
            && e is FailedToCreate),
        outcomes@.len() > 0 && spec_successes(outcomes@).len() > 0 ==> (r matches Ok(v) && v@
            == spec_successes(outcomes@)),
{
    if outcomes.len() == 0 {
        return Err(DbError::FailedToCreate);
    }
    let v = gather_successes(outcomes);
    if v.len() == 0 {
        return Err(DbError::FailedToCreate);
    }
    Ok(v)
}

impl Edge {
    /// Link one parent to many children: one edge per child, stored
    /// with upsert semantics, so re-linking is idempotent and each
    /// surviving link is reported. The operation fails only on an empty
    /// child set; afterwards every child is linked to the parent.
    pub fn link_one_to_many(
        engine: &mut MemoryDb,
        edge_name: &str,
        parent: String,
        children: Vec<String>,
    ) -> (r: Result<Vec<AnyDoc>, DbError>)
        ensures
            children@.len() == 0 ==> (r matches Err(e) && e is FailedToCreate)
                && final(engine).docs() == old(engine).docs(),
            children@.len() > 0 ==> (r matches Ok(v) && v@.len() == children@.len()
                && (forall|k: int|
                    0 <= k < v@.len() ==> edge_between(#[trigger] v@[k], parent@, children@[k]@))),
            forall|k: int|
                0 <= k < children@.len() ==> spec_find_edge(
                    final(engine).docs(),
                    parent@,
                    (#[trigger] children@[k])@,
                ) is Some,
    {
        if children.len() == 0 {
            return Err(DbError::FailedToCreate);
        }
        let mut out: Vec<AnyDoc> = Vec::new();
        let mut i: usize = 0;
        while i < children.len()
            invariant
                i <= children@.len(),
                out@.len() == i,
                forall|k: int|
                    0 <= k < i ==> edge_between(#[trigger] out@[k], parent@, children@[k]@),
                forall|k: int|
                    0 <= k < i ==> spec_find_edge(
                        engine.docs(),
                        parent@,
                        (#[trigger] children@[k])@,
                    ) is Some,
            decreases children@.len() - i,
        {
            let child = children[i].clone();
            let edge = Edge::new(edge_name, parent.clone(), child);
            let ghost pre = engine.docs();
            match engine.upsert_edge(edge) {
                Ok(p) => {
                    proof {
                        let ghost pe = |d: AnyDoc| edge_between(d, parent@, children@[i as int]@);
                        if spec_find_edge(pre, parent@, children@[i as int]@) is Some {
                            crate::engine::db::memory::lemma_first_index(pre, pe);
                            let fi = crate::engine::db::memory::spec_first_index(pre, pe);
                            assert(pe(pre[fi]));
                            crate::models::lemma_doc_eq_parts(p.1, pre[fi]);
                        }
                        assert(edge_between(p.1, parent@, children@[i as int]@));
                        if engine.docs() != pre {
                            let last = engine.docs().last();
                            assert forall|k: int| 0 <= k < i + 1 implies spec_find_edge(
                                engine.docs(),
                                parent@,
                                (#[trigger] children@[k])@,
                            ) is Some by {
                                let pk = |d: AnyDoc| edge_between(d, parent@, children@[k]@);
                                lemma_first_push(pre, pk, last);
                                assert(pre.push(last) =~= engine.docs());
                                if k == i {
                                    assert(pk(last));
                                }
                            }
                        } else {
                            assert forall|k: int| 0 <= k < i + 1 implies spec_find_edge(
                                engine.docs(),
                                parent@,
                                (#[trigger] children@[k])@,
                            ) is Some by {}
                        }
                    }
                    out.push(p.1);
                },
                Err(_) => {
                    return Err(DbError::FailedToCreate);
                },
            }
            i += 1;
        }
        Ok(out)
    }
}

impl Write<Edge> for MemoryDb {
    /// Storing an edge upserts on its endpoints, never duplicating a
    /// relationship.
    fn insert(&mut self, doc: Edge) -> (r: Result<(String, AnyDoc), DbError>)
        ensures
            spec_find_edge(old(self).docs(), doc._from@, doc._to@) is Some
                ==> final(self).docs() == old(self).docs(),
            spec_find_edge(old(self).docs(), doc._from@, doc._to@) is None
                ==> final(self).docs().len() == old(self).docs().len() + 1,
            r is Ok,
    {
        self.upsert_edge(doc)
    }

    /// Replacing an edge needs the backend identity it was stored
    /// under; an edge without one matches nothing.
    fn update(&mut self, doc: Edge) -> (r: Result<(), DbError>)
        ensures
            !doc.wf() ==> (r matches Err(e) && e is ItemNotFound) && final(self).docs() == old(
                self,
            ).docs(),
            doc.wf() ==> ({
                let i = spec_index_of_key(old(self).docs(), "generic_edge"@, doc.key_spec());
                &&& i >= 0 ==> r is Ok && final(self).docs() == old(self).docs().update(
                    i,
                    doc.to_doc_spec(),
                )
                &&& i < 0 ==> (r matches Err(e) && e is ItemNotFound) && final(self).docs()
                    == old(self).docs()
            }),
    {
        let identified = match (&doc._id, &doc._key) {
            (Some(i), Some(k)) => {
                let want = make_id("generic_edge", k.as_str());
                str_eq(i.as_str(), want.as_str())
            },
            _ => false,
        };
        if !identified {
            return Err(DbError::ItemNotFound);
        }
        let wire = doc.into_doc();
        self.update_doc(wire)
    }
}

} // verus!
