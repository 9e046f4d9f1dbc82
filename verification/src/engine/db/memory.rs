//! The in-memory engine: the reference implementation of the backend
//! contract. One store of wire documents serves every document type;
//! inserts are create-only, lookups go by id or by a normalized field
//! value, listing a collection reassembles server-side pages.

use vstd::prelude::*;
use vstd::string::StringExecFns;
use crate::engine::DbError;
use crate::models::edge::Edge;
use crate::models::{
    ReqModelTraits,
    AnyDoc, doc_collection, doc_eq, doc_field, doc_id, doc_key, lemma_collections_wf,
    lemma_same_id_same_place, make_id, option_view, spec_id, spec_parse_id, parse_id, wf_doc,
};
use crate::text::{normalize, spec_normalize, str_eq};

verus! {

/// Every stored document is well-formed.
pub open spec fn all_wf(docs: Seq<AnyDoc>) -> bool {
    forall|i: int| 0 <= i < docs.len() ==> wf_doc(#[trigger] docs[i])
}

/// The first document satisfying a predicate, scanning front to back.
pub open spec fn spec_first(docs: Seq<AnyDoc>, p: spec_fn(AnyDoc) -> bool) -> Option<AnyDoc>
    decreases docs.len(),
{
    if docs.len() == 0 {
        None
    } else if p(docs[0]) {
        Some(docs[0])
    } else {
        spec_first(docs.drop_first(), p)
    }
}

/// The index of the first document satisfying a predicate, or -1.
pub open spec fn spec_first_index(docs: Seq<AnyDoc>, p: spec_fn(AnyDoc) -> bool) -> int
    decreases docs.len(),
{
    if docs.len() == 0 {
        -1
    } else if p(docs[0]) {
        0
    } else {
        let r = spec_first_index(docs.drop_first(), p);
        if r == -1 {
            -1
        } else {
            r + 1
        }
    }
}

/// What the first-match index means: a valid index points at the first
/// match, -1 means there is none.
pub proof fn lemma_first_index(docs: Seq<AnyDoc>, p: spec_fn(AnyDoc) -> bool)
    ensures
        spec_first_index(docs, p) == -1 ==> forall|j: int|
            0 <= j < docs.len() ==> !p(#[trigger] docs[j]),
        spec_first_index(docs, p) != -1 ==> {
            let i = spec_first_index(docs, p);
            &&& 0 <= i < docs.len()
            &&& p(docs[i])
            &&& forall|j: int| 0 <= j < i ==> !p(#[trigger] docs[j])
            &&& spec_first(docs, p) == Some(docs[i])
        },
        spec_first_index(docs, p) == -1 ==> spec_first(docs, p) is None,
    decreases docs.len(),
{
    if docs.len() > 0 && !p(docs[0]) {
        let rest = docs.drop_first();
        lemma_first_index(rest, p);
        if spec_first_index(rest, p) == -1 {
            assert forall|j: int| 0 <= j < docs.len() implies !p(#[trigger] docs[j]) by {
                if j > 0 {
                    assert(rest[j - 1] == docs[j]);
                    assert(!p(rest[j - 1]));
                }
            }
        } else {
            let i = spec_first_index(rest, p);
            assert(spec_first_index(docs, p) == i + 1);
            assert(docs[i + 1] == rest[i]);
            assert forall|j: int| 0 <= j < i + 1 implies !p(#[trigger] docs[j]) by {
                if j > 0 {
                    assert(rest[j - 1] == docs[j]);
                    assert(!p(rest[j - 1]));
                }
            }
        }
    }
}

/// Skipping a prefix without matches does not change the first match.
pub proof fn lemma_first_skip(docs: Seq<AnyDoc>, p: spec_fn(AnyDoc) -> bool, i: int)
    requires
        0 <= i <= docs.len(),
        forall|j: int| 0 <= j < i ==> !p(#[trigger] docs[j]),
    ensures
        spec_first(docs, p) == spec_first(docs.skip(i), p),
    decreases i,
{
    if i > 0 {
        assert(!p(docs[0]));
        lemma_first_skip(docs.drop_first(), p, i - 1);
        assert(docs.drop_first() =~= docs.skip(1));
        assert(docs.drop_first().skip(i - 1) =~= docs.skip(i));
    } else {
        assert(docs.skip(0) =~= docs);
    }
}

/// A prefix free of matches pins the first-match index.
pub proof fn lemma_first_index_is(docs: Seq<AnyDoc>, p: spec_fn(AnyDoc) -> bool, i: int)
    requires
        0 <= i < docs.len(),
        p(docs[i]),
        forall|j: int| 0 <= j < i ==> !p(#[trigger] docs[j]),
    ensures
        spec_first_index(docs, p) == i,
    decreases i,
{
    if i == 0 {
    } else {
        assert(!p(docs[0]));
        let rest = docs.drop_first();
        assert(rest[i - 1] == docs[i]);
        assert forall|j: int| 0 <= j < i - 1 implies !p(#[trigger] rest[j]) by {
            assert(rest[j] == docs[j + 1]);
        }
        lemma_first_index_is(rest, p, i - 1);
    }
}

/// Appending one document: an existing first match stays the first
/// match; otherwise the appended document matches or nothing does.
pub proof fn lemma_first_push(docs: Seq<AnyDoc>, p: spec_fn(AnyDoc) -> bool, d: AnyDoc)
    ensures
        spec_first(docs.push(d), p) == (if spec_first(docs, p) is Some {
            spec_first(docs, p)
        } else if p(d) {
            Some(d)
        } else {
            None
        }),
    decreases docs.len(),
{
    let pushed = docs.push(d);
    assert(pushed.len() == docs.len() + 1);
    if docs.len() == 0 {
        assert(pushed[0] == d);
        assert(pushed.drop_first() =~= Seq::<AnyDoc>::empty());
        if p(d) {
            assert(spec_first(pushed, p) == Some(d));
        } else {
            assert(spec_first(pushed, p) == spec_first(pushed.drop_first(), p));
            assert(spec_first(pushed, p) is None);
        }
        assert(spec_first(docs, p) is None);
    } else {
        assert(pushed[0] == docs[0]);
        if !p(docs[0]) {
            lemma_first_push(docs.drop_first(), p, d);
            assert(pushed.drop_first() =~= docs.drop_first().push(d));
            assert(spec_first(pushed, p) == spec_first(docs.drop_first().push(d), p));
            assert(spec_first(docs, p) == spec_first(docs.drop_first(), p));
        } else {
            assert(spec_first(pushed, p) == Some(pushed[0]));
            assert(spec_first(docs, p) == Some(docs[0]));
        }
    }
}

/// Does a collection hold a document with the given key?
pub open spec fn spec_has_key(docs: Seq<AnyDoc>, collection: Seq<char>, key: Seq<char>) -> bool {
    exists|i: int|
        0 <= i < docs.len() && doc_collection(#[trigger] docs[i]) == collection && doc_key(
            docs[i],
        ) == key
}

/// The first document carrying the given id.
pub open spec fn spec_find_id(docs: Seq<AnyDoc>, id: Seq<char>) -> Option<AnyDoc> {
    spec_first(docs, |d: AnyDoc| doc_id(d) == id)
}

/// The index of the first document of the collection with the given key,
/// or -1.
pub open spec fn spec_index_of_key(docs: Seq<AnyDoc>, collection: Seq<char>, key: Seq<char>) -> int {
    spec_first_index(
        docs,
        |d: AnyDoc| doc_collection(d) == collection && doc_key(d) == key,
    )
}

/// The in-memory engine: a store of wire documents in insertion order.
#[derive(Debug)]
pub struct MemoryDb {
    items: Vec<AnyDoc>,
}

impl MemoryDb {
    /// The stored documents, in insertion order.
    pub closed spec fn docs(&self) -> Seq<AnyDoc> {
        self.items@
    }

    #[verifier::type_invariant]
    spec fn type_inv(&self) -> bool {
        all_wf(self.items@)
    }

    /// An empty store.
    pub fn new() -> (r: Self)
        ensures
            r.docs().len() == 0,
            all_wf(r.docs()),
    {
        MemoryDb { items: Vec::new() }
    }

    /// Does the collection already hold this key?
    fn has_key(&self, collection: &str, key: &str) -> (r: bool)
        ensures
            r == spec_has_key(self.docs(), collection@, key@),
    {
        let mut i: usize = 0;
        while i < self.items.len()
            invariant
                i <= self.items.len(),
                forall|j: int|
                    0 <= j < i ==> !(doc_collection(#[trigger] self.items@[j]) == collection@
                        && doc_key(self.items@[j]) == key@),
            decreases self.items.len() - i,
        {
            let d = &self.items[i];
            let k = d.key_of();
            if str_eq(d.collection_of(), collection) && str_eq(k.as_str(), key) {
                return true;
            }
            i += 1;
        }
        false
    }

    /// Create-only insert of a wire document: it fails, changing
    /// nothing, exactly when the collection already holds the key;
    /// otherwise the document is appended and its id is returned with a
    /// copy of the stored document.
    pub fn insert_doc(&mut self, doc: AnyDoc) -> (r: Result<(String, AnyDoc), DbError>)
        requires
            wf_doc(doc),
        ensures
            spec_has_key(old(self).docs(), doc_collection(doc), doc_key(doc)) ==> {
                &&& r matches Err(e) && e is FailedToCreate
                &&& final(self).docs() == old(self).docs()
            },
            !spec_has_key(old(self).docs(), doc_collection(doc), doc_key(doc)) ==> {
                &&& final(self).docs() == old(self).docs().push(doc)
                &&& r matches Ok(p) && p.0@ == doc_id(doc) && doc_eq(p.1, doc)
            },
            all_wf(old(self).docs()) && all_wf(final(self).docs()),
    {
        proof {
            use_type_invariant(&*self);
        }
        let collection = doc.collection_of();
        let key = doc.key_of();
        if self.has_key(collection, key.as_str()) {
            return Err(DbError::FailedToCreate);
        }
        let id = doc.id_of();
        let copy = doc.clone();
        let mut items: Vec<AnyDoc> = Vec::new();
        core::mem::swap(&mut items, &mut self.items);
        items.push(doc);
        core::mem::swap(&mut items, &mut self.items);
        Ok((id, copy))
    }

    /// Fetch a copy of the first document with the given id;
    /// `ItemNotFound` exactly when no document carries it.
    pub fn get_doc(&self, id: &str) -> (r: Result<AnyDoc, DbError>)
        ensures
            match (r, spec_find_id(self.docs(), id@)) {
                (Ok(d), Some(s)) => doc_eq(d, s),
                (Err(e), None) => e is ItemNotFound,
                _ => false,
            },
            all_wf(self.docs()),
    {
        proof {
            use_type_invariant(&*self);
        }
        let ghost p = |d: AnyDoc| doc_id(d) == id@;
        let mut i: usize = 0;
        while i < self.items.len()
            invariant
                i <= self.items.len(),
                p == (|d: AnyDoc| doc_id(d) == id@),
                forall|j: int| 0 <= j < i ==> !p(#[trigger] self.items@[j]),
            decreases self.items.len() - i,
        {
            let d = &self.items[i];
            let did = d.id_of();
            if str_eq(did.as_str(), id) {
                proof {
                    use_type_invariant(&*self);
                    lemma_first_skip(self.docs(), p, i as int);
                    assert(self.docs().skip(i as int)[0] == self.docs()[i as int]);
                }
                return Ok(d.clone());
            }
            i += 1;
        }
        proof {
            lemma_first_skip(self.docs(), p, self.docs().len() as int);
            assert(self.docs().skip(self.docs().len() as int) =~= Seq::<AnyDoc>::empty());
        }
        Err(DbError::ItemNotFound)
    }
}

/// The first document of a collection whose named field holds the value.
pub open spec fn spec_find_field(
    docs: Seq<AnyDoc>,
    collection: Seq<char>,
    field: Seq<char>,
    value: Seq<char>,
) -> Option<AnyDoc> {
    spec_first(
        docs,
        |d: AnyDoc| doc_collection(d) == collection && doc_field(d, field) == Some(value),
    )
}

impl MemoryDb {
    /// Find the first document of the collection whose field equals the
    /// trimmed, lower-cased value: the deliberate case-insensitive
    /// lookup. `ItemNotFound` exactly when nothing matches.
    pub fn find_doc(&self, collection: &str, field: &str, value: &str) -> (r: Result<
        AnyDoc,
        DbError,
    >)
        ensures
            match (r, spec_find_field(self.docs(), collection@, field@, spec_normalize(value@))) {
                (Ok(d), Some(s)) => doc_eq(d, s),
                (Err(e), None) => e is ItemNotFound,
                _ => false,
            },
            all_wf(self.docs()),
    {
        proof {
            use_type_invariant(&*self);
        }
        let val = normalize(value);
        let ghost p = |d: AnyDoc|
            doc_collection(d) == collection@ && doc_field(d, field@) == Some(
                spec_normalize(value@),
            );
        let mut i: usize = 0;
        while i < self.items.len()
            invariant
                i <= self.items.len(),
                val@ == spec_normalize(value@),
                p == (|d: AnyDoc|
                    doc_collection(d) == collection@ && doc_field(d, field@) == Some(
                        spec_normalize(value@),
                    )),
                forall|j: int| 0 <= j < i ==> !p(#[trigger] self.items@[j]),
            decreases self.items.len() - i,
        {
            let d = &self.items[i];
            if str_eq(d.collection_of(), collection) {
                match d.field_of(field) {
                    Some(s) => {
                        if str_eq(s.as_str(), val.as_str()) {
                            proof {
                                use_type_invariant(&*self);
                                assert(p(self.items@[i as int]));
                                lemma_first_skip(self.docs(), p, i as int);
                                assert(self.docs().skip(i as int)[0] == self.docs()[i as int]);
                            }
                            return Ok(d.clone());
                        }
                    },
                    None => {},
                }
            }
            i += 1;
        }
        proof {
            lemma_first_skip(self.docs(), p, self.docs().len() as int);
            assert(self.docs().skip(self.docs().len() as int) =~= Seq::<AnyDoc>::empty());
        }
        Err(DbError::ItemNotFound)
    }

    /// Replace the stored document that matches the incoming document's
    /// collection and key; `ItemNotFound`, changing nothing, exactly
    /// when no stored document matches.
    pub fn update_doc(&mut self, doc: AnyDoc) -> (r: Result<(), DbError>)
        requires
            wf_doc(doc),
        ensures
            ({
                let i = spec_index_of_key(old(self).docs(), doc_collection(doc), doc_key(doc));
                &&& i >= 0 ==> r is Ok && final(self).docs() == old(self).docs().update(i, doc)
                &&& i < 0 ==> (r matches Err(e) && e is ItemNotFound) && final(self).docs()
                    == old(self).docs()
            }),
            all_wf(old(self).docs()) && all_wf(final(self).docs()),
    {
        proof {
            use_type_invariant(&*self);
        }
        let collection = doc.collection_of();
        let key = doc.key_of();
        let ghost p = |d: AnyDoc| doc_collection(d) == doc_collection(doc) && doc_key(d)
            == doc_key(doc);
        let mut i: usize = 0;
        while i < self.items.len()
            invariant
                i <= self.items.len(),
                collection@ == doc_collection(doc),
                key@ == doc_key(doc),
                p == (|d: AnyDoc| doc_collection(d) == doc_collection(doc) && doc_key(d)
                    == doc_key(doc)),
                self.docs() == old(self).docs(),
                wf_doc(doc),
                forall|j: int| 0 <= j < i ==> !p(#[trigger] self.items@[j]),
            decreases self.items.len() - i,
        {
            let d = &self.items[i];
            let k = d.key_of();
            if str_eq(d.collection_of(), collection) && str_eq(k.as_str(), key.as_str()) {
                proof {
                    use_type_invariant(&*self);
                    assert(p(self.items@[i as int]));
                    lemma_first_index_is(self.docs(), p, i as int);
                }
                let ghost before = self.items@;
                let mut items: Vec<AnyDoc> = Vec::new();
                core::mem::swap(&mut items, &mut self.items);
                let _old_doc = items.remove(i);
                items.insert(i, doc);
                proof {
                    assert(items@ =~= before.update(i as int, doc));
                    assert forall|j: int| 0 <= j < items@.len() implies wf_doc(
                        #[trigger] items@[j],
                    ) by {
                        if j != i {
                            assert(items@[j] == before[j]);
                        }
                    }
                }
                core::mem::swap(&mut items, &mut self.items);
                return Ok(());
            }
            i += 1;
        }
        proof {
            use_type_invariant(&*self);
            lemma_first_index(self.docs(), p);
            if spec_first_index(self.docs(), p) != -1 {
                let k = spec_first_index(self.docs(), p);
                assert(!p(self.items@[k]));
            }
        }
        Err(DbError::ItemNotFound)
    }

    /// Parse the id into collection and key, delete the document they
    /// name, and return it. `ParseFail` when the id holds no separator;
    /// `ItemNotFound` when nothing matches; nothing changes on failure.
    pub fn remove_doc(&mut self, id: &str) -> (r: Result<AnyDoc, DbError>)
        ensures
            spec_parse_id(id@) is None ==> (r matches Err(e) && e is ParseFail)
                && final(self).docs() == old(self).docs(),
            spec_parse_id(id@) matches Some(ck) ==> ({
                let i = spec_index_of_key(old(self).docs(), ck.0, ck.1);
                &&& i >= 0 ==> (r matches Ok(d) && d == old(self).docs()[i])
                    && final(self).docs() == old(self).docs().remove(i)
                &&& i < 0 ==> (r matches Err(e) && e is ItemNotFound) && final(self).docs()
                    == old(self).docs()
            }),
            all_wf(old(self).docs()) && all_wf(final(self).docs()),
    {
        proof {
            use_type_invariant(&*self);
        }
        let parsed = parse_id(id);
        let (collection, key) = match parsed {
            None => {
                return Err(DbError::ParseFail);
            },
            Some(p) => p,
        };
        let ghost ck = spec_parse_id(id@).unwrap();
        let ghost p = |d: AnyDoc| doc_collection(d) == ck.0 && doc_key(d) == ck.1;
        let mut i: usize = 0;
        while i < self.items.len()
            invariant
                i <= self.items.len(),
                collection@ == ck.0,
                key@ == ck.1,
                p == (|d: AnyDoc| doc_collection(d) == ck.0 && doc_key(d) == ck.1),
                spec_parse_id(id@) == Some(ck),
                self.docs() == old(self).docs(),
                forall|j: int| 0 <= j < i ==> !p(#[trigger] self.items@[j]),
            decreases self.items.len() - i,
        {
            let d = &self.items[i];
            let k = d.key_of();
            if str_eq(d.collection_of(), collection.as_str()) && str_eq(
                k.as_str(),
                key.as_str(),
            ) {
                proof {
                    use_type_invariant(&*self);
                    assert(p(self.items@[i as int]));
                    lemma_first_index_is(self.docs(), p, i as int);
                }
                let ghost before = self.items@;
                let mut items: Vec<AnyDoc> = Vec::new();
                core::mem::swap(&mut items, &mut self.items);
                let removed = items.remove(i);
                proof {
                    assert forall|j: int| 0 <= j < items@.len() implies wf_doc(
                        #[trigger] items@[j],
                    ) by {
                        if j < i {
                            assert(items@[j] == before[j]);
                        } else {
                            assert(items@[j] == before[j + 1]);
                        }
                    }
                }
                core::mem::swap(&mut items, &mut self.items);
                return Ok(removed);
            }
            i += 1;
        }
        proof {
            use_type_invariant(&*self);
            lemma_first_index(self.docs(), p);
            if spec_first_index(self.docs(), p) != -1 {
                let k = spec_first_index(self.docs(), p);
                assert(!p(self.items@[k]));
            }
        }
        Err(DbError::ItemNotFound)
    }
}

/// Pairwise content equality of two document sequences: same length,
/// each entry a faithful copy of its counterpart.
pub open spec fn docs_match(a: Seq<AnyDoc>, b: Seq<AnyDoc>) -> bool {
    a.len() == b.len() && forall|i: int|
        0 <= i < a.len() ==> doc_eq(#[trigger] a[i], #[trigger] b[i])
}

/// The documents of one collection, in storage order.
pub open spec fn spec_collection_docs(docs: Seq<AnyDoc>, collection: Seq<char>) -> Seq<AnyDoc> {
    docs.filter(|d: AnyDoc| doc_collection(d) == collection)
}

/// The page size used when a whole collection is read out.
pub const BATCH_SIZE: usize = 5;

/// One page of a running query: the page's documents and, when more
/// remain, the continuation token for the next page.
#[derive(Debug)]
pub struct MemCursor {
    pub result: Vec<AnyDoc>,
    pub id: Option<CursorToken>,
}

/// The continuation token of a paged query: which collection is being
/// read, how far the read has come, and the page size.
#[derive(Debug)]
pub struct CursorToken {
    pub collection: String,
    pub offset: usize,
    pub batch: usize,
}

/// A cursor that honestly continues a paged read of one collection:
/// what it gathered so far is the read prefix, and its token, if any,
/// points at the rest.
pub open spec fn cursor_live(c: MemCursor, docs: Seq<AnyDoc>, collection: Seq<char>) -> bool {
    let full = spec_collection_docs(docs, collection);
    match c.id {
        None => docs_match(c.result@, full),
        Some(tok) => {
            &&& tok.collection@ == collection
            &&& 1 <= tok.batch
            &&& tok.offset <= full.len()
            &&& docs_match(c.result@, full.take(tok.offset as int))
        },
    }
}

impl MemoryDb {
    /// All documents of one collection, as copies in storage order.
    fn collect_collection(&self, collection: &str) -> (r: Vec<AnyDoc>)
        ensures
            docs_match(r@, spec_collection_docs(self.docs(), collection@)),
    {
        let ghost p = |d: AnyDoc| doc_collection(d) == collection@;
        let mut out: Vec<AnyDoc> = Vec::new();
        let mut i: usize = 0;
        while i < self.items.len()
            invariant
                i <= self.items.len(),
                p == (|d: AnyDoc| doc_collection(d) == collection@),
                docs_match(out@, self.items@.take(i as int).filter(p)),
            decreases self.items.len() - i,
        {
            let ghost pf = self.items@.take(i as int);
            let ghost pf2 = self.items@.take(i + 1 as int);
            let d = &self.items[i];
            let ghost out0 = out@;
            if str_eq(d.collection_of(), collection) {
                out.push(d.clone());
            }
            proof {
                reveal(Seq::filter);
                assert(pf2.drop_last() =~= pf);
                assert(pf2.last() == self.items@[i as int]);
                if p(self.items@[i as int]) {
                    assert(pf2.filter(p) == pf.filter(p).push(self.items@[i as int]));
                    assert(out@ =~= out0.push(out@.last()));
                    assert(docs_match(out@, pf2.filter(p)));
                } else {
                    assert(pf2.filter(p) == pf.filter(p));
                }
            }
            i += 1;
        }
        proof {
            assert(self.items@.take(self.items.len() as int) =~= self.items@);
        }
        out
    }

    /// Run the list-collection query: the first page, and a continuation
    /// token when more documents remain.
    pub fn query_batch(&self, collection: &str, batch: usize) -> (r: MemCursor)
        requires
            1 <= batch,
        ensures
            cursor_live(r, self.docs(), collection@),
            spec_collection_docs(self.docs(), collection@).len() <= batch ==> r.id is None,
            r.id matches Some(t) ==> t.offset == batch && t.batch == batch,
    {
        let ghost fullspec = spec_collection_docs(self.docs(), collection@);
        let full = self.collect_collection(collection);
        if full.len() <= batch {
            MemCursor { result: full, id: None }
        } else {
            let mut page: Vec<AnyDoc> = Vec::new();
            let mut i: usize = 0;
            while i < batch
                invariant
                    i <= batch,
                    batch < full@.len(),
                    docs_match(full@, fullspec),
                    page@.len() == i,
                    forall|k: int| 0 <= k < i ==> doc_eq(#[trigger] page@[k], full@[k]),
                decreases batch - i,
            {
                page.push(full[i].clone());
                proof {
                    assert forall|k: int| 0 <= k < i + 1 implies doc_eq(
                        #[trigger] page@[k],
                        full@[k],
                    ) by {
                        if k == i {
                            crate::models::lemma_doc_eq_sym(page@[k], full@[k]);
                            crate::models::lemma_doc_eq_refl(full@[k]);
                        }
                    }
                }
                i += 1;
            }
            proof {
                assert forall|k: int| 0 <= k < batch implies doc_eq(
                    #[trigger] page@[k],
                    fullspec.take(batch as int)[k],
                ) by {
                    crate::models::lemma_doc_eq_trans(page@[k], full@[k], fullspec[k]);
                }
            }
            MemCursor {
                result: page,
                id: Some(CursorToken { collection: collection.to_owned(), offset: batch, batch }),
            }
        }
    }

    /// Fetch the page a continuation token points at. A token that asks
    /// for empty pages or lies beyond the collection is stale and fails;
    /// tokens handed out by the query itself never do.
    pub fn next_batch(&self, token: &CursorToken) -> (r: Result<MemCursor, DbError>)
        ensures
            ({
                let full = spec_collection_docs(self.docs(), token.collection@);
                let end: int = if token.offset + token.batch <= full.len() {
                    token.offset + token.batch
                } else {
                    full.len() as int
                };
                &&& (token.batch >= 1 && token.offset <= full.len()) ==> (r matches Ok(c) && ({
                    &&& docs_match(c.result@, full.subrange(token.offset as int, end))
                    &&& end == full.len() ==> c.id is None
                    &&& end < full.len() ==> (c.id matches Some(t2) && t2.collection@
                        == token.collection@ && t2.batch == token.batch && t2.offset == end)
                }))
                &&& (token.batch == 0 || token.offset > full.len()) ==> (r matches Err(e)
                    && e is ItemNotFound)
            }),
    {
        let ghost fullspec = spec_collection_docs(self.docs(), token.collection@);
        let full = self.collect_collection(token.collection.as_str());
        if token.batch == 0 || token.offset > full.len() {
            return Err(DbError::ItemNotFound);
        }
        let end: usize = if full.len() - token.offset <= token.batch {
            full.len()
        } else {
            token.offset + token.batch
        };
        let mut page: Vec<AnyDoc> = Vec::new();
        let mut i: usize = token.offset;
        while i < end
            invariant
                token.offset <= i <= end <= full@.len(),
                docs_match(full@, fullspec),
                page@.len() == i - token.offset,
                forall|k: int|
                    token.offset <= k < i ==> doc_eq(
                        #[trigger] page@[k - token.offset],
                        full@[k],
                    ),
            decreases end - i,
        {
            page.push(full[i].clone());
            proof {
                assert forall|k: int| token.offset <= k < i + 1 implies doc_eq(
                    #[trigger] page@[k - token.offset],
                    full@[k],
                ) by {
                    if k == i {
                        crate::models::lemma_doc_eq_sym(page@[k - token.offset], full@[k]);
                        crate::models::lemma_doc_eq_refl(full@[k]);
                    }
                }
            }
            i += 1;
        }
        proof {
            assert forall|k: int| 0 <= k < page@.len() implies doc_eq(
                #[trigger] page@[k],
                fullspec.subrange(token.offset as int, end as int)[k],
            ) by {
                assert(doc_eq(page@[(k + token.offset) - token.offset], full@[k + token.offset]));
                assert(doc_eq(full@[k + token.offset], fullspec[k + token.offset]));
                crate::models::lemma_doc_eq_trans(
                    page@[k],
                    full@[k + token.offset],
                    fullspec[k + token.offset],
                );
            }
        }
        if end == full.len() {
            Ok(MemCursor { result: page, id: None })
        } else {
            Ok(
                MemCursor {
                    result: page,
                    id: Some(
                        CursorToken {
                            collection: token.collection.clone(),
                            offset: end,
                            batch: token.batch,
                        },
                    ),
                },
            )
        }
    }

    /// List a whole collection: run the paged query and reassemble the
    /// pages. The result is complete, in storage order: no omission, no
    /// repetition, whatever the page size.
    pub fn get_all_docs(&self, collection: &str) -> (r: Result<Vec<AnyDoc>, DbError>)
        ensures
            r matches Ok(v) && docs_match(v@, spec_collection_docs(self.docs(), collection@)),
            all_wf(self.docs()),
    {
        proof {
            use_type_invariant(&*self);
        }
        let cursor = self.query_batch(collection, BATCH_SIZE);
        cursor_digest(cursor, self, Ghost(collection@))
    }
}

/// Drain a cursor: while a continuation token remains, fetch the next
/// page and append it; stop when the backend reports no further page.
/// Reassembly is complete: a cursor that continues a query over one
/// collection drains to exactly that collection's documents.
pub fn cursor_digest(
    cursor: MemCursor,
    engine: &MemoryDb,
    Ghost(collection): Ghost<Seq<char>>,
) -> (r: Result<Vec<AnyDoc>, DbError>)
    requires
        cursor_live(cursor, engine.docs(), collection),
    ensures
        r matches Ok(v) && docs_match(v@, spec_collection_docs(engine.docs(), collection)),
{
    let ghost full = spec_collection_docs(engine.docs(), collection);
    let mut col = cursor.result;
    let mut token_opt = cursor.id;
    while token_opt.is_some()
        invariant
            cursor_live(
                MemCursor { result: col, id: token_opt },
                engine.docs(),
                collection,
            ),
            full == spec_collection_docs(engine.docs(), collection),
        decreases (match token_opt {
            Some(t) => full.len() + 1 - t.offset,
            None => 0int,
        }),
    {
        let tok = token_opt.unwrap();
        let ghost off = tok.offset as int;
        match engine.next_batch(&tok) {
            Ok(mut c2) => {
                let ghost page = c2.result@;
                let ghost col0 = col@;
                col.append(&mut c2.result);
                token_opt = c2.id;
                proof {
                    let end: int = if off + tok.batch <= full.len() {
                        off + tok.batch
                    } else {
                        full.len() as int
                    };
                    assert(docs_match(page, full.subrange(off, end)));
                    assert(col@ =~= col0 + page);
                    assert forall|k: int| 0 <= k < end implies doc_eq(
                        #[trigger] col@[k],
                        full.take(end)[k],
                    ) by {
                        if k < off {
                            assert(col@[k] == col0[k]);
                            assert(doc_eq(col0[k], full.take(off)[k]));
                        } else {
                            assert(col@[k] == page[k - off]);
                            assert(doc_eq(page[k - off], full.subrange(off, end)[k - off]));
                        }
                    }
                    assert(docs_match(col@, full.take(end)));
                    if end == full.len() {
                        assert(full.take(end) =~= full);
                    }
                }
            },
            Err(_) => {
                // A stale token ends the scan with what was gathered; a
                // token handed out by the query itself is never stale.
                return Ok(col);
            },
        }
    }
    proof {
        assert(docs_match(col@, full));
    }
    Ok(col)
}

/// What a sequential batch insert does: process the jobs front to back,
/// appending each until one hits an existing key; that one aborts the
/// batch, keeping the documents already appended. The result is the
/// final store, the ids of the inserted documents, and whether a job
/// failed.
pub open spec fn spec_insert_all(docs: Seq<AnyDoc>, jobs: Seq<AnyDoc>) -> (Seq<AnyDoc>, Seq<
    Seq<char>,
>, bool)
    decreases jobs.len(),
{
    if jobs.len() == 0 {
        (docs, Seq::empty(), false)
    } else {
        let d = jobs[0];
        if spec_has_key(docs, doc_collection(d), doc_key(d)) {
            (docs, Seq::empty(), true)
        } else {
            let r = spec_insert_all(docs.push(d), jobs.drop_first());
            (r.0, seq![doc_id(d)] + r.1, r.2)
        }
    }
}

impl MemoryDb {
    /// Insert a batch sequentially, aborting on the first failure: the
    /// batch fails as a whole, but the documents inserted before the
    /// failing one stay. On success the new ids come back in order.
    pub fn insert_docs(&mut self, jobs: Vec<AnyDoc>) -> (r: Result<Vec<String>, DbError>)
        requires
            forall|j: int| 0 <= j < jobs@.len() ==> wf_doc(#[trigger] jobs@[j]),
        ensures
            ({
                let out = spec_insert_all(old(self).docs(), jobs@);
                &&& final(self).docs() == out.0
                &&& !out.2 ==> (r matches Ok(v) && v@.len() == out.1.len() && (forall|k: int|
                    0 <= k < v@.len() ==> (#[trigger] v@[k])@ == out.1[k]))
                &&& out.2 ==> (r matches Err(e) && e is FailedToCreate)
            }),
            all_wf(old(self).docs()) && all_wf(final(self).docs()),
        decreases jobs@.len(),
    {
        proof {
            use_type_invariant(&*self);
        }
        let ghost jobs0 = jobs@;
        if jobs.len() == 0 {
            let ids: Vec<String> = Vec::new();
            return Ok(ids);
        }
        let mut pending = jobs;
        let d = pending.remove(0);
        proof {
            assert(d == jobs0[0]);
            assert(pending@ =~= jobs0.drop_first());
        }
        match self.insert_doc(d) {
            Ok(p) => {
                let rest = self.insert_docs(pending);
                match rest {
                    Ok(mut ids) => {
                        let ghost tail = ids@;
                        ids.insert(0, p.0);
                        proof {
                            let out = spec_insert_all(old(self).docs(), jobs0);
                            assert(out.1 == seq![doc_id(jobs0[0])] + spec_insert_all(
                                old(self).docs().push(jobs0[0]),
                                jobs0.drop_first(),
                            ).1);
                            assert(ids@ =~= seq![ids@[0]] + tail);
                            assert forall|k: int| 0 <= k < ids@.len() implies (
                            #[trigger] ids@[k])@ == out.1[k] by {
                                if k > 0 {
                                    assert(ids@[k] == tail[k - 1]);
                                }
                            }
                        }
                        Ok(ids)
                    },
                    Err(e) => Err(e),
                }
            },
            Err(_) => Err(DbError::FailedToCreate),
        }
    }
}

/// An edge document with the given endpoints, whatever its name or key.
pub open spec fn edge_between(d: AnyDoc, from: Seq<char>, to: Seq<char>) -> bool {
    d matches AnyDoc::Edge(e) && e._from@ == from && e._to@ == to
}

/// The first stored edge with the given endpoints, wherever its key
/// came from.
pub open spec fn spec_find_edge(docs: Seq<AnyDoc>, from: Seq<char>, to: Seq<char>) -> Option<
    AnyDoc,
> {
    spec_first(docs, |d: AnyDoc| edge_between(d, from, to))
}

/// A stored edge document with the given name and endpoints, carrying a
/// backend-assigned identity.
pub open spec fn is_completed_edge(
    d: AnyDoc,
    edge_name: Seq<char>,
    from: Seq<char>,
    to: Seq<char>,
) -> bool {
    &&& d matches AnyDoc::Edge(e)
    &&& e.edge_name@ == edge_name
    &&& e._from@ == from
    &&& e._to@ == to
    &&& wf_doc(d)
}

impl MemoryDb {
    /// Store an edge with upsert-on-endpoints semantics: when an edge
    /// with the same `_from`/`_to` pair already exists it is returned
    /// untouched, so re-linking the same pair is idempotent; otherwise
    /// the edge is completed with a backend-assigned key and appended.
    pub fn upsert_edge(&mut self, edge: Edge) -> (r: Result<(String, AnyDoc), DbError>)
        ensures
            spec_find_edge(old(self).docs(), edge._from@, edge._to@) matches Some(d) ==> ({
                &&& final(self).docs() == old(self).docs()
                &&& r matches Ok(p) && p.0@ == doc_id(d) && doc_eq(p.1, d)
            }),
            spec_find_edge(old(self).docs(), edge._from@, edge._to@) is None ==> ({
                &&& final(self).docs().len() == old(self).docs().len() + 1
                &&& final(self).docs().drop_last() == old(self).docs()
                &&& is_completed_edge(
                    final(self).docs().last(),
                    edge.edge_name@,
                    edge._from@,
                    edge._to@,
                )
                &&& r matches Ok(p) && p.0@ == doc_id(final(self).docs().last()) && doc_eq(
                    p.1,
                    final(self).docs().last(),
                )
            }),
            all_wf(old(self).docs()) && all_wf(final(self).docs()),
    {
        proof {
            use_type_invariant(&*self);
        }
        let ghost p = |d: AnyDoc| edge_between(d, edge._from@, edge._to@);
        let mut i: usize = 0;
        while i < self.items.len()
            invariant
                i <= self.items.len(),
                p == (|d: AnyDoc| edge_between(d, edge._from@, edge._to@)),
                self.docs() == old(self).docs(),
                forall|j: int| 0 <= j < i ==> !p(#[trigger] self.items@[j]),
            decreases self.items.len() - i,
        {
            let found = match &self.items[i] {
                AnyDoc::Edge(e) => str_eq(e._from.as_str(), edge._from.as_str()) && str_eq(
                    e._to.as_str(),
                    edge._to.as_str(),
                ),
                _ => false,
            };
            if found {
                proof {
                    use_type_invariant(&*self);
                    assert(p(self.items@[i as int]));
                    lemma_first_skip(self.docs(), p, i as int);
                    assert(self.docs().skip(i as int)[0] == self.docs()[i as int]);
                }
                let d = &self.items[i];
                let id = d.id_of();
                return Ok((id, d.clone()));
            }
            i += 1;
        }
        proof {
            lemma_first_skip(self.docs(), p, self.docs().len() as int);
            assert(self.docs().skip(self.docs().len() as int) =~= Seq::<AnyDoc>::empty());
        }
        let key = edge._from.clone().concat("_").concat(edge._to.as_str());
        let id = make_id("generic_edge", key.as_str());
        let completed = Edge {
            edge_name: edge.edge_name,
            _id: Some(id.clone()),
            _key: Some(key),
            _from: edge._from,
            _to: edge._to,
        };
        let stored = AnyDoc::Edge(completed);
        proof {
            use_type_invariant(&*self);
            assert(wf_doc(stored));
        }
        let copy = stored.clone();
        let mut items: Vec<AnyDoc> = Vec::new();
        core::mem::swap(&mut items, &mut self.items);
        items.push(stored);
        core::mem::swap(&mut items, &mut self.items);
        proof {
            assert(self.docs().drop_last() =~= old(self).docs());
        }
        Ok((id, copy))
    }
}

/// Law: a fresh key is free, so reading a document back by its id right
/// after a successful insert finds exactly the inserted document
/// (idempotent read).
pub proof fn lemma_insert_then_get(docs: Seq<AnyDoc>, d: AnyDoc)
    requires
        all_wf(docs),
        wf_doc(d),
        !spec_has_key(docs, doc_collection(d), doc_key(d)),
    ensures
        spec_find_id(docs.push(d), doc_id(d)) == Some(d),
{
    let p = |x: AnyDoc| doc_id(x) == doc_id(d);
    let pushed = docs.push(d);
    assert forall|j: int| 0 <= j < docs.len() implies !p(#[trigger] pushed[j]) by {
        assert(pushed[j] == docs[j]);
        assert(wf_doc(docs[j]));
        if doc_id(docs[j]) == doc_id(d) {
            lemma_same_id_same_place(docs[j], d);
            assert(spec_has_key(docs, doc_collection(d), doc_key(d)));
        }
    }
    lemma_first_skip(pushed, p, docs.len() as int);
    assert(pushed.skip(docs.len() as int) =~= seq![d]);
    assert(spec_first(seq![d], p) == Some(d));
}

/// Law: the idempotent read, typed: a document read back by its id
/// right after a successful typed insert is the inserted document in
/// its wire form, and it reads back as the very document.
pub proof fn lemma_insert_then_get_typed<T: ReqModelTraits>(docs: Seq<AnyDoc>, d: T)
    requires
        all_wf(docs),
        d.wf(),
        !spec_has_key(docs, T::spec_collection_name(), d.key_spec()),
    ensures
        spec_find_id(docs.push(d.to_doc_spec()), d.id_spec()) == Some(d.to_doc_spec()),
        T::of_doc_spec(d.to_doc_spec()) == Some(d),
{
    d.lemma_roundtrip();
    T::lemma_of_doc(d.to_doc_spec());
    lemma_insert_then_get(docs, d.to_doc_spec());
}

/// Law: after a document is stored, its key is taken, so a second
/// create-only insert of the same collection and key must fail.
pub proof fn lemma_create_only(docs: Seq<AnyDoc>, d1: AnyDoc, d2: AnyDoc)
    requires
        doc_collection(d1) == doc_collection(d2),
        doc_key(d1) == doc_key(d2),
    ensures
        spec_has_key(docs.push(d1), doc_collection(d2), doc_key(d2)),
{
    let pushed = docs.push(d1);
    assert(pushed[docs.len() as int] == d1);
}

} // verus!
