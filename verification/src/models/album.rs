//! Album documents.

use vstd::prelude::*;
use crate::models::{
    AnyDoc, BoxedDoc, DocDetails, ReqModelTraits, doc_collection, doc_eq, fresh_key, is_lower_hex,
    lemma_collections_wf, make_id, spec_id,
};
use crate::engine::DbError;
use crate::engine::db::memory::{MemoryDb, spec_collection_docs, spec_find_field, spec_find_id};
use crate::io::read::{EngineGet, Get};
use crate::text::{normalize, spec_normalize};
use crate::time::TimeStamp;

pub mod ver;

verus! {

/// Album data type
#[derive(Debug)]
pub struct Album {
    /// Backend id, wire name `_id`
    pub id: String,
    /// Backend key, wire name `_key`
    pub key: String,
    /// Barcode of the album
    pub barcode: String,
    /// Catalog number of the album
    pub cat_no: String,
    /// Album name
    pub name: String,
    /// Album details
    pub description: String,
    /// Creation and update instants
    pub time: TimeStamp,
}

impl Clone for Album {
    fn clone(&self) -> (r: Self)
        ensures
            r == *self,
    {
        Album {
            id: self.id.clone(),
            key: self.key.clone(),
            barcode: self.barcode.clone(),
            cat_no: self.cat_no.clone(),
            name: self.name.clone(),
            description: self.description.clone(),
            time: self.time,
        }
    }
}

impl Album {
    /// A blank album with a fresh unique key and the id derived from it.
    pub fn new() -> (r: Self)
        ensures
            r.wf(),
            r.key@.len() == 8,
            forall|i: int| 0 <= i < r.key@.len() ==> is_lower_hex(#[trigger] r.key@[i]),
            r.barcode@.len() == 0,
            r.cat_no@.len() == 0,
            r.name@.len() == 0,
            r.description@.len() == 0,
            r.time.spec_created() == r.time.spec_updated(),
    {
        let key = fresh_key();
        let id = make_id("album", key.as_str());
        Album {
            id,
            key,
            barcode: String::new(),
            cat_no: String::new(),
            name: String::new(),
            description: String::new(),
            time: TimeStamp::default(),
        }
    }

    /// Give the album the stated key; the id follows the document
    /// invariant.
    pub fn change_id(&mut self, new_id: &str)
        ensures
            final(self).key@ == new_id@,
            final(self).wf(),
            final(self).barcode == old(self).barcode,
            final(self).cat_no == old(self).cat_no,
            final(self).name == old(self).name,
            final(self).description == old(self).description,
            final(self).time == old(self).time,
    {
        self.key = new_id.to_owned();
        self.id = make_id("album", new_id);
    }

    /// Give the album a fresh unique key.
    pub fn gen_id(&mut self)
        ensures
            final(self).wf(),
            final(self).key@.len() == 8,
            final(self).barcode == old(self).barcode,
            final(self).cat_no == old(self).cat_no,
            final(self).name == old(self).name,
            final(self).description == old(self).description,
            final(self).time == old(self).time,
    {
        let key = fresh_key();
        self.id = make_id("album", key.as_str());
        self.key = key;
    }

    /// Set the album name; names are kept trimmed and lower-cased, the
    /// same normalization a field search applies.
    pub fn name(&mut self, name: &str)
        ensures
            final(self).name@ == spec_normalize(name@),
            final(self).id == old(self).id,
            final(self).key == old(self).key,
            final(self).barcode == old(self).barcode,
            final(self).cat_no == old(self).cat_no,
            final(self).description == old(self).description,
            final(self).time == old(self).time,
    {
        self.name = normalize(name);
    }

    /// Set the album description, verbatim.
    pub fn description(&mut self, desc: &str)
        ensures
            final(self).description@ == desc@,
            final(self).id == old(self).id,
            final(self).key == old(self).key,
            final(self).barcode == old(self).barcode,
            final(self).cat_no == old(self).cat_no,
            final(self).name == old(self).name,
            final(self).time == old(self).time,
    {
        self.description = desc.to_owned();
    }

    pub fn get_time_created(&self) -> (r: i64)
        ensures
            r == self.time.spec_created(),
    {
        self.time.get_created()
    }

    pub fn get_time_updated(&self) -> (r: i64)
        ensures
            r == self.time.spec_updated(),
    {
        self.time.get_updated()
    }

    /// Refresh the update instant; creation is untouched.
    pub fn update_time(&mut self)
        ensures
            final(self).time.spec_created() == old(self).time.spec_created(),
            final(self).id == old(self).id,
            final(self).key == old(self).key,
            final(self).barcode == old(self).barcode,
            final(self).cat_no == old(self).cat_no,
            final(self).name == old(self).name,
            final(self).description == old(self).description,
    {
        self.time.update();
    }
}

impl DocDetails for Album {
    open spec fn spec_collection_name() -> Seq<char> {
        "album"@
    }

    open spec fn key_spec(&self) -> Seq<char> {
        self.key@
    }

    open spec fn id_spec(&self) -> Seq<char> {
        self.id@
    }

    fn collection_name() -> (r: &'static str) {
        "album"
    }

    fn key(&self) -> (r: String) {
        self.key.clone()
    }

    fn id(&self) -> (r: String) {
        self.id.clone()
    }
}

impl ReqModelTraits for Album {
    open spec fn wf(&self) -> bool {
        self.id@ == spec_id("album"@, self.key@)
    }

    open spec fn to_doc_spec(&self) -> AnyDoc {
        AnyDoc::Album(*self)
    }

    open spec fn of_doc_spec(d: AnyDoc) -> Option<Album> {
        match d {
            AnyDoc::Album(a) => Some(a),
            _ => None,
        }
    }

    fn into_doc(self) -> (r: AnyDoc) {
        AnyDoc::Album(self)
    }

    fn from_doc(d: AnyDoc) -> (r: Option<Album>) {
        match d {
            AnyDoc::Album(a) => Some(a),
            _ => None,
        }
    }

    proof fn lemma_roundtrip(&self) {
    }

    proof fn lemma_of_doc(d: AnyDoc) {
        lemma_collections_wf();
    }
}

impl BoxedDoc for Album {}

impl Get<MemoryDb> for Album {
    /// All stored documents of this type, in storage order.
    fn get_all(engine: &MemoryDb) -> (r: Result<Vec<Album>, DbError>)
        ensures
            r matches Ok(v) && ({
                let full = spec_collection_docs(engine.docs(), Album::spec_collection_name());
                &&& v@.len() == full.len()
                &&& forall|k: int|
                    0 <= k < v@.len() ==> doc_eq((#[trigger] v@[k]).to_doc_spec(), full[k])
            }),
    {
        engine.get_all::<Album>()
    }

    /// One stored document of this type, by id.
    fn get(id: &str, engine: &MemoryDb) -> (r: Result<Album, DbError>)
        ensures
            match spec_find_id(engine.docs(), id@) {
                Some(d) => {
                    &&& doc_collection(d) == Album::spec_collection_name() ==> (r matches Ok(x)
                        && doc_eq(x.to_doc_spec(), d))
                    &&& doc_collection(d) != Album::spec_collection_name() ==> (r matches Err(e)
                        && e is ItemNotFound)
                },
                None => r matches Err(e) && e is ItemNotFound,
            },
    {
        engine.get::<Album>(id)
    }

    /// The first stored document of this type whose field equals the
    /// trimmed, lower-cased value.
    fn find(field: &str, value: &str, engine: &MemoryDb) -> (r: Result<Album, DbError>)
        ensures
            match spec_find_field(
                engine.docs(),
                Album::spec_collection_name(),
                field@,
                spec_normalize(value@),
            ) {
                Some(d) => r matches Ok(x) && doc_eq(x.to_doc_spec(), d),
                None => r matches Err(e) && e is ItemNotFound,
            },
    {
        engine.find::<Album>(field, value)
    }
}

} // verus!
