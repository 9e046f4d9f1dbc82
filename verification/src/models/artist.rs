//! Artist documents.

use vstd::prelude::*;
use crate::models::{
    AnyDoc, BoxedDoc, DocDetails, ReqModelTraits, doc_collection, doc_eq, clone_string_vec, fresh_key, is_lower_hex,
    lemma_collections_wf, make_id, spec_id,
};
use crate::engine::DbError;
use crate::engine::db::memory::{MemoryDb, spec_collection_docs, spec_find_field, spec_find_id};
use crate::io::read::{EngineGet, Get};
use crate::text::{normalize, spec_normalize};
use crate::time::TimeStamp;

verus! {

/// Artist data type
#[derive(Debug)]
pub struct Artist {
    /// Backend id, wire name `_id`
    pub id: String,
    /// Backend key, wire name `_key`
    pub key: String,
    /// id/key used by a source, formatted `source - id`
    pub foreign_key: String,
    /// Artist or band name
    pub name: String,
    /// Common variations of the name
    pub aliases: Vec<String>,
    /// Description of the artist
    pub profile: String,
    /// Creation and update instants
    pub time: TimeStamp,
}

impl Clone for Artist {
    /// Copies hold the same content; the alias list is compared by its
    /// entries.
    fn clone(&self) -> (r: Self)
        ensures
            r.id == self.id,
            r.key == self.key,
            r.foreign_key == self.foreign_key,
            r.name == self.name,
            r.aliases@ == self.aliases@,
            r.profile == self.profile,
            r.time == self.time,
    {
        Artist {
            id: self.id.clone(),
            key: self.key.clone(),
            foreign_key: self.foreign_key.clone(),
            name: self.name.clone(),
            aliases: clone_string_vec(&self.aliases),
            profile: self.profile.clone(),
            time: self.time,
        }
    }
}

impl Artist {
    /// A blank artist with a fresh unique key and the id derived from it.
    pub fn new() -> (r: Self)
        ensures
            r.wf(),
            r.key@.len() == 8,
            forall|i: int| 0 <= i < r.key@.len() ==> is_lower_hex(#[trigger] r.key@[i]),
            r.foreign_key@.len() == 0,
            r.name@.len() == 0,
            r.aliases@.len() == 0,
            r.profile@.len() == 0,
            r.time.spec_created() == r.time.spec_updated(),
    {
        let key = fresh_key();
        let id = make_id("artist", key.as_str());
        Artist {
            id,
            key,
            foreign_key: String::new(),
            name: String::new(),
            aliases: Vec::new(),
            profile: String::new(),
            time: TimeStamp::default(),
        }
    }

    /// Give the artist the stated key; the id follows the document
    /// invariant.
    pub fn change_id(&mut self, new_id: &str)
        ensures
            final(self).key@ == new_id@,
            final(self).wf(),
            final(self).foreign_key == old(self).foreign_key,
            final(self).name == old(self).name,
            final(self).aliases == old(self).aliases,
            final(self).profile == old(self).profile,
            final(self).time == old(self).time,
    {
        self.key = new_id.to_owned();
        self.id = make_id("artist", new_id);
    }

    /// Give the artist a fresh unique key.
    pub fn gen_id(&mut self)
        ensures
            final(self).wf(),
            final(self).key@.len() == 8,
            final(self).foreign_key == old(self).foreign_key,
            final(self).name == old(self).name,
            final(self).aliases == old(self).aliases,
            final(self).profile == old(self).profile,
            final(self).time == old(self).time,
    {
        let key = fresh_key();
        self.id = make_id("artist", key.as_str());
        self.key = key;
    }

    /// Set the artist name; names are kept trimmed and lower-cased, the
    /// same normalization a field search applies.
    pub fn name(&mut self, name: &str)
        ensures
            final(self).name@ == spec_normalize(name@),
            final(self).id == old(self).id,
            final(self).key == old(self).key,
            final(self).foreign_key == old(self).foreign_key,
            final(self).aliases == old(self).aliases,
            final(self).profile == old(self).profile,
            final(self).time == old(self).time,
    {
        self.name = normalize(name);
    }

    pub fn get_time_created(&self) -> (r: i64)
        ensures
            r == self.time.spec_created(),
    {
        self.time.get_created()
    }

    pub fn get_time_updated(&self) -> (r: i64)
        ensures
            r == self.time.spec_updated(),
    {
        self.time.get_updated()
    }

    /// Refresh the update instant; creation is untouched.
    pub fn update_time(&mut self)
        ensures
            final(self).time.spec_created() == old(self).time.spec_created(),
            final(self).id == old(self).id,
            final(self).key == old(self).key,
            final(self).foreign_key == old(self).foreign_key,
            final(self).name == old(self).name,
            final(self).aliases == old(self).aliases,
            final(self).profile == old(self).profile,
    {
        self.time.update();
    }
}

impl DocDetails for Artist {
    open spec fn spec_collection_name() -> Seq<char> {
        "artist"@
    }

    open spec fn key_spec(&self) -> Seq<char> {
        self.key@
    }

    open spec fn id_spec(&self) -> Seq<char> {
        self.id@
    }

    fn collection_name() -> (r: &'static str) {
        "artist"
    }

    fn key(&self) -> (r: String) {
        self.key.clone()
    }

    fn id(&self) -> (r: String) {
        self.id.clone()
    }
}

impl ReqModelTraits for Artist {
    open spec fn wf(&self) -> bool {
        self.id@ == spec_id("artist"@, self.key@)
    }

    open spec fn to_doc_spec(&self) -> AnyDoc {
        AnyDoc::Artist(*self)
    }

    open spec fn of_doc_spec(d: AnyDoc) -> Option<Artist> {
        match d {
            AnyDoc::Artist(a) => Some(a),
            _ => None,
        }
    }

    fn into_doc(self) -> (r: AnyDoc) {
        AnyDoc::Artist(self)
    }

    fn from_doc(d: AnyDoc) -> (r: Option<Artist>) {
        match d {
            AnyDoc::Artist(a) => Some(a),
            _ => None,
        }
    }

    proof fn lemma_roundtrip(&self) {
    }

    proof fn lemma_of_doc(d: AnyDoc) {
        lemma_collections_wf();
    }
}

impl BoxedDoc for Artist {}

impl Get<MemoryDb> for Artist {
    /// All stored documents of this type, in storage order.
    fn get_all(engine: &MemoryDb) -> (r: Result<Vec<Artist>, DbError>)
        ensures
            r matches Ok(v) && ({
                let full = spec_collection_docs(engine.docs(), Artist::spec_collection_name());
                &&& v@.len() == full.len()
                &&& forall|k: int|
                    0 <= k < v@.len() ==> doc_eq((#[trigger] v@[k]).to_doc_spec(), full[k])
            }),
    {
        engine.get_all::<Artist>()
    }

    /// One stored document of this type, by id.
    fn get(id: &str, engine: &MemoryDb) -> (r: Result<Artist, DbError>)
        ensures
            match spec_find_id(engine.docs(), id@) {
                Some(d) => {
                    &&& doc_collection(d) == Artist::spec_collection_name() ==> (r matches Ok(x)
                        && doc_eq(x.to_doc_spec(), d))
                    &&& doc_collection(d) != Artist::spec_collection_name() ==> (r matches Err(e)
                        && e is ItemNotFound)
                },
                None => r matches Err(e) && e is ItemNotFound,
            },
    {
        engine.get::<Artist>(id)
    }

    /// The first stored document of this type whose field equals the
    /// trimmed, lower-cased value.
    fn find(field: &str, value: &str, engine: &MemoryDb) -> (r: Result<Artist, DbError>)
        ensures
            match spec_find_field(
                engine.docs(),
                Artist::spec_collection_name(),
                field@,
                spec_normalize(value@),
            ) {
                Some(d) => r matches Ok(x) && doc_eq(x.to_doc_spec(), d),
                None => r matches Err(e) && e is ItemNotFound,
            },
    {
        engine.find::<Artist>(field, value)
    }
}

} // verus!
