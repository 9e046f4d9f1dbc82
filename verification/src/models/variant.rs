//! Variant documents: one concrete pressing of an album, linked as an
//! edge from the album to an inventory record.

use vstd::prelude::*;
use crate::engine::DbError;
use crate::models::album::Album;
use crate::models::inventory::Inventory;
use crate::models::{
    AnyDoc, BoxedDoc, DocDetails, ReqModelTraits, fresh_key, is_lower_hex,
    lemma_collections_wf, make_id, spec_id,
};

verus! {

/// Physical medium of a pressing.
#[derive(Debug, Clone, Copy, PartialEq, Eq, Structural)]
pub enum Medium {
    Vinyl,
    CD,
    Cassette,
}

/// Quality rating, after the common grading scale for used records.
#[derive(Debug, Clone, Copy, PartialEq, Eq, Structural)]
pub enum Quality {
    F,
    G,
    GP,
    VG,
    Vgp,
    NM,
    M,
}

/// Edition of a pressing.
#[derive(Debug, Clone, Copy, PartialEq, Eq, Structural)]
pub enum Edition {
    Standard,
    Limited,
}

/// Variant data type
#[derive(Debug)]
pub struct Variant {
    /// Backend id, wire name `_id`
    pub id: String,
    /// Backend key, wire name `_key`
    pub key: String,
    /// Source vertex of the variant edge
    pub _from: String,
    /// Destination vertex of the variant edge
    pub _to: String,
    /// Free-form details
    pub details: String,
    pub medium: Medium,
    pub quality: Quality,
    pub edition: Edition,
}

impl Clone for Variant {
    fn clone(&self) -> (r: Self)
        ensures
            r == *self,
    {
        Variant {
            id: self.id.clone(),
            key: self.key.clone(),
            _from: self._from.clone(),
            _to: self._to.clone(),
            details: self.details.clone(),
            medium: self.medium,
            quality: self.quality,
            edition: self.edition,
        }
    }
}

impl Default for Variant {
    /// A blank variant with a fresh unique key: vinyl, lowest grade,
    /// standard edition.
    fn default() -> (r: Self)
        ensures
            r.wf(),
            r.key@.len() == 8,
            r._from@.len() == 0,
            r._to@.len() == 0,
            r.details@.len() == 0,
            r.medium == Medium::Vinyl,
            r.quality == Quality::F,
            r.edition == Edition::Standard,
    {
        let key = fresh_key();
        let id = make_id("variant", key.as_str());
        Variant {
            id,
            key,
            _from: String::new(),
            _to: String::new(),
            details: String::new(),
            medium: Medium::Vinyl,
            quality: Quality::F,
            edition: Edition::Standard,
        }
    }
}

impl Variant {
    /// A blank variant with a fresh unique key.
    pub fn new() -> (r: Self)
        ensures
            r.wf(),
            r.key@.len() == 8,
            forall|i: int| 0 <= i < r.key@.len() ==> is_lower_hex(#[trigger] r.key@[i]),
            r._from@.len() == 0,
            r._to@.len() == 0,
            r.details@.len() == 0,
            r.medium == Medium::Vinyl,
            r.quality == Quality::F,
            r.edition == Edition::Standard,
    {
        let key = fresh_key();
        let id = make_id("variant", key.as_str());
        Variant {
            id,
            key,
            _from: String::new(),
            _to: String::new(),
            details: String::new(),
            medium: Medium::Vinyl,
            quality: Quality::F,
            edition: Edition::Standard,
        }
    }

    /// Set the source vertex of the edge.
    pub fn vertex(&mut self, vtx: &str)
        ensures
            final(self)._from@ == vtx@,
            final(self).id == old(self).id,
            final(self).key == old(self).key,
            final(self)._to == old(self)._to,
            final(self).details == old(self).details,
            final(self).medium == old(self).medium,
            final(self).quality == old(self).quality,
            final(self).edition == old(self).edition,
    {
        self._from = vtx.to_owned();
    }

    /// Set the destination vertex of the edge.
    pub fn dest(&mut self, dest: &str)
        ensures
            final(self)._to@ == dest@,
            final(self).id == old(self).id,
            final(self).key == old(self).key,
            final(self)._from == old(self)._from,
            final(self).details == old(self).details,
            final(self).medium == old(self).medium,
            final(self).quality == old(self).quality,
            final(self).edition == old(self).edition,
    {
        self._to = dest.to_owned();
    }

    /// Set the free-form details.
    pub fn details(&mut self, details: &str)
        ensures
            final(self).details@ == details@,
            final(self).id == old(self).id,
            final(self).key == old(self).key,
            final(self)._from == old(self)._from,
            final(self)._to == old(self)._to,
            final(self).medium == old(self).medium,
            final(self).quality == old(self).quality,
            final(self).edition == old(self).edition,
    {
        self.details = details.to_owned();
    }

    /// Set the medium.
    pub fn medium(&mut self, medium: Medium)
        ensures
            final(self).medium == medium,
            final(self).id == old(self).id,
            final(self).key == old(self).key,
            final(self)._from == old(self)._from,
            final(self)._to == old(self)._to,
            final(self).details == old(self).details,
            final(self).quality == old(self).quality,
            final(self).edition == old(self).edition,
    {
        self.medium = medium;
    }

    /// Set the quality grade.
    pub fn quality(&mut self, quality: Quality)
        ensures
            final(self).quality == quality,
            final(self).id == old(self).id,
            final(self).key == old(self).key,
            final(self)._from == old(self)._from,
            final(self)._to == old(self)._to,
            final(self).details == old(self).details,
            final(self).medium == old(self).medium,
            final(self).edition == old(self).edition,
    {
        self.quality = quality;
    }

    /// Set the edition.
    pub fn edition(&mut self, edition: Edition)
        ensures
            final(self).edition == edition,
            final(self).id == old(self).id,
            final(self).key == old(self).key,
            final(self)._from == old(self)._from,
            final(self)._to == old(self)._to,
            final(self).details == old(self).details,
            final(self).medium == old(self).medium,
            final(self).quality == old(self).quality,
    {
        self.edition = edition;
    }

    /// Connect this variant edge to its album vertex and a freshly
    /// generated inventory record holding `count` copies; the inventory
    /// becomes the destination.
    pub fn create_inventory_variant(&mut self, vtx: &Album, count: u8) -> (r: Result<
        Inventory,
        DbError,
    >)
        ensures
            r matches Ok(inv) ==> {
                &&& inv.wf()
                &&& inv.count == count
                &&& final(self)._from@ == vtx.id_spec()
                &&& final(self)._to@ == inv.id_spec()
            },
            r is Ok,
            final(self).id == old(self).id,
            final(self).key == old(self).key,
            final(self).details == old(self).details,
            final(self).medium == old(self).medium,
            final(self).quality == old(self).quality,
            final(self).edition == old(self).edition,
    {
        let mut inventory = Inventory::new();
        inventory.amount(count);
        let vid = vtx.id();
        let iid = inventory.id();
        self.vertex(vid.as_str());
        self.dest(iid.as_str());
        Ok(inventory)
    }
}

impl DocDetails for Variant {
    open spec fn spec_collection_name() -> Seq<char> {
        "variant"@
    }

    open spec fn key_spec(&self) -> Seq<char> {
        self.key@
    }

    open spec fn id_spec(&self) -> Seq<char> {
        self.id@
    }

    fn collection_name() -> (r: &'static str) {
        "variant"
    }

    fn key(&self) -> (r: String) {
        self.key.clone()
    }

    fn id(&self) -> (r: String) {
        self.id.clone()
    }
}

impl ReqModelTraits for Variant {
    open spec fn wf(&self) -> bool {
        self.id@ == spec_id("variant"@, self.key@)
    }

    open spec fn to_doc_spec(&self) -> AnyDoc {
        AnyDoc::Variant(*self)
    }

    open spec fn of_doc_spec(d: AnyDoc) -> Option<Variant> {
        match d {
            AnyDoc::Variant(a) => Some(a),
            _ => None,
        }
    }

    fn into_doc(self) -> (r: AnyDoc) {
        AnyDoc::Variant(self)
    }

    fn from_doc(d: AnyDoc) -> (r: Option<Variant>) {
        match d {
            AnyDoc::Variant(a) => Some(a),
            _ => None,
        }
    }

    proof fn lemma_roundtrip(&self) {
    }

    proof fn lemma_of_doc(d: AnyDoc) {
        lemma_collections_wf();
    }
}

impl BoxedDoc for Variant {}

} // verus!
