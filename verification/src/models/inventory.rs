//! Inventory documents: how many copies of an item are held.

use vstd::prelude::*;
use crate::models::{
    AnyDoc, BoxedDoc, DocDetails, ReqModelTraits, fresh_key, is_lower_hex,
    lemma_collections_wf, make_id, spec_id,
};

verus! {

/// Inventory data type
#[derive(Debug)]
pub struct Inventory {
    /// Backend id, wire name `_id`
    pub id: String,
    /// Backend key, wire name `_key`
    pub key: String,
    /// Number of copies held
    pub count: u8,
}

impl Clone for Inventory {
    fn clone(&self) -> (r: Self)
        ensures
            r == *self,
    {
        Inventory { id: self.id.clone(), key: self.key.clone(), count: self.count }
    }
}

impl Inventory {
    /// A blank inventory record with a fresh unique key.
    pub fn new() -> (r: Self)
        ensures
            r.wf(),
            r.key@.len() == 8,
            forall|i: int| 0 <= i < r.key@.len() ==> is_lower_hex(#[trigger] r.key@[i]),
            r.count == 0,
    {
        let key = fresh_key();
        let id = make_id("inventory", key.as_str());
        Inventory { id, key, count: 0 }
    }

    /// Set the held count.
    pub fn amount(&mut self, count: u8)
        ensures
            final(self).count == count,
            final(self).id == old(self).id,
            final(self).key == old(self).key,
    {
        self.count = count;
    }
}

impl DocDetails for Inventory {
    open spec fn spec_collection_name() -> Seq<char> {
        "inventory"@
    }

    open spec fn key_spec(&self) -> Seq<char> {
        self.key@
    }

    open spec fn id_spec(&self) -> Seq<char> {
        self.id@
    }

    fn collection_name() -> (r: &'static str) {
        "inventory"
    }

    fn key(&self) -> (r: String) {
        self.key.clone()
    }

    fn id(&self) -> (r: String) {
        self.id.clone()
    }
}

impl ReqModelTraits for Inventory {
    open spec fn wf(&self) -> bool {
        self.id@ == spec_id("inventory"@, self.key@)
    }

    open spec fn to_doc_spec(&self) -> AnyDoc {
        AnyDoc::Inventory(*self)
    }

    open spec fn of_doc_spec(d: AnyDoc) -> Option<Inventory> {
        match d {
            AnyDoc::Inventory(a) => Some(a),
            _ => None,
        }
    }

    fn into_doc(self) -> (r: AnyDoc) {
        AnyDoc::Inventory(self)
    }

    fn from_doc(d: AnyDoc) -> (r: Option<Inventory>) {
        match d {
            AnyDoc::Inventory(a) => Some(a),
            _ => None,
        }
    }

    proof fn lemma_roundtrip(&self) {
    }

    proof fn lemma_of_doc(d: AnyDoc) {
        lemma_collections_wf();
    }
}

impl BoxedDoc for Inventory {}

} // verus!
