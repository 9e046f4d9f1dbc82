//! Document types stored through the access layer, the capability traits
//! every storable type satisfies, and the closed union the engine keeps
//! in place of runtime type erasure.

use vstd::prelude::*;
use vstd::string::StringExecFns;
use crate::models::album::Album;
use crate::models::artist::Artist;
use crate::models::edge::Edge;
use crate::models::inventory::Inventory;
use crate::models::variant::Variant;
use crate::text::str_eq;

pub mod album;
pub mod artist;
pub mod edge;
pub mod fake;
pub mod inventory;
pub mod variant;

verus! {

/// A lowercase hexadecimal digit, the alphabet of generated keys.
pub open spec fn is_lower_hex(c: char) -> bool {
    48 <= c as int <= 57 || 97 <= c as int <= 102
}

/// Relies on uuid's `Uuid::new_v4` and its hyphenated `Display` form:
/// 36 characters of lowercase hexadecimal digits and hyphens, with the
/// first hyphen at position eight, so the first eight characters are hex
/// digits. Nothing more is promised of a random identifier.
#[verifier::external_body]
pub(crate) fn fresh_key() -> (r: String)
    ensures
        r@.len() == 8,
        forall|i: int| 0 <= i < r@.len() ==> is_lower_hex(#[trigger] r@[i]),
{
    uuid::Uuid::new_v4().to_string()[0..8].to_string()
}

/// The id a document derives from its collection and key.
pub open spec fn spec_id(collection: Seq<char>, key: Seq<char>) -> Seq<char> {
    collection + "/"@ + key
}

/// Derive a document id from a collection name and a key.
pub fn make_id(collection: &str, key: &str) -> (r: String)
    ensures
        r@ == spec_id(collection@, key@),
{
    let r = collection.to_owned().concat("/").concat(key);
    proof {
        assert(r@ =~= spec_id(collection@, key@));
    }
    r
}

/// A sequence free of the id separator.
pub open spec fn no_slash(s: Seq<char>) -> bool {
    forall|i: int| 0 <= i < s.len() ==> s[i] != '/'
}

/// An id determines its collection and key: with slash-free collection
/// names, equal ids mean equal parts.
pub proof fn lemma_id_injective(c1: Seq<char>, k1: Seq<char>, c2: Seq<char>, k2: Seq<char>)
    requires
        no_slash(c1),
        no_slash(c2),
        spec_id(c1, k1) == spec_id(c2, k2),
    ensures
        c1 == c2,
        k1 == k2,
{
    reveal_strlit("/");
    let sl = "/"@;
    assert(sl.len() == 1);
    let s1 = spec_id(c1, k1);
    let s2 = spec_id(c2, k2);
    assert(s1.len() == c1.len() + 1 + k1.len());
    assert(s2.len() == c2.len() + 1 + k2.len());
    assert(s1[c1.len() as int] == sl[0]);
    assert(s2[c2.len() as int] == sl[0]);
    if c1.len() < c2.len() {
        assert(s2[c1.len() as int] == (c2 + sl)[c1.len() as int]);
        assert((c2 + sl)[c1.len() as int] == c2[c1.len() as int]);
        assert(s1[c1.len() as int] == s2[c1.len() as int]);
        assert(c2[c1.len() as int] == '/');
        assert(false);
    }
    if c2.len() < c1.len() {
        assert(s1[c2.len() as int] == (c1 + sl)[c2.len() as int]);
        assert((c1 + sl)[c2.len() as int] == c1[c2.len() as int]);
        assert(c1[c2.len() as int] == '/');
        assert(false);
    }
    assert(c1.len() == c2.len());
    assert forall|i: int| 0 <= i < c1.len() implies c1[i] == c2[i] by {
        assert(s1[i] == (c1 + sl)[i]);
        assert((c1 + sl)[i] == c1[i]);
        assert(s2[i] == (c2 + sl)[i]);
        assert((c2 + sl)[i] == c2[i]);
    }
    assert(c1 =~= c2);
    assert(k1.len() == k2.len());
    assert forall|i: int| 0 <= i < k1.len() implies k1[i] == k2[i] by {
        assert(s1[c1.len() + 1 + i] == k1[i]);
        assert(s2[c2.len() + 1 + i] == k2[i]);
    }
    assert(k1 =~= k2);
}

/// The position of the first occurrence of a character, or -1.
pub open spec fn spec_char_index(s: Seq<char>, c: char) -> int
    decreases s.len(),
{
    if s.len() == 0 {
        -1
    } else if s[0] == c {
        0
    } else {
        let r = spec_char_index(s.drop_first(), c);
        if r == -1 {
            -1
        } else {
            r + 1
        }
    }
}

/// What the first occurrence means: a valid position holds the
/// character and nothing before it does; -1 means it does not occur.
pub proof fn lemma_char_index(s: Seq<char>, c: char)
    ensures
        spec_char_index(s, c) == -1 ==> forall|j: int| 0 <= j < s.len() ==> s[j] != c,
        spec_char_index(s, c) != -1 ==> {
            let i = spec_char_index(s, c);
            &&& 0 <= i < s.len()
            &&& s[i] == c
            &&& forall|j: int| 0 <= j < i ==> s[j] != c
        },
    decreases s.len(),
{
    if s.len() > 0 && s[0] != c {
        let rest = s.drop_first();
        lemma_char_index(rest, c);
        if spec_char_index(rest, c) == -1 {
            assert forall|j: int| 0 <= j < s.len() implies s[j] != c by {
                if j > 0 {
                    assert(rest[j - 1] == s[j]);
                }
            }
        } else {
            let i = spec_char_index(rest, c);
            assert(s[i + 1] == rest[i]);
            assert forall|j: int| 0 <= j < i + 1 implies s[j] != c by {
                if j > 0 {
                    assert(rest[j - 1] == s[j]);
                }
            }
        }
    }
}

/// An id split at its first separator into collection and key, if a
/// separator occurs at all.
pub open spec fn spec_parse_id(s: Seq<char>) -> Option<(Seq<char>, Seq<char>)> {
    let i = spec_char_index(s, '/');
    if i < 0 {
        None
    } else {
        Some((s.take(i), s.skip(i + 1)))
    }
}

/// Split an id into collection and key at the first separator;
/// `None` when the id holds none.
pub fn parse_id(id: &str) -> (r: Option<(String, String)>)
    ensures
        match (r, spec_parse_id(id@)) {
            (Some(p), Some(q)) => p.0@ == q.0 && p.1@ == q.1,
            (None, None) => true,
            _ => false,
        },
{
    let n = id.unicode_len();
    let mut i: usize = 0;
    let mut found = false;
    while i < n && !found
        invariant
            n == id@.len(),
            i <= n,
            !found ==> forall|j: int| 0 <= j < i ==> id@[j] != '/',
            found ==> i < n && id@[i as int] == '/' && (forall|j: int|
                0 <= j < i ==> id@[j] != '/'),
        decreases n - i + (if found { 0int } else { 1int }),
    {
        if id.get_char(i) == '/' {
            found = true;
        } else {
            i += 1;
        }
    }
    proof {
        lemma_char_index(id@, '/');
    }
    if !found {
        proof {
            if spec_char_index(id@, '/') != -1 {
                assert(id@[spec_char_index(id@, '/')] == '/');
            }
        }
        return None;
    }
    proof {
        let ci = spec_char_index(id@, '/');
        if ci == -1 {
            assert(id@[i as int] != '/');
        }
        if ci < i {
            assert(id@[ci] != '/');
        }
        if ci > i {
            assert(id@[i as int] != '/');
        }
        assert(ci == i);
    }
    let collection = id.substring_char(0, i).to_owned();
    let key = id.substring_char(i + 1, n).to_owned();
    proof {
        assert(collection@ =~= id@.take(i as int));
        assert(key@ =~= id@.skip(i + 1));
    }
    Some((collection, key))
}

/// Parsing inverts id derivation: the id built from a slash-free
/// collection and a key splits back into the two.
pub proof fn lemma_parse_of_id(collection: Seq<char>, key: Seq<char>)
    requires
        no_slash(collection),
    ensures
        spec_parse_id(spec_id(collection, key)) == Some((collection, key)),
    decreases collection.len(),
{
    reveal_strlit("/");
    let s = spec_id(collection, key);
    assert(s.len() == collection.len() + 1 + key.len());
    if collection.len() == 0 {
        assert(s[0] == '/');
        assert(spec_char_index(s, '/') == 0);
        assert(s.take(0) =~= collection);
        assert(s.skip(1) =~= key);
    } else {
        assert(s[0] == (collection + "/"@)[0]);
        assert(s[0] == collection[0]);
        assert(s[0] != '/');
        let c2 = collection.drop_first();
        lemma_parse_of_id(c2, key);
        let s2 = spec_id(c2, key);
        assert(s.drop_first() =~= s2);
        assert(spec_char_index(s2, '/') == c2.len()) by {
            lemma_char_index(s2, '/');
            if spec_char_index(s2, '/') < 0 {
                assert(s2[c2.len() as int] == ("/"@)[0]);
            } else {
                assert(spec_parse_id(s2) == Some((c2, key)));
                let i = spec_char_index(s2, '/');
                if i < c2.len() {
                    assert(s2.take(i) =~= c2.take(i));
                    assert(s2.take(i).len() == c2.len());
                    assert(false);
                }
                if i > c2.len() {
                    assert(s2[c2.len() as int] == ("/"@)[0]);
                    assert(false);
                }
            }
        }
        assert(spec_char_index(s, '/') == collection.len());
        let i = collection.len() as int;
        assert(s.take(i) =~= collection);
        assert(s.skip(i + 1) =~= key);
    }
}

/// The identity every storable type exposes: a per-type collection name,
/// a per-document key, and the id derived from the two.
pub trait DocDetails: Sized {
    /// The collection the type is stored in.
    spec fn spec_collection_name() -> Seq<char>;

    /// The key of this document.
    spec fn key_spec(&self) -> Seq<char>;

    /// The id of this document.
    spec fn id_spec(&self) -> Seq<char>;

    fn collection_name() -> (r: &'static str)
        ensures
            r@ == Self::spec_collection_name(),
    ;

    fn key(&self) -> (r: String)
        ensures
            r@ == self.key_spec(),
    ;

    fn id(&self) -> (r: String)
        ensures
            r@ == self.id_spec(),
    ;
}

/// Marker for document types whose stored form the engine may hand back
/// inside an insert result.
pub trait BoxedDoc {}

/// The closed union of storable document types: the engine's wire form.
/// A tagged sum in place of a boxed trait object, so the stored variant
/// is always known.
#[derive(Debug)]
pub enum AnyDoc {
    Album(Album),
    Artist(Artist),
    Inventory(Inventory),
    Variant(Variant),
    Edge(Edge),
}

/// The collection a stored document belongs to.
pub open spec fn doc_collection(d: AnyDoc) -> Seq<char> {
    match d {
        AnyDoc::Album(_) => "album"@,
        AnyDoc::Artist(_) => "artist"@,
        AnyDoc::Inventory(_) => "inventory"@,
        AnyDoc::Variant(_) => "variant"@,
        AnyDoc::Edge(_) => "generic_edge"@,
    }
}

/// The key of a stored document.
pub open spec fn doc_key(d: AnyDoc) -> Seq<char> {
    match d {
        AnyDoc::Album(a) => a.key@,
        AnyDoc::Artist(a) => a.key@,
        AnyDoc::Inventory(a) => a.key@,
        AnyDoc::Variant(a) => a.key@,
        AnyDoc::Edge(e) => match e._key {
            Some(k) => k@,
            None => "NULL"@,
        },
    }
}

/// The id of a stored document.
pub open spec fn doc_id(d: AnyDoc) -> Seq<char> {
    match d {
        AnyDoc::Album(a) => a.id@,
        AnyDoc::Artist(a) => a.id@,
        AnyDoc::Inventory(a) => a.id@,
        AnyDoc::Variant(a) => a.id@,
        AnyDoc::Edge(e) => match e._id {
            Some(i) => i@,
            None => "NULL"@,
        },
    }
}

/// A well-formed stored document: its id is its collection name, the
/// separator, then its key.
pub open spec fn wf_doc(d: AnyDoc) -> bool {
    doc_id(d) == spec_id(doc_collection(d), doc_key(d))
}

/// The value of a named wire field of a stored document, where the field
/// holds a string.
pub open spec fn doc_field(d: AnyDoc, f: Seq<char>) -> Option<Seq<char>> {
    if f == "_id"@ {
        Some(doc_id(d))
    } else if f == "_key"@ {
        Some(doc_key(d))
    } else {
        match d {
            AnyDoc::Album(a) => if f == "name"@ {
                Some(a.name@)
            } else if f == "description"@ {
                Some(a.description@)
            } else if f == "barcode"@ {
                Some(a.barcode@)
            } else if f == "cat_no"@ {
                Some(a.cat_no@)
            } else {
                None
            },
            AnyDoc::Artist(a) => if f == "name"@ {
                Some(a.name@)
            } else if f == "foreign_key"@ {
                Some(a.foreign_key@)
            } else if f == "profile"@ {
                Some(a.profile@)
            } else {
                None
            },
            AnyDoc::Inventory(_) => None,
            AnyDoc::Variant(a) => if f == "_from"@ {
                Some(a._from@)
            } else if f == "_to"@ {
                Some(a._to@)
            } else if f == "details"@ {
                Some(a.details@)
            } else {
                None
            },
            AnyDoc::Edge(e) => if f == "_from"@ {
                Some(e._from@)
            } else if f == "_to"@ {
                Some(e._to@)
            } else if f == "edge_name"@ {
                Some(e.edge_name@)
            } else {
                None
            },
        }
    }
}

/// The view of an optional owned string.
pub open spec fn option_view(o: Option<String>) -> Option<Seq<char>> {
    match o {
        Some(s) => Some(s@),
        None => None,
    }
}

/// Two wire documents that agree on every stored field. Documents are
/// compared by content: this is the equality the layer's promises about
/// returned copies are stated in.
pub open spec fn doc_eq(a: AnyDoc, b: AnyDoc) -> bool {
    match (a, b) {
        (AnyDoc::Album(x), AnyDoc::Album(y)) => {
            &&& x.id@ == y.id@
            &&& x.key@ == y.key@
            &&& x.barcode@ == y.barcode@
            &&& x.cat_no@ == y.cat_no@
            &&& x.name@ == y.name@
            &&& x.description@ == y.description@
            &&& x.time == y.time
        },
        (AnyDoc::Artist(x), AnyDoc::Artist(y)) => {
            &&& x.id@ == y.id@
            &&& x.key@ == y.key@
            &&& x.foreign_key@ == y.foreign_key@
            &&& x.name@ == y.name@
            &&& x.aliases.deep_view() == y.aliases.deep_view()
            &&& x.profile@ == y.profile@
            &&& x.time == y.time
        },
        (AnyDoc::Inventory(x), AnyDoc::Inventory(y)) => {
            &&& x.id@ == y.id@
            &&& x.key@ == y.key@
            &&& x.count == y.count
        },
        (AnyDoc::Variant(x), AnyDoc::Variant(y)) => {
            &&& x.id@ == y.id@
            &&& x.key@ == y.key@
            &&& x._from@ == y._from@
            &&& x._to@ == y._to@
            &&& x.details@ == y.details@
            &&& x.medium == y.medium
            &&& x.quality == y.quality
            &&& x.edition == y.edition
        },
        (AnyDoc::Edge(x), AnyDoc::Edge(y)) => {
            &&& x.edge_name@ == y.edge_name@
            &&& option_view(x._id) == option_view(y._id)
            &&& option_view(x._key) == option_view(y._key)
            &&& x._from@ == y._from@
            &&& x._to@ == y._to@
        },
        _ => false,
    }
}

/// Document equality is reflexive.
pub proof fn lemma_doc_eq_refl(a: AnyDoc)
    ensures
        doc_eq(a, a),
{
}

/// Document equality is symmetric.
pub proof fn lemma_doc_eq_sym(a: AnyDoc, b: AnyDoc)
    requires
        doc_eq(a, b),
    ensures
        doc_eq(b, a),
{
}

/// Document equality is transitive.
pub proof fn lemma_doc_eq_trans(a: AnyDoc, b: AnyDoc, c: AnyDoc)
    requires
        doc_eq(a, b),
        doc_eq(b, c),
    ensures
        doc_eq(a, c),
{
}

/// Equal documents agree on identity, well-formedness and every field.
pub proof fn lemma_doc_eq_parts(a: AnyDoc, b: AnyDoc)
    requires
        doc_eq(a, b),
    ensures
        doc_collection(a) == doc_collection(b),
        doc_key(a) == doc_key(b),
        doc_id(a) == doc_id(b),
        wf_doc(a) <==> wf_doc(b),
        forall|f: Seq<char>| #[trigger] doc_field(a, f) == doc_field(b, f),
{
}

impl Clone for AnyDoc {
    fn clone(&self) -> (r: Self)
        ensures
            doc_eq(r, *self),
            doc_collection(r) == doc_collection(*self),
            doc_key(r) == doc_key(*self),
            doc_id(r) == doc_id(*self),
            wf_doc(r) <==> wf_doc(*self),
    {
        match self {
            AnyDoc::Album(a) => AnyDoc::Album(a.clone()),
            AnyDoc::Artist(a) => AnyDoc::Artist(a.clone()),
            AnyDoc::Inventory(a) => AnyDoc::Inventory(a.clone()),
            AnyDoc::Variant(a) => AnyDoc::Variant(a.clone()),
            AnyDoc::Edge(a) => AnyDoc::Edge(a.clone()),
        }
    }
}

impl AnyDoc {
    /// The collection this document belongs to.
    pub fn collection_of(&self) -> (r: &'static str)
        ensures
            r@ == doc_collection(*self),
    {
        match self {
            AnyDoc::Album(_) => "album",
            AnyDoc::Artist(_) => "artist",
            AnyDoc::Inventory(_) => "inventory",
            AnyDoc::Variant(_) => "variant",
            AnyDoc::Edge(_) => "generic_edge",
        }
    }

    /// The key of this document.
    pub fn key_of(&self) -> (r: String)
        ensures
            r@ == doc_key(*self),
    {
        match self {
            AnyDoc::Album(a) => a.key.clone(),
            AnyDoc::Artist(a) => a.key.clone(),
            AnyDoc::Inventory(a) => a.key.clone(),
            AnyDoc::Variant(a) => a.key.clone(),
            AnyDoc::Edge(e) => match &e._key {
                Some(k) => k.clone(),
                None => "NULL".to_owned(),
            },
        }
    }

    /// The id of this document.
    pub fn id_of(&self) -> (r: String)
        ensures
            r@ == doc_id(*self),
    {
        match self {
            AnyDoc::Album(a) => a.id.clone(),
            AnyDoc::Artist(a) => a.id.clone(),
            AnyDoc::Inventory(a) => a.id.clone(),
            AnyDoc::Variant(a) => a.id.clone(),
            AnyDoc::Edge(e) => match &e._id {
                Some(i) => i.clone(),
                None => "NULL".to_owned(),
            },
        }
    }

    /// The value of a named string field, if the document carries it.
    pub fn field_of(&self, f: &str) -> (r: Option<String>)
        ensures
            option_view(r) == doc_field(*self, f@),
    {
        if str_eq(f, "_id") {
            Some(self.id_of())
        } else if str_eq(f, "_key") {
            Some(self.key_of())
        } else {
            match self {
                AnyDoc::Album(a) => if str_eq(f, "name") {
                    Some(a.name.clone())
                } else if str_eq(f, "description") {
                    Some(a.description.clone())
                } else if str_eq(f, "barcode") {
                    Some(a.barcode.clone())
                } else if str_eq(f, "cat_no") {
                    Some(a.cat_no.clone())
                } else {
                    None
                },
                AnyDoc::Artist(a) => if str_eq(f, "name") {
                    Some(a.name.clone())
                } else if str_eq(f, "foreign_key") {
                    Some(a.foreign_key.clone())
                } else if str_eq(f, "profile") {
                    Some(a.profile.clone())
                } else {
                    None
                },
                AnyDoc::Inventory(_) => None,
                AnyDoc::Variant(a) => if str_eq(f, "_from") {
                    Some(a._from.clone())
                } else if str_eq(f, "_to") {
                    Some(a._to.clone())
                } else if str_eq(f, "details") {
                    Some(a.details.clone())
                } else {
                    None
                },
                AnyDoc::Edge(e) => if str_eq(f, "_from") {
                    Some(e._from.clone())
                } else if str_eq(f, "_to") {
                    Some(e._to.clone())
                } else if str_eq(f, "edge_name") {
                    Some(e.edge_name.clone())
                } else {
                    None
                },
            }
        }
    }
}

/// The collection names of the stored variants are pairwise distinct and
/// free of the id separator.
pub proof fn lemma_collections_wf()
    ensures
        no_slash("album"@),
        no_slash("artist"@),
        no_slash("inventory"@),
        no_slash("variant"@),
        no_slash("generic_edge"@),
        "album"@ != "artist"@,
        "album"@ != "inventory"@,
        "album"@ != "variant"@,
        "album"@ != "generic_edge"@,
        "artist"@ != "inventory"@,
        "artist"@ != "variant"@,
        "artist"@ != "generic_edge"@,
        "inventory"@ != "variant"@,
        "inventory"@ != "generic_edge"@,
        "variant"@ != "generic_edge"@,
{
    reveal_strlit("album");
    reveal_strlit("artist");
    reveal_strlit("inventory");
    reveal_strlit("variant");
    reveal_strlit("generic_edge");
    assert("album"@.len() == 5);
    assert("artist"@.len() == 6);
    assert("inventory"@.len() == 9);
    assert("variant"@.len() == 7);
    assert("generic_edge"@.len() == 12);
}

/// What a well-formed document's collection tells of its id: two
/// well-formed documents with the same id share collection and key.
pub proof fn lemma_same_id_same_place(d1: AnyDoc, d2: AnyDoc)
    requires
        wf_doc(d1),
        wf_doc(d2),
        doc_id(d1) == doc_id(d2),
    ensures
        doc_collection(d1) == doc_collection(d2),
        doc_key(d1) == doc_key(d2),
{
    lemma_collections_wf();
    lemma_id_injective(doc_collection(d1), doc_key(d1), doc_collection(d2), doc_key(d2));
}

/// The full capability set a storable type satisfies: identity, value
/// copies, and conversion to and from the engine's wire form.
pub trait ReqModelTraits: DocDetails + Clone {
    /// The document invariant: the id is derived from collection and key.
    spec fn wf(&self) -> bool;

    /// The wire form of this document.
    spec fn to_doc_spec(&self) -> AnyDoc;

    /// The typed reading of a wire document, if it is of this type.
    spec fn of_doc_spec(d: AnyDoc) -> Option<Self>;

    fn into_doc(self) -> (r: AnyDoc)
        ensures
            r == self.to_doc_spec(),
            doc_collection(r) == Self::spec_collection_name(),
            doc_key(r) == self.key_spec(),
            doc_id(r) == self.id_spec(),
            self.wf() ==> wf_doc(r),
    ;

    fn from_doc(d: AnyDoc) -> (r: Option<Self>)
        ensures
            r == Self::of_doc_spec(d),
    ;

    /// Serialization round trip: reading back the wire form of a document
    /// yields the document.
    proof fn lemma_roundtrip(&self)
        ensures
            Self::of_doc_spec(self.to_doc_spec()) == Some(*self),
    ;

    /// A wire document reads back as this type exactly when it lives in
    /// this type's collection; the reading inverts the wire form and
    /// agrees with it on identity and well-formedness.
    proof fn lemma_of_doc(d: AnyDoc)
        ensures
            Self::of_doc_spec(d) is Some <==> doc_collection(d)
                == Self::spec_collection_name(),
            Self::of_doc_spec(d) matches Some(x) ==> {
                &&& x.to_doc_spec() == d
                &&& doc_key(d) == x.key_spec()
                &&& doc_id(d) == x.id_spec()
                &&& x.wf() ==> wf_doc(d)
            },
    ;
}

/// Clone a vector of strings, keeping the view.
pub fn clone_string_vec(v: &Vec<String>) -> (r: Vec<String>)
    ensures
        r@ == v@,
{
    let mut r: Vec<String> = Vec::new();
    let mut i: usize = 0;
    while i < v.len()
        invariant
            i <= v.len(),
            r@ =~= v@.subrange(0, i as int),
        decreases v.len() - i,
    {
        r.push(v[i].clone());
        i += 1;
    }
    proof {
        assert(r@ =~= v@);
    }
    r
}

} // verus!
