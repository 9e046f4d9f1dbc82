//! The parameterized query texts sent to the backend: the canonical
//! query shapes as constants, a plain value describing one query with
//! its bindings, and builders for filter, sort and limit clauses.

use vstd::prelude::*;
use vstd::string::StringExecFns;
use crate::models::DocDetails;
use crate::text::{lower_seq, str_eq, spec_dec, u64_to_dec};

verus! {

pub const GET: &'static str = "RETURN DOCUMENT(CONCAT(@collection, \"/\", @id))";

pub const GET_ALL: &'static str = "FOR doc IN @@collection RETURN doc";

pub const FILTER: &'static str = "FOR doc IN @@collection FILTER doc.@k == @v RETURN doc";

pub const INSERT: &'static str =
    "INSERT @doc INTO @@collection OPTIONS {overwrite: false} RETURN NEW";

pub const UPSERT_EDGE: &'static str =
    "UPSERT( {_from: @doc._from, _to: @doc._to} ) INSERT(@doc) UPDATE({}) in @@collection return NEW";

pub const UPSERT: &'static str =
    "UPSERT( _key: @key ) INSERT(@doc) UPDATE(@doc) in @@collection return NEW";

pub const REMOVE: &'static str = "REMOVE @key IN @@collection RETURN OLD";

/// One parameterized query: the template, its string bindings in order,
/// the page size for batched execution, and whether the transport must
/// additionally bind the serialized document under `doc`.
#[derive(Debug)]
pub struct AqlSpec {
    pub query: &'static str,
    pub binds: Vec<(String, String)>,
    pub batch_size: Option<usize>,
    pub bind_doc: bool,
}

/// The query that lists a whole collection, read out in pages.
pub fn aql_get_all(collection: &str) -> (r: AqlSpec)
    ensures
        r.query@ == GET_ALL@,
        r.binds@.len() == 1,
        r.binds@[0].0@ == "@collection"@,
        r.binds@[0].1@ == collection@,
        r.batch_size == Some(25usize),
        !r.bind_doc,
{
    let mut binds: Vec<(String, String)> = Vec::new();
    binds.push(("@collection".to_owned(), collection.to_owned()));
    AqlSpec { query: GET_ALL, binds, batch_size: Some(25), bind_doc: false }
}

/// The query that fetches one document by collection and key.
pub fn aql_get_single(collection: &str, id: &str) -> (r: AqlSpec)
    ensures
        r.query@ == GET@,
        r.binds@.len() == 2,
        r.binds@[0].0@ == "collection"@,
        r.binds@[0].1@ == collection@,
        r.binds@[1].0@ == "id"@,
        r.binds@[1].1@ == id@,
        r.batch_size is None,
        !r.bind_doc,
{
    let mut binds: Vec<(String, String)> = Vec::new();
    binds.push(("collection".to_owned(), collection.to_owned()));
    binds.push(("id".to_owned(), id.to_owned()));
    AqlSpec { query: GET, binds, batch_size: None, bind_doc: false }
}

/// The query that filters a collection by one field's value.
pub fn aql_filter(k: &str, v: &str, collection: &str) -> (r: AqlSpec)
    ensures
        r.query@ == FILTER@,
        r.binds@.len() == 3,
        r.binds@[0].0@ == "k"@,
        r.binds@[0].1@ == k@,
        r.binds@[1].0@ == "v"@,
        r.binds@[1].1@ == v@,
        r.binds@[2].0@ == "@collection"@,
        r.binds@[2].1@ == collection@,
        r.batch_size is None,
        !r.bind_doc,
{
    let mut binds: Vec<(String, String)> = Vec::new();
    binds.push(("k".to_owned(), k.to_owned()));
    binds.push(("v".to_owned(), v.to_owned()));
    binds.push(("@collection".to_owned(), collection.to_owned()));
    AqlSpec { query: FILTER, binds, batch_size: None, bind_doc: false }
}

/// The upsert-by-key query for a document; the transport binds the
/// serialized document itself.
pub fn aql_upsert<T: DocDetails>(document: &T, collection: &str) -> (r: AqlSpec)
    ensures
        r.query@ == UPSERT@,
        r.binds@.len() == 2,
        r.binds@[0].0@ == "@collection"@,
        r.binds@[0].1@ == collection@,
        r.binds@[1].0@ == "key"@,
        r.binds@[1].1@ == document.key_spec(),
        r.batch_size is None,
        r.bind_doc,
{
    let mut binds: Vec<(String, String)> = Vec::new();
    binds.push(("@collection".to_owned(), collection.to_owned()));
    binds.push(("key".to_owned(), document.key()));
    AqlSpec { query: UPSERT, binds, batch_size: None, bind_doc: true }
}

/// The create-only insert query; the transport binds the serialized
/// document itself.
pub fn insert(collection: &str) -> (r: AqlSpec)
    ensures
        r.query@ == INSERT@,
        r.binds@.len() == 1,
        r.binds@[0].0@ == "@collection"@,
        r.binds@[0].1@ == collection@,
        r.batch_size is None,
        r.bind_doc,
{
    let mut binds: Vec<(String, String)> = Vec::new();
    binds.push(("@collection".to_owned(), collection.to_owned()));
    AqlSpec { query: INSERT, binds, batch_size: None, bind_doc: true }
}

/// The remove-by-key query, returning the old document.
pub fn remove(key: &str, collection: &str) -> (r: AqlSpec)
    ensures
        r.query@ == REMOVE@,
        r.binds@.len() == 2,
        r.binds@[0].0@ == "@collection"@,
        r.binds@[0].1@ == collection@,
        r.binds@[1].0@ == "key"@,
        r.binds@[1].1@ == key@,
        r.batch_size is None,
        !r.bind_doc,
{
    let mut binds: Vec<(String, String)> = Vec::new();
    binds.push(("@collection".to_owned(), collection.to_owned()));
    binds.push(("key".to_owned(), key.to_owned()));
    AqlSpec { query: REMOVE, binds, batch_size: None, bind_doc: false }
}

/// The comparison target of a filter clause: a value that reads as a
/// boolean is written in its lowercase form, anything else verbatim.
pub open spec fn spec_filter_target(tar: Seq<char>) -> Seq<char> {
    if lower_seq(tar) == "true"@ || lower_seq(tar) == "false"@ {
        lower_seq(tar)
    } else {
        tar
    }
}

/// The text of a filter clause.
pub open spec fn spec_filter_clause(ele: Seq<char>, field: Seq<char>, tar: Seq<char>) -> Seq<
    char,
> {
    "FILTER "@ + ele + "."@ + field + " == "@ + spec_filter_target(tar) + "\n"@
}

/// One filter clause of a hand-built query.
pub fn filter_clause(ele: &str, field: &str, tar: &str) -> (r: String)
    ensures
        r@ == spec_filter_clause(ele@, field@, tar@),
{
    let low = tar.to_ascii_lowercase();
    let target: &str = if str_eq(low.as_str(), "true") || str_eq(low.as_str(), "false") {
        low.as_str()
    } else {
        tar
    };
    let r = "FILTER ".to_owned().concat(ele).concat(".").concat(field).concat(" == ").concat(
        target,
    ).concat("\n");
    proof {
        assert(r@ =~= spec_filter_clause(ele@, field@, tar@));
    }
    r
}

/// The comma-separated list `ele.f1, ele.f2, ...` of a sort clause.
pub open spec fn spec_sort_fields(ele: Seq<char>, fields: Seq<Seq<char>>) -> Seq<char>
    decreases fields.len(),
{
    if fields.len() == 0 {
        Seq::empty()
    } else if fields.len() == 1 {
        ele + "."@ + fields[0]
    } else {
        spec_sort_fields(ele, fields.drop_last()) + ", "@ + ele + "."@ + fields.last()
    }
}

/// The text of a sort clause.
pub open spec fn spec_sort_clause(ele: Seq<char>, fields: Seq<Seq<char>>, desc: bool) -> Seq<
    char,
> {
    "SORT "@ + spec_sort_fields(ele, fields) + (if desc {
        " DESC\n"@
    } else {
        " ASC\n"@
    })
}

/// One sort clause of a hand-built query, ascending or descending.
pub fn sort_clause(ele: &str, fields: &Vec<String>, desc: bool) -> (r: String)
    ensures
        r@ == spec_sort_clause(ele@, fields.deep_view(), desc),
{
    let mut list = String::new();
    let mut i: usize = 0;
    while i < fields.len()
        invariant
            i <= fields.len(),
            list@ == spec_sort_fields(ele@, fields.deep_view().take(i as int)),
        decreases fields.len() - i,
    {
        if i > 0 {
            list = list.concat(", ");
        }
        list = list.concat(ele).concat(".").concat(fields[i].as_str());
        proof {
            assert(fields.deep_view().take(i + 1 as int).drop_last() =~= fields.deep_view().take(
                i as int,
            ));
            assert(fields.deep_view().take(i + 1 as int).last() == fields.deep_view()[i as int]);
            assert(list@ =~= spec_sort_fields(ele@, fields.deep_view().take(i + 1 as int)));
        }
        i += 1;
    }
    proof {
        assert(fields.deep_view().take(fields.len() as int) =~= fields.deep_view());
    }
    let r = "SORT ".to_owned().concat(list.as_str()).concat(
        if desc {
            " DESC\n"
        } else {
            " ASC\n"
        },
    );
    proof {
        assert(r@ =~= spec_sort_clause(ele@, fields.deep_view(), desc));
    }
    r
}

/// The text of a limit clause with an offset.
pub open spec fn spec_limit_clause(offset: int, count: int) -> Seq<char> {
    "LIMIT "@ + spec_dec(offset) + ", "@ + spec_dec(count) + "\n"@
}

/// One limit clause of a hand-built query, with an offset.
pub fn limit_clause(offset: u64, count: u64) -> (r: String)
    ensures
        r@ == spec_limit_clause(offset as int, count as int),
{
    let r = "LIMIT ".to_owned().concat(u64_to_dec(offset).as_str()).concat(", ").concat(
        u64_to_dec(count).as_str(),
    ).concat("\n");
    proof {
        assert(r@ =~= spec_limit_clause(offset as int, count as int));
    }
    r
}

/// The text of a limit clause without an offset.
pub open spec fn spec_limit_single(count: int) -> Seq<char> {
    "LIMIT "@ + spec_dec(count) + "\n"@
}

/// One limit clause of a hand-built query.
pub fn limit_single(count: u64) -> (r: String)
    ensures
        r@ == spec_limit_single(count as int),
{
    let r = "LIMIT ".to_owned().concat(u64_to_dec(count).as_str()).concat("\n");
    proof {
        assert(r@ =~= spec_limit_single(count as int));
    }
    r
}

/// The concatenation of already-built clauses.
pub open spec fn spec_cat(parts: Seq<Seq<char>>) -> Seq<char>
    decreases parts.len(),
{
    if parts.len() == 0 {
        Seq::empty()
    } else {
        spec_cat(parts.drop_last()) + parts.last()
    }
}

/// The text of a whole hand-built query: the loop header, the clauses in
/// order, and the return of the element.
pub open spec fn spec_aql_builder(ele: Seq<char>, col: Seq<char>, parts: Seq<Seq<char>>) -> Seq<
    char,
> {
    "FOR "@ + ele + " in "@ + col + "\n"@ + spec_cat(parts) + "RETURN "@ + ele
}

/// Assemble a whole query from an element name, a collection and
/// already-built clauses.
pub fn aql_builder(ele: &str, col: &str, parts: &Vec<String>) -> (r: String)
    ensures
        r@ == spec_aql_builder(ele@, col@, parts.deep_view()),
{
    let mut statement = "FOR ".to_owned().concat(ele).concat(" in ").concat(col).concat("\n");
    let ghost head = statement@;
    let mut i: usize = 0;
    while i < parts.len()
        invariant
            i <= parts.len(),
            statement@ == head + spec_cat(parts.deep_view().take(i as int)),
        decreases parts.len() - i,
    {
        statement = statement.concat(parts[i].as_str());
        proof {
            assert(parts.deep_view().take(i + 1 as int).drop_last() =~= parts.deep_view().take(
                i as int,
            ));
            assert(statement@ =~= head + spec_cat(parts.deep_view().take(i + 1 as int)));
        }
        i += 1;
    }
    let r = statement.concat("RETURN ").concat(ele);
    proof {
        assert(parts.deep_view().take(parts.len() as int) =~= parts.deep_view());
        assert(r@ =~= spec_aql_builder(ele@, col@, parts.deep_view()));
    }
    r
}

} // verus!
