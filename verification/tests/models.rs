//! Document models: identity derivation, normalizing setters, id
//! parsing, timestamps, and the connection builder's validation.

use discuits_api::engine::db::aql::{aql_filter, aql_get_all};
use discuits_api::engine::db::{AuthType, DbBuilder};
use discuits_api::engine::DbError;
use discuits_api::io::write::EngineWrite;
use discuits_api::models::album::Album;
use discuits_api::models::artist::Artist;
use discuits_api::models::fake::Fake;
use discuits_api::models::inventory::Inventory;
use discuits_api::models::variant::{Edition, Medium, Quality, Variant};
use discuits_api::models::{parse_id, DocDetails};
use discuits_api::text::{normalize, str_eq, u64_to_dec};
use discuits_api::time::TimeStamp;

#[test]
fn album_identity_derivation() {
    let album = Album::new();
    assert_eq!(album.key.len(), 8);
    assert_eq!(album.id, format!("album/{}", album.key));
    assert_eq!(album.id(), album.id);
    assert_eq!(Album::collection_name(), "album");
}

#[test]
fn album_change_and_gen_id() {
    let mut album = Album::new();
    album.change_id("custom42");
    assert_eq!(album.id, "album/custom42");
    assert_eq!(album.key(), "custom42");

    album.gen_id();
    assert_eq!(album.key.len(), 8);
    assert_eq!(album.id, format!("album/{}", album.key));
}

#[test]
fn album_name_is_normalized() {
    let mut album = Album::new();
    album.name("  MiXeD Case  ");
    assert_eq!(album.name, "mixed case");
    album.description("  Kept Verbatim  ");
    assert_eq!(album.description, "  Kept Verbatim  ");
}

#[test]
fn artist_identity_and_name() {
    let mut artist = Artist::new();
    assert_eq!(artist.id, format!("artist/{}", artist.key));
    artist.name("  The BAND  ");
    assert_eq!(artist.name, "the band");
    artist.change_id("a1");
    assert_eq!(artist.id(), "artist/a1");
}

#[test]
fn inventory_amount() {
    let mut inv = Inventory::new();
    assert_eq!(inv.count, 0);
    inv.amount(7);
    assert_eq!(inv.count, 7);
    assert_eq!(inv.id, format!("inventory/{}", inv.key));
}

#[test]
fn variant_setters() {
    let mut v = Variant::new();
    assert_eq!(v.id, format!("variant/{}", v.key));
    v.vertex("album/a");
    v.dest("inventory/i");
    v.details("first pressing");
    v.medium(Medium::CD);
    v.quality(Quality::NM);
    v.edition(Edition::Limited);
    assert_eq!(v._from, "album/a");
    assert_eq!(v._to, "inventory/i");
    assert_eq!(v.details, "first pressing");
    assert_eq!(v.medium, Medium::CD);
    assert_eq!(v.quality, Quality::NM);
    assert_eq!(v.edition, Edition::Limited);
}

#[test]
fn variant_inventory_association() {
    let album = Album::new();
    let mut v = Variant::new();
    let inv = v.create_inventory_variant(&album, 3).unwrap();
    assert_eq!(inv.count, 3);
    assert_eq!(v._from, album.id());
    assert_eq!(v._to, inv.id());
}

#[test]
fn test_associate_variant() {
    let mut db = discuits_api::engine::db::memory::MemoryDb::new();
    let mut v = Variant::default();
    v._from = "album/7782da0a".to_string();
    v._to = "inventory/1158719".to_string();
    v.details = "Test Variant".to_string();
    println!("{:?}", db.insert(v));
}

#[test]
fn fake_is_blank() {
    let f = Fake::new();
    assert_eq!(f.id, "");
    assert_eq!(f.key, "");
}

#[test]
fn timestamp_instants() {
    let t = TimeStamp::new(1234);
    assert_eq!(t.get_created(), 1234);
    assert_eq!(t.get_updated(), 1234);

    let d = TimeStamp::default();
    assert_eq!(d.get_created(), d.get_updated());

    let mut u = TimeStamp::new(7);
    u.update();
    assert_eq!(u.get_created(), 7);
}

#[test]
fn parse_id_splits_at_first_separator() {
    assert_eq!(
        parse_id("album/abc123"),
        Some(("album".to_string(), "abc123".to_string()))
    );
    assert_eq!(
        parse_id("a/b/c"),
        Some(("a".to_string(), "b/c".to_string()))
    );
    assert_eq!(parse_id("noslash"), None);
    assert_eq!(parse_id(""), None);
}

#[test]
fn normalize_trims_and_lowercases() {
    assert_eq!(normalize("  ABC def  "), "abc def");
    assert_eq!(normalize("\tOwl House\n"), "owl house");
    assert_eq!(normalize(""), "");
    // only ASCII letters are lowered
    assert_eq!(normalize("ÉCLAIR"), "Éclair");
}

#[test]
fn string_equality_by_content() {
    assert!(str_eq("abc", &"abc".to_string()));
    assert!(!str_eq("abc", "abd"));
}

#[test]
fn decimal_rendering() {
    assert_eq!(u64_to_dec(0), "0");
    assert_eq!(u64_to_dec(9), "9");
    assert_eq!(u64_to_dec(10), "10");
    assert_eq!(u64_to_dec(1234567890), "1234567890");
}

#[test]
fn builder_requires_host_and_database() {
    let builder = DbBuilder::new();
    assert!(matches!(builder.connect(), Err(DbError::BlankDatabaseName)));

    let mut builder = DbBuilder::new();
    builder.host("");
    builder.db_name("discuits_test");
    assert!(matches!(builder.connect(), Err(DbError::NoHostProvided)));

    let mut builder = DbBuilder::new();
    builder.db_name("discuits_test");
    builder.auth_type(AuthType::Basic {
        user: "discuits_test",
        pass: "",
    });
    let cfg = builder.connect().unwrap();
    assert_eq!(cfg.host, "http://127.0.0.1:8529");
    assert_eq!(cfg.db_name, "discuits_test");
}

#[test]
fn aql_query_values() {
    let q = aql_get_all("album");
    assert_eq!(q.query, "FOR doc IN @@collection RETURN doc");
    assert_eq!(q.binds, vec![("@collection".to_string(), "album".to_string())]);
    assert_eq!(q.batch_size, Some(25));
    assert!(!q.bind_doc);

    let f = aql_filter("name", "owl house", "album");
    assert_eq!(f.binds.len(), 3);
    assert_eq!(f.binds[1], ("v".to_string(), "owl house".to_string()));
}
