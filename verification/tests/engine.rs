//! The engine contract against the in-memory engine: create-only
//! inserts, reads by id and by field, updates, removals, pagination.

use discuits_api::engine::db::memory::{MemoryDb, BATCH_SIZE};
use discuits_api::engine::DbError;
use discuits_api::io::delete::EngineDelete;
use discuits_api::io::read::{EngineGet, Get};
use discuits_api::io::write::EngineWrite;
use discuits_api::models::album::Album;
use discuits_api::models::artist::Artist;
use discuits_api::models::DocDetails;

fn named_album(key: &str, name: &str) -> Album {
    let mut album = Album::new();
    album.change_id(key);
    album.name(name);
    album
}

#[test]
fn test_insert_album_db() {
    let mut db = MemoryDb::new();
    let mut new_album = Album::new();
    new_album.name = "Owl House".to_string();

    let resp = db.insert(new_album);
    assert!(resp.is_ok());
}

#[test]
fn fail_on_overwrite_album_db() {
    let mut db = MemoryDb::new();

    let mut new_album = Album::new();
    new_album.name = "Owl House".to_string();

    db.insert(new_album.clone()).unwrap();
    let resp = db.insert(new_album);
    assert!(resp.is_err());
}

#[test]
fn test_get_all_albums() {
    let mut db = MemoryDb::new();
    db.insert(named_album("a1", "first")).unwrap();
    db.insert(named_album("a2", "second")).unwrap();

    let engine_read_trait = db.get_all::<Album>().unwrap();
    let implicit_get_from_db = Album::get_all(&db).unwrap();

    println!("{:?}", &implicit_get_from_db);
    assert_eq!(engine_read_trait.len(), implicit_get_from_db.len());
}

#[test]
fn test_insert_artist_db() {
    let mut db = MemoryDb::new();
    let mut data = Artist::new();
    data.name = "Disney".to_string();

    let resp = db.insert(data);
    assert!(resp.is_ok());
}

#[test]
fn fail_on_overwrite_artist_db() {
    let mut db = MemoryDb::new();

    let mut data = Artist::new();
    data.name = "Disney".to_string();

    println!("{:?}", db.insert(data.clone()).unwrap().0);
    let resp = db.insert(data);
    assert!(resp.is_err());
}

#[test]
fn test_get_all_artists() {
    let mut db = MemoryDb::new();
    let mut artist = Artist::new();
    artist.name("someone");
    db.insert(artist).unwrap();

    let db_artist = db.get_all::<Artist>().unwrap();
    let artists = Artist::get_all(&db).unwrap();

    println!("{:?}", db_artist.len());
    println!("><><><><>><><>><><><><><>><");
    println!("{:?}", artists.len());
}

#[test]
fn read_multiple_types() {
    let mut db = MemoryDb::new();
    db.insert(named_album("a1", "an album")).unwrap();
    let mut artist = Artist::new();
    artist.name("an artist");
    db.insert(artist).unwrap();

    let boop = db.get_all::<Album>().unwrap();
    let bop = db.get_all::<Artist>().unwrap();
    let art: Vec<Artist> = db.get_all().unwrap();

    println!("{:?}", boop);
    println!("{:?}", bop);
    println!("{:?}", art);
}

// The album scenario end to end: insert succeeds with the derived id, a
// second insert of the same key fails, the case-insensitive search and
// the removal return the stored document, and the id then reads as gone.
#[test]
fn album_round_trip_scenario() {
    let mut db = MemoryDb::new();
    let album = named_album("abc123", "Owl House");

    let (id, _stored) = db.insert(album.clone()).unwrap();
    assert_eq!(id, "album/abc123");

    let second = db.insert(album);
    assert!(matches!(second, Err(DbError::FailedToCreate)));

    let found: Album = db.find::<Album>("name", "owl house").unwrap();
    assert_eq!(found.name, "owl house");
    assert_eq!(found.key, "abc123");

    let removed: Album = db.remove::<Album>("album/abc123").unwrap();
    assert_eq!(removed.key, "abc123");
    assert_eq!(removed.name, "owl house");
    assert_eq!(removed.id, "album/abc123");

    let gone = db.get::<Album>("album/abc123");
    assert!(matches!(gone, Err(DbError::ItemNotFound)));
}

// Idempotent read: what was just inserted is what the id returns.
#[test]
fn insert_then_get_returns_document() {
    let mut db = MemoryDb::new();
    let album = named_album("k900", "Some Record");
    db.insert(album.clone()).unwrap();

    let got: Album = db.get::<Album>(album.id().as_str()).unwrap();
    assert_eq!(got.id, album.id);
    assert_eq!(got.key, album.key);
    assert_eq!(got.name, album.name);
    assert_eq!(got.description, album.description);
}

// Pagination completeness: more documents than one page holds still
// come back complete, in insertion order, without duplicates.
#[test]
fn get_all_reassembles_pages() {
    let mut db = MemoryDb::new();
    let n = 3 * BATCH_SIZE + 2;
    for i in 0..n {
        db.insert(named_album(&format!("k{}", i), &format!("album {}", i)))
            .unwrap();
    }
    let all = db.get_all::<Album>().unwrap();
    assert_eq!(all.len(), n);
    for (i, album) in all.iter().enumerate() {
        assert_eq!(album.key, format!("k{}", i));
    }
}

#[test]
fn get_wrong_type_is_not_found() {
    let mut db = MemoryDb::new();
    let album = named_album("k1", "a record");
    db.insert(album.clone()).unwrap();

    let as_artist = db.get::<Artist>("album/k1");
    assert!(matches!(as_artist, Err(DbError::ItemNotFound)));
}

#[test]
fn find_misses_are_not_found() {
    let mut db = MemoryDb::new();
    db.insert(named_album("k1", "present")).unwrap();
    let miss = db.find::<Album>("name", "absent");
    assert!(matches!(miss, Err(DbError::ItemNotFound)));
}

#[test]
fn find_normalizes_the_needle() {
    let mut db = MemoryDb::new();
    db.insert(named_album("k1", "Owl House")).unwrap();
    // the stored name was normalized by the setter; the search value is
    // trimmed and lower-cased the same way
    let found: Album = db.find::<Album>("name", "  OWL House  ").unwrap();
    assert_eq!(found.key, "k1");
}

#[test]
fn update_replaces_matching_key() {
    let mut db = MemoryDb::new();
    db.insert(named_album("k1", "before")).unwrap();

    let replacement = named_album("k1", "after");
    db.update(replacement).unwrap();

    let got: Album = db.get::<Album>("album/k1").unwrap();
    assert_eq!(got.name, "after");

    let missing = db.update(named_album("k2", "nobody"));
    assert!(matches!(missing, Err(DbError::ItemNotFound)));
}

#[test]
fn remove_without_separator_is_parse_fail() {
    let mut db = MemoryDb::new();
    let r = db.remove::<Album>("noseparator");
    assert!(matches!(r, Err(DbError::ParseFail)));
}

#[test]
fn remove_absent_is_not_found() {
    let mut db = MemoryDb::new();
    let r = db.remove::<Album>("album/ghost");
    assert!(matches!(r, Err(DbError::ItemNotFound)));
}

#[test]
fn insert_collection_returns_ids_in_order() {
    let mut db = MemoryDb::new();
    let jobs = vec![
        named_album("b1", "one"),
        named_album("b2", "two"),
        named_album("b3", "three"),
    ];
    let ids = db.insert_collection(jobs).unwrap();
    assert_eq!(ids, vec!["album/b1", "album/b2", "album/b3"]);
}

#[test]
fn insert_collection_aborts_on_first_failure() {
    let mut db = MemoryDb::new();
    db.insert(named_album("dup", "already there")).unwrap();

    let jobs = vec![
        named_album("fresh", "lands"),
        named_album("dup", "rejected"),
        named_album("never", "not reached"),
    ];
    let r = db.insert_collection(jobs);
    assert!(matches!(r, Err(DbError::FailedToCreate)));

    // the document before the failing one stays; the ones after were
    // never tried
    assert!(db.get::<Album>("album/fresh").is_ok());
    assert!(matches!(
        db.get::<Album>("album/never"),
        Err(DbError::ItemNotFound)
    ));
}
