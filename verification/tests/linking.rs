//! Edge linking: fan-out over many children, idempotent re-linking,
//! and best-effort aggregation of individually failing outcomes.

use discuits_api::engine::db::memory::MemoryDb;
use discuits_api::engine::DbError;
use discuits_api::io::write::{EngineWrite, Write};
use discuits_api::models::album::Album;
use discuits_api::models::artist::Artist;
use discuits_api::models::edge::{collect_successes, Edge};
use discuits_api::models::{AnyDoc, DocDetails};

fn edge_parts(d: &AnyDoc) -> (String, String) {
    match d {
        AnyDoc::Edge(e) => (e._from.clone(), e._to.clone()),
        _ => panic!("expected an edge document"),
    }
}

#[test]
fn insert_artist_album_with_edge() {
    let mut db = MemoryDb::new();

    let mut album = Album::new();
    album.name("owl house");
    let product = EngineWrite::insert(&mut db, album).unwrap();

    match discuits_api::io::read::EngineGet::find::<Artist>(&db, "name", "Dana Terrace") {
        Ok(art) => {
            let resp = Edge::link_one_to_many(&mut db, "artist_to", art.id(), vec![product.0]);
            assert!(resp.is_ok());
        }
        Err(_) => {
            let mut artist = Artist::new();
            artist.name("Dana Terrace");
            let art = EngineWrite::insert(&mut db, artist).unwrap();
            let _e = Edge::link_one_to_many(&mut db, "artist_to", art.0, vec![product.0]).unwrap();
        }
    }
}

#[test]
fn link_one_to_many_links_every_child() {
    let mut db = MemoryDb::new();
    let links = Edge::link_one_to_many(
        &mut db,
        "artist_to",
        "artist/p1".to_string(),
        vec![
            "album/c1".to_string(),
            "album/c2".to_string(),
            "album/c3".to_string(),
        ],
    )
    .unwrap();

    assert_eq!(links.len(), 3);
    let (f0, t0) = edge_parts(&links[0]);
    assert_eq!(f0, "artist/p1");
    assert_eq!(t0, "album/c1");
    let (_, t2) = edge_parts(&links[2]);
    assert_eq!(t2, "album/c3");
}

#[test]
fn link_one_to_many_rejects_empty_input() {
    let mut db = MemoryDb::new();
    let r = Edge::link_one_to_many(&mut db, "artist_to", "artist/p1".to_string(), vec![]);
    assert!(matches!(r, Err(DbError::FailedToCreate)));
}

#[test]
fn relinking_the_same_pair_is_idempotent() {
    let mut db = MemoryDb::new();
    let first = Edge::link_one_to_many(
        &mut db,
        "artist_to",
        "artist/p1".to_string(),
        vec!["album/c1".to_string()],
    )
    .unwrap();
    let again = Edge::link_one_to_many(
        &mut db,
        "artist_to",
        "artist/p1".to_string(),
        vec!["album/c1".to_string()],
    )
    .unwrap();

    // the second run found the stored edge rather than adding one
    let stored = db.get_all_docs("generic_edge").unwrap();
    assert_eq!(stored.len(), 1);
    assert_eq!(first[0].id_of(), again[0].id_of());
}

#[test]
fn upsert_via_write_trait() {
    let mut db = MemoryDb::new();
    let edge = Edge::new("artist_to", "artist/a".to_string(), "album/b".to_string());
    let (id, stored) = Write::<Edge>::insert(&mut db, edge).unwrap();
    assert_eq!(stored.collection_of(), "generic_edge");
    assert_eq!(stored.id_of(), id);

    let twin = Edge::new("artist_to", "artist/a".to_string(), "album/b".to_string());
    let (id2, _) = Write::<Edge>::insert(&mut db, twin).unwrap();
    assert_eq!(id, id2);
}

fn ok_outcome(child: &str) -> Result<(String, AnyDoc), DbError> {
    let edge = Edge::new("artist_to", "artist/p".to_string(), child.to_string());
    Ok((format!("generic_edge/artist_p_{}", child), AnyDoc::Edge(edge)))
}

// Fan-out partial failure: one failing child is discarded, the other
// two links survive, and no error is raised for the individual failure.
#[test]
fn fan_out_keeps_partial_successes() {
    let outcomes = vec![
        ok_outcome("album/c1"),
        Err(DbError::FailedToCreate),
        ok_outcome("album/c3"),
    ];
    let survivors = collect_successes(outcomes).unwrap();
    assert_eq!(survivors.len(), 2);
    let (_, t0) = edge_parts(&survivors[0]);
    assert_eq!(t0, "album/c1");
    let (_, t1) = edge_parts(&survivors[1]);
    assert_eq!(t1, "album/c3");
}

#[test]
fn fan_out_with_no_outcomes_fails() {
    let r = collect_successes(vec![]);
    assert!(matches!(r, Err(DbError::FailedToCreate)));
}

#[test]
fn fan_out_with_zero_successes_fails() {
    let outcomes = vec![
        Err(DbError::FailedToCreate),
        Err(DbError::ItemNotFound),
    ];
    let r = collect_successes(outcomes);
    assert!(matches!(r, Err(DbError::FailedToCreate)));
}

#[test]
fn edge_update_without_identity_misses() {
    let mut db = MemoryDb::new();
    let edge = Edge::new("artist_to", "artist/a".to_string(), "album/b".to_string());
    let r = Write::<Edge>::update(&mut db, edge);
    assert!(matches!(r, Err(DbError::ItemNotFound)));
}
