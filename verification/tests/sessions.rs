//! Sessions: shared handles over one lock-guarded connection, reads
//! under shared guards and writes under the exclusive guard.

use discuits_api::engine::db::memory::MemoryDb;
use discuits_api::engine::db::DbBasics;
use discuits_api::engine::session::Session;
use discuits_api::io::read::EngineGet;
use discuits_api::io::write::EngineWrite;
use discuits_api::models::album::Album;
use discuits_api::models::artist::Artist;

#[test]
fn test_session_insert_album() {
    let s = Session::new(MemoryDb::new()).clone();
    let lock = s.get_ref().db();

    let mut a = Album::new();
    a.name = "with session".to_string();

    let (mut engine, guard) = lock.acquire_write();
    let resp = engine.insert(a);
    guard.release_write(engine);

    assert!(resp.is_ok());
}

#[test]
fn test_session_insert_artist() {
    let s = Session::new(MemoryDb::new()).clone();
    let lock = s.get_ref().db();

    let mut a = Artist::new();
    a.name = "with session".to_string();

    let (mut engine, guard) = lock.acquire_write();
    let resp = engine.insert(a);
    guard.release_write(engine);

    assert!(resp.is_ok());
}

// A write through one handle is seen by every clone, and any number of
// read guards can observe it side by side.
#[test]
fn clones_share_one_connection() {
    let session = Session::new(MemoryDb::new());
    let writer = session.clone();
    let reader = session.clone();

    {
        let lock = writer.get_ref().db();
        let (mut engine, guard) = lock.acquire_write();
        let mut album = Album::new();
        album.change_id("shared1");
        engine.insert(album).unwrap();
        guard.release_write(engine);
    }

    let lock_a = reader.get_ref().db();
    let lock_b = session.get_ref().db();
    let guard_a = lock_a.acquire_read();
    let guard_b = lock_b.acquire_read();
    let seen_a = guard_a.borrow().get_all::<Album>().unwrap();
    let seen_b = guard_b.borrow().get_all::<Album>().unwrap();
    assert_eq!(seen_a.len(), 1);
    assert_eq!(seen_b.len(), 1);
    guard_a.release_read();
    guard_b.release_read();
}

#[test]
fn into_inner_keeps_the_connection() {
    let session = Session::new(MemoryDb::new());
    let arc = session.into_inner();
    let lock = arc.db();
    let guard = lock.acquire_read();
    assert_eq!(guard.borrow().get_all::<Album>().unwrap().len(), 0);
    guard.release_read();
}

#[test]
fn insert_multiple_types() {
    let session = Session::new(MemoryDb::new());
    let lock = session.get_ref().db();
    let (mut db, guard) = lock.acquire_write();

    let mut album = Album::new();
    let _artist = Artist::new();
    album.name("album test");
    album.description("insert made by test");

    let mut artist = Artist::new();
    artist.name("artist test");

    let resp = (db.insert(album), db.insert(artist));
    println!("{:?}", resp);
    guard.release_write(db);
}

#[test]
fn insertions_insert_multiple_types() {
    let session = Session::new(MemoryDb::new());
    let lock = session.get_ref().db();
    let (mut db, guard) = lock.acquire_write();

    let mut album = Album::new();
    let _artist = Artist::new();
    album.name("album test");
    album.description("insert made by test");
    album.gen_id();

    let mut artist = Artist::new();
    artist.name("artist test");
    artist.gen_id();

    let r = vec![db.insert(artist)];
    println!("{:?}", r);
    guard.release_write(db);
}

// Two read guards held at once observe the same connection; the
// verified method acquires both side by side.
#[test]
fn concurrent_readers_observe_one_connection() {
    let session = Session::new(MemoryDb::new());
    session.get_ref().reads_see_one_connection();
}
