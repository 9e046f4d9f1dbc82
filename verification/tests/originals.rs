//! Small smoke tests of the error type, the edge and stand-in document
//! defaults, and hand-built query text.

use discuits_api::engine::db::aql::{aql_builder, filter_clause, limit_clause, sort_clause, FILTER};
use discuits_api::engine::DbError;
use discuits_api::models::edge::Edge;
use discuits_api::models::fake::Fake;

#[test]
fn test_error() {
    let err: Result<(), DbError> = Err(DbError::NoHostProvided);
    if let Err(e) = err {
        println!("{}", e.message());
    }
}

#[test]
fn test_attribute() {
    let aa = Edge::default();
    println!("Arist to Album: {:?}", aa);
    println!("aqul {}", FILTER);
}

#[test]
fn test_attr() {
    let _f = Fake::default();
}

#[test]
fn test_aql_marco() {
    let parts = vec![
        filter_clause("N", "name", "jim"),
        limit_clause(2, 5),
        sort_clause("N", &vec!["name".to_string(), "age".to_string()], true),
    ];
    let m: String = aql_builder("N", "COL", &parts);
    println!("{}", m);
}

#[test]
fn aql_builder_exact_text() {
    let parts = vec![
        filter_clause("N", "name", "jim"),
        limit_clause(2, 5),
        sort_clause("N", &vec!["name".to_string(), "age".to_string()], true),
    ];
    let m = aql_builder("N", "COL", &parts);
    assert_eq!(
        m,
        "FOR N in COL\nFILTER N.name == jim\nLIMIT 2, 5\nSORT N.name, N.age DESC\nRETURN N"
    );
}

#[test]
fn filter_clause_bool_lowering() {
    assert_eq!(filter_clause("d", "alive", "TRUE"), "FILTER d.alive == true\n");
    assert_eq!(filter_clause("d", "alive", "False"), "FILTER d.alive == false\n");
    assert_eq!(filter_clause("d", "name", "Jim"), "FILTER d.name == Jim\n");
}

#[test]
fn sort_clause_ascending() {
    assert_eq!(
        sort_clause("d", &vec!["name".to_string()], false),
        "SORT d.name ASC\n"
    );
}

#[test]
fn error_messages() {
    assert_eq!(
        DbError::NoHostProvided.message(),
        "A host was not provided to the builder."
    );
    assert_eq!(
        DbError::ItemNotFound.message(),
        "Could not find item in the database."
    );
    assert_eq!(DbError::FailedToCreate.message(), "Failed to create new item");
}
