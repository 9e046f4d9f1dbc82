//! Access layer for a remote document-oriented database.
//!
//! The crate models the backend as a store of documents grouped into named
//! collections, and states the behaviour of every operation against that
//! model: create-only inserts, id-based lookup, case-insensitive field
//! search, pagination reassembly and edge fan-out.

pub mod engine;
pub mod io;
pub mod models;
pub mod preludes;
pub mod text;
pub mod time;
