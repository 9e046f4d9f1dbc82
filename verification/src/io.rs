//! The IO traits of the engine contract: typed reads, writes and
//! deletes, implemented once per engine and serving every document type.

pub mod delete;
pub mod read;
pub mod write;

pub use delete::EngineDelete;
pub use read::{EngineGet, EngineState, Get};
pub use write::{EngineWrite, Write};
