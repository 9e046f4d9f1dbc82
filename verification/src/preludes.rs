//! One import for the common surface of the access layer.

pub use crate::engine::db::memory::MemoryDb;
pub use crate::engine::db::{AuthType, ConnConfig, Db, DbBasics, DbBuilder};
pub use crate::engine::session::Session;
pub use crate::engine::DbError;
pub use crate::io::delete::EngineDelete;
pub use crate::io::read::{EngineGet, EngineState, Get};
pub use crate::io::write::{EngineWrite, Write};
pub use crate::models::album::Album;
pub use crate::models::artist::Artist;
pub use crate::models::{AnyDoc, BoxedDoc, DocDetails, ReqModelTraits};
