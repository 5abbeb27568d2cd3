//! A small key-value store: a flat string-to-string mapping persisted
//! through one of four serialization backends (YAML, JSON, SQLite, CSV),
//! selected by the resource name's suffix.

pub mod backend;
pub mod commands;
pub mod error;
pub mod serializer;
pub mod store;

pub use backend::Backend;
pub use error::KeyDoesNotExist;
pub use error::StoreError;
pub use store::Store;
