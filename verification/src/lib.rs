//! A minimal durable store that keeps a single typed in-memory value
//! synchronized with a JSON file on disk.
//!
//! The store itself is pure state-machine logic: reading, writing and
//! copying files go through the [`FileSystem`] trait, and turning the
//! stored value into JSON text and back goes through the [`JsonCodec`]
//! trait. Callers supply implementations of both (a real filesystem and
//! a serde-based codec in production, instrumented stubs in tests).

pub mod error;
pub mod path;
pub mod store;

pub use error::JsonStoreError;
pub use path::StorePath;
pub use path::backup_path_for;
pub use store::FileSystem;
pub use store::JsonCodec;
pub use store::JsonStore;
