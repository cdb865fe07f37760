//! Sandboxed, multi-tenant resource manager for embedded databases and
//! files: named contexts (root directories) each own a set of opened
//! databases (with transactions) and opened file handles, all
//! path-contained to the context root. The registries, the path sandbox,
//! the transaction bookkeeping and the collection dispatch are verified;
//! the embedded engine is consumed through a narrow trusted interface, and
//! filesystem facts (probes and canonicalization outcomes) are supplied by
//! the caller as plain values.

pub mod collection;
pub mod engine;
pub mod error;
pub mod handles;
pub mod laws;
pub mod paths;
pub mod registry;
pub mod state;
pub mod text;
pub mod types;

pub use collection::Collection;
pub use error::Error;
pub use handles::{Context, Database, FileHandle, Transaction};
pub use state::{ContextDB, ContextFileHandle, ContextState, Persistence};
pub use types::FileHandleMode;
