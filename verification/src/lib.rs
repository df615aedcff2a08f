//! Region-partitioned persistent key-value storage for a blockchain node's
//! local data tier.
//!
//! The engine stores byte-keyed records inside logical namespaces called
//! regions, all backed by one ordered persistent store. One reserved region
//! holds full block payloads, which are persisted only in encrypted form:
//! every write to it passes through an external encryption gateway before it
//! reaches disk, and every read is handed back for decryption.

pub mod bytes;
pub mod config;
pub mod engine;
pub mod keyspace;
pub mod record;
pub mod server;
mod status;
pub mod store;

pub use config::StorageConfig;
pub use server::StorageServer;
pub use status::StatusCode;
pub use store::DB;
