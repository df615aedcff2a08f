//! The persistent engine: one ordered, durable byte-key store.
//!
//! The store itself is sled's embedded database. Verified code sees it
//! through `engine_contents`, the map from live key bytes to the value bytes
//! last written under them, and through the small trusted wrappers below,
//! each of which relies on one sled function.

use vstd::prelude::*;

use crate::config::StorageConfig;
use crate::status::StatusCode;

verus! {

#[verifier::external_type_specification]
#[verifier::external_body]
pub struct ExDb(sled::Db);

#[verifier::external_type_specification]
#[verifier::external_body]
pub struct ExSledError(sled::Error);

#[verifier::external_type_specification]
#[verifier::external_body]
pub struct ExSledConfig(sled::Config);

/// What the underlying store holds: each live key mapped to the value bytes
/// last written under it.
pub uninterp spec fn engine_contents(db: sled::Db) -> Map<Seq<u8>, Seq<u8>>;

/// Relies on sled::Config::new: a fresh default configuration.
#[verifier::external_body]
fn sled_config_new() -> sled::Config {
    sled::Config::new()
}

/// Relies on sled::Config::path: names the directory the store will own.
#[verifier::external_body]
fn sled_config_path(config: sled::Config, path: &str) -> sled::Config {
    config.path(path)
}

/// Relies on sled::Config::cache_capacity: bounds the bytes the store holds
/// in memory before trading them against disk.
#[verifier::external_body]
fn sled_config_cache_capacity(config: sled::Config, bytes: u64) -> sled::Config {
    config.cache_capacity(bytes)
}

/// Relies on sled::Config::open: opens the store at the configured path, or
/// fails if the path is held, unreadable or unrecoverable.
#[verifier::external_body]
fn sled_config_open(config: &sled::Config) -> Result<sled::Db, sled::Error> {
    config.open()
}

/// Relies on sled::Tree::insert (through the Db's default tree): on success
/// the key maps to the value, everything else is untouched.
#[verifier::external_body]
fn sled_insert(db: &mut sled::Db, key: &Vec<u8>, value: Vec<u8>) -> (r: Result<(), sled::Error>)
    ensures
        r is Ok ==> engine_contents(*final(db)) == engine_contents(*old(db)).insert(
            key@,
            value@,
        ),
{
    match db.insert(key.as_slice(), value) {
        Ok(_) => Ok(()),
        Err(e) => Err(e),
    }
}

/// Relies on sled::Tree::get: the value last inserted under the key, or None
/// if the key is unmapped.
#[verifier::external_body]
fn sled_get(db: &sled::Db, key: &Vec<u8>) -> (r: Result<Option<Vec<u8>>, sled::Error>)
    ensures
        match r {
            Ok(found) => match found {
                Some(v) => engine_contents(*db).contains_key(key@) && v@ == engine_contents(
                    *db,
                )[key@],
                None => !engine_contents(*db).contains_key(key@),
            },
            Err(_) => true,
        },
{
    match db.get(key.as_slice()) {
        Ok(Some(v)) => Ok(Some(v.to_vec())),
        Ok(None) => Ok(None),
        Err(e) => Err(e),
    }
}

/// Relies on sled::Tree::remove: on success the key is unmapped; removing an
/// absent key succeeds as well.
#[verifier::external_body]
fn sled_remove(db: &mut sled::Db, key: &Vec<u8>) -> (r: Result<(), sled::Error>)
    ensures
        r is Ok ==> engine_contents(*final(db)) == engine_contents(*old(db)).remove(key@),
{
    match db.remove(key.as_slice()) {
        Ok(_) => Ok(()),
        Err(e) => Err(e),
    }
}

/// Relies on sled::Tree::flush: forces every buffered write down to disk; the
/// mapping itself is unchanged.
#[verifier::external_body]
fn sled_flush(db: &sled::Db) -> Result<usize, sled::Error> {
    db.flush()
}

/// The single owning handle on the ordered durable store. Opened once from a
/// storage path and the tuning configuration; every region bottoms out here.
pub struct PersistentEngine {
    db: sled::Db,
}

impl View for PersistentEngine {
    type V = Map<Seq<u8>, Seq<u8>>;

    closed spec fn view(&self) -> Map<Seq<u8>, Seq<u8>> {
        engine_contents(self.db)
    }
}

impl PersistentEngine {
    /// Open the store at `path` with the configured tuning. Failure here is
    /// fatal: no usable engine exists and the process cannot serve.
    pub fn open(path: &str, tuning: &StorageConfig) -> (r: Result<PersistentEngine, StatusCode>)
        ensures
            r is Err ==> r->Err_0 == StatusCode::FatalError,
    {
        let config = sled_config_new();
        let config = sled_config_path(config, path);
        let config = sled_config_cache_capacity(config, tuning.write_buffer_size as u64);
        match sled_config_open(&config) {
            Ok(db) => Ok(PersistentEngine { db }),
            Err(_) => Err(StatusCode::FatalError),
        }
    }

    /// Durably persist `value` under `key`, replacing any prior value. On
    /// success the write is flushed and immediately visible to reads on this
    /// handle; on failure the engine reports a storage fault.
    pub fn put(&mut self, key: &Vec<u8>, value: Vec<u8>) -> (r: Result<(), StatusCode>)
        ensures
            r is Ok ==> final(self)@ == old(self)@.insert(key@, value@),
            r is Err ==> r->Err_0 == StatusCode::StorageError,
    {
        match sled_insert(&mut self.db, key, value) {
            Ok(()) => match sled_flush(&self.db) {
                Ok(_) => Ok(()),
                Err(_) => Err(StatusCode::StorageError),
            },
            Err(_) => Err(StatusCode::StorageError),
        }
    }

    /// Read the exact bytes last written under `key`. Not-found is reported
    /// if and only if the key is unmapped; any other failure is a storage
    /// fault.
    pub fn get(&self, key: &Vec<u8>) -> (r: Result<Vec<u8>, StatusCode>)
        ensures
            match r {
                Ok(v) => self@.contains_key(key@) && v@ == self@[key@],
                Err(s) => (s == StatusCode::NotFound && !self@.contains_key(key@)) || s
                    == StatusCode::StorageError,
            },
    {
        match sled_get(&self.db, key) {
            Ok(Some(v)) => Ok(v),
            Ok(None) => Err(StatusCode::NotFound),
            Err(_) => Err(StatusCode::StorageError),
        }
    }

    /// Unmap `key`. Deleting an absent key succeeds; a subsequent read of the
    /// key reports not-found.
    pub fn delete(&mut self, key: &Vec<u8>) -> (r: Result<(), StatusCode>)
        ensures
            r is Ok ==> final(self)@ == old(self)@.remove(key@),
            r is Err ==> r->Err_0 == StatusCode::StorageError,
    {
        match sled_remove(&mut self.db, key) {
            Ok(()) => match sled_flush(&self.db) {
                Ok(_) => Ok(()),
                Err(_) => Err(StatusCode::StorageError),
            },
            Err(_) => Err(StatusCode::StorageError),
        }
    }
}

} // verus!
