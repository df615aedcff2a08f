//! The service face of the store: routing and status relay.
//!
//! A request names a region; exactly one region identifier is reserved for
//! confidential full blocks and routes to the encrypted path, every other
//! value to the generic one. Each relay here turns the store's result into
//! the caller-visible status vocabulary, and a load hands back an empty value
//! beside any non-success status.

use vstd::prelude::*;

use crate::config::{StorageConfig, DEFAULT_STORAGE_PORT};
use crate::keyspace::{spec_region_key, FULL_BLOCK_REGION};
use crate::record::spec_record_bytes;
use crate::status::StatusCode;
use crate::store::DB;

verus! {

/// Where a request's region sends it.
#[derive(Clone, Copy, Debug, PartialEq, Eq, Structural)]
pub enum Route {
    /// A generic caller-defined namespace.
    Generic,
    /// The reserved confidential full-block namespace.
    Confidential,
}

/// Decide a request's path by its region identifier alone: the reserved
/// region — and only it — takes the confidential route.
pub fn route(region: u32) -> (r: Route)
    ensures
        (r == Route::Confidential) <==> (region == FULL_BLOCK_REGION),
{
    if region == FULL_BLOCK_REGION {
        Route::Confidential
    } else {
        Route::Generic
    }
}

/// The storage service: the one store handle behind every request.
pub struct StorageServer {
    db: DB,
}

impl View for StorageServer {
    type V = Map<Seq<u8>, Seq<u8>>;

    closed spec fn view(&self) -> Map<Seq<u8>, Seq<u8>> {
        self.db@
    }
}

impl StorageServer {
    /// Wrap the opened store; the single instance serves every request for
    /// the life of the process.
    pub fn new(db: DB) -> (r: StorageServer)
        ensures
            r@ == db@,
    {
        StorageServer { db }
    }

    /// Serve a store request for a generic region: persist the value and
    /// report success, or relay the storage fault.
    pub fn store_generic(&mut self, region: u32, key: &Vec<u8>, value: Vec<u8>) -> (r: StatusCode)
        requires
            region != FULL_BLOCK_REGION,
        ensures
            r == StatusCode::Success ==> final(self)@ == old(self)@.insert(
                spec_region_key(region, key@),
                value@,
            ),
            r != StatusCode::Success ==> r == StatusCode::StorageError,
    {
        match self.db.store(region, key, value) {
            Ok(()) => StatusCode::Success,
            Err(s) => s,
        }
    }

    /// Serve a store request for the reserved region, given what the
    /// encryption gateway handed back for the plaintext. A gateway failure
    /// stores nothing and reports the encryption fault.
    pub fn store_confidential(&mut self, key: &Vec<u8>, encrypted: Option<(Vec<u8>, Vec<u8>)>) -> (
        r: StatusCode)
        ensures
            match encrypted {
                None => r == StatusCode::EncryptionError && final(self)@ == old(self)@,
                Some(parts) => if parts.1@.len() <= u32::MAX {
                    (r == StatusCode::Success ==> final(self)@ == old(self)@.insert(
                        spec_region_key(FULL_BLOCK_REGION, key@),
                        spec_record_bytes(parts.0@, parts.1@),
                    )) && (r != StatusCode::Success ==> r == StatusCode::StorageError)
                } else {
                    r == StatusCode::EncryptionError && final(self)@ == old(self)@
                },
            },
    {
        match self.db.store_full_block(key, encrypted) {
            Ok(()) => StatusCode::Success,
            Err(s) => s,
        }
    }

    /// Serve a load request for a generic region. The value is empty beside
    /// any non-success status; not-found is reported if and only if the slot
    /// is unmapped.
    pub fn load_generic(&self, region: u32, key: &Vec<u8>) -> (r: (StatusCode, Vec<u8>))
        requires
            region != FULL_BLOCK_REGION,
        ensures
            r.0 == StatusCode::Success ==> self@.contains_key(spec_region_key(region, key@))
                && r.1@ == self@[spec_region_key(region, key@)],
            r.0 == StatusCode::NotFound ==> !self@.contains_key(spec_region_key(region, key@))
                && r.1@ == Seq::<u8>::empty(),
            r.0 != StatusCode::Success && r.0 != StatusCode::NotFound ==> r.0
                == StatusCode::StorageError && r.1@ == Seq::<u8>::empty(),
    {
        match self.db.load(region, key) {
            Ok(v) => (StatusCode::Success, v),
            Err(s) => (s, Vec::new()),
        }
    }

    /// Serve the storage half of a load request for the reserved region: the
    /// ciphertext and key reference to hand to the gateway, each empty beside
    /// any non-success status.
    pub fn load_confidential(&self, key: &Vec<u8>) -> (r: (StatusCode, Vec<u8>, Vec<u8>))
        ensures
            r.0 == StatusCode::Success ==> self@.contains_key(
                spec_region_key(FULL_BLOCK_REGION, key@),
            ) && r.2@.len() <= u32::MAX && self@[spec_region_key(FULL_BLOCK_REGION, key@)]
                == spec_record_bytes(r.1@, r.2@),
            r.0 == StatusCode::NotFound ==> !self@.contains_key(
                spec_region_key(FULL_BLOCK_REGION, key@),
            ),
            r.0 != StatusCode::Success ==> r.1@ == Seq::<u8>::empty() && r.2@
                == Seq::<u8>::empty() && (r.0 == StatusCode::NotFound || r.0
                == StatusCode::StorageError),
    {
        match self.db.load_full_block(key) {
            Ok((ciphertext, key_reference)) => (StatusCode::Success, ciphertext, key_reference),
            Err(s) => (s, Vec::new(), Vec::new()),
        }
    }

    /// Finish a load of the reserved region with the gateway's decryption
    /// outcome: the recovered plaintext, or a decryption fault beside an
    /// empty value.
    pub fn finish_load(decrypted: Option<Vec<u8>>) -> (r: (StatusCode, Vec<u8>))
        ensures
            match decrypted {
                Some(plaintext) => r.0 == StatusCode::Success && r.1 == plaintext,
                None => r.0 == StatusCode::DecryptionError && r.1@ == Seq::<u8>::empty(),
            },
    {
        match decrypted {
            Some(plaintext) => (StatusCode::Success, plaintext),
            None => (StatusCode::DecryptionError, Vec::new()),
        }
    }

    /// Serve a delete request: any region, the reserved one included. A
    /// successful delete leaves the slot unmapped whether or not the key
    /// existed.
    pub fn delete(&mut self, region: u32, key: &Vec<u8>) -> (r: StatusCode)
        ensures
            r == StatusCode::Success ==> final(self)@ == old(self)@.remove(
                spec_region_key(region, key@),
            ),
            r != StatusCode::Success ==> r == StatusCode::StorageError,
    {
        match self.db.delete(region, key) {
            Ok(()) => StatusCode::Success,
            Err(s) => s,
        }
    }
}

/// The port the service listens on: an explicit non-default flag wins, then
/// a non-default configured port, then the built-in default.
pub fn effective_port(flag_port: u16, configured_port: u16) -> (r: u16)
    ensures
        r == (if flag_port != DEFAULT_STORAGE_PORT {
            flag_port
        } else if configured_port != DEFAULT_STORAGE_PORT {
            configured_port
        } else {
            DEFAULT_STORAGE_PORT
        }),
{
    if flag_port != DEFAULT_STORAGE_PORT {
        flag_port
    } else if configured_port != DEFAULT_STORAGE_PORT {
        configured_port
    } else {
        DEFAULT_STORAGE_PORT
    }
}

/// The storage path the engine opens: an explicit flag wins over the
/// configured path.
pub fn effective_db_path(flag_path: Option<String>, configured_path: String) -> (r: String)
    ensures
        match flag_path {
            Some(p) => r == p,
            None => r == configured_path,
        },
{
    match flag_path {
        Some(p) => p,
        None => configured_path,
    }
}

} // verus!
