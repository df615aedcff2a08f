//! The store built over the engine: generic regions and the confidential
//! full-block path.
//!
//! Every operation works on a namespaced slot of the one engine. Writes to
//! the reserved region carry only what the encryption gateway handed back —
//! ciphertext and key reference, framed into a single record — so plaintext
//! never reaches the engine through this type, and a gateway failure leaves
//! the store exactly as it was.

use vstd::prelude::*;

use crate::config::StorageConfig;
use crate::engine::PersistentEngine;
use crate::keyspace::{lemma_region_key_injective, region_key, spec_region_key, FULL_BLOCK_REGION};
use crate::record::{
    decode_record, encode_record, lemma_record_bytes_injective, spec_record_bytes,
};
use crate::status::StatusCode;

verus! {

/// The region-partitioned store: one handle owning the persistent engine for
/// the life of the process.
pub struct DB {
    engine: PersistentEngine,
}

impl View for DB {
    type V = Map<Seq<u8>, Seq<u8>>;

    closed spec fn view(&self) -> Map<Seq<u8>, Seq<u8>> {
        self.engine@
    }
}

impl DB {
    /// Open the store at `path` with the configured tuning. Failure is
    /// fatal: without an engine the process cannot serve.
    pub fn new(path: &str, config: &StorageConfig) -> (r: Result<DB, StatusCode>)
        ensures
            r is Err ==> r->Err_0 == StatusCode::FatalError,
    {
        match PersistentEngine::open(path, config) {
            Ok(engine) => Ok(DB { engine }),
            Err(s) => Err(s),
        }
    }

    /// Store `value` under `key` of a generic region, replacing any prior
    /// value there and touching nothing else.
    pub fn store(&mut self, region: u32, key: &Vec<u8>, value: Vec<u8>) -> (r: Result<
        (),
        StatusCode,
    >)
        requires
            region != FULL_BLOCK_REGION,
        ensures
            r is Ok ==> final(self)@ == old(self)@.insert(spec_region_key(region, key@), value@),
            r is Err ==> r->Err_0 == StatusCode::StorageError,
    {
        let slot = region_key(region, key);
        self.engine.put(&slot, value)
    }

    /// Load the exact bytes last stored under `key` of a generic region.
    /// Not-found is reported if and only if the slot is unmapped; any other
    /// failure is a storage fault.
    pub fn load(&self, region: u32, key: &Vec<u8>) -> (r: Result<Vec<u8>, StatusCode>)
        requires
            region != FULL_BLOCK_REGION,
        ensures
            match r {
                Ok(v) => self@.contains_key(spec_region_key(region, key@)) && v@ == self@[
                    spec_region_key(region, key@)
                ],
                Err(s) => (s == StatusCode::NotFound && !self@.contains_key(
                    spec_region_key(region, key@),
                )) || s == StatusCode::StorageError,
            },
    {
        let slot = region_key(region, key);
        self.engine.get(&slot)
    }

    /// Delete `key` of any region. Deleting an absent key succeeds too, and
    /// a successful delete leaves the slot unmapped.
    pub fn delete(&mut self, region: u32, key: &Vec<u8>) -> (r: Result<(), StatusCode>)
        ensures
            r is Ok ==> final(self)@ == old(self)@.remove(spec_region_key(region, key@)),
            r is Err ==> r->Err_0 == StatusCode::StorageError,
    {
        let slot = region_key(region, key);
        self.engine.delete(&slot)
    }

    /// Persist the encryption gateway's outcome for a full block under `key`
    /// of the reserved region.
    ///
    /// `encrypted` is what came back from the gateway: the ciphertext and the
    /// opaque key reference on success, None where the call failed. A gateway
    /// failure — and a key reference too long to frame — stores nothing at
    /// all: the record under `key` keeps its prior state. On success the
    /// framed record is persisted as one value, so no reader can observe a
    /// ciphertext without its key reference.
    pub fn store_full_block(&mut self, key: &Vec<u8>, encrypted: Option<(Vec<u8>, Vec<u8>)>) -> (r:
        Result<(), StatusCode>)
        ensures
            match encrypted {
                None => r == Err::<(), StatusCode>(StatusCode::EncryptionError) && final(self)@
                    == old(self)@,
                Some(parts) => if parts.1@.len() <= u32::MAX {
                    (r is Ok ==> final(self)@ == old(self)@.insert(
                        spec_region_key(FULL_BLOCK_REGION, key@),
                        spec_record_bytes(parts.0@, parts.1@),
                    )) && (r is Err ==> r->Err_0 == StatusCode::StorageError)
                } else {
                    r == Err::<(), StatusCode>(StatusCode::EncryptionError) && final(self)@ == old(
                        self,
                    )@
                },
            },
    {
        match encrypted {
            Some((ciphertext, key_reference)) => {
                match encode_record(&ciphertext, &key_reference) {
                    Some(record) => {
                        let slot = region_key(FULL_BLOCK_REGION, key);
                        self.engine.put(&slot, record)
                    },
                    None => Err(StatusCode::EncryptionError),
                }
            },
            None => Err(StatusCode::EncryptionError),
        }
    }

    /// Fetch the durable full-block record under `key` of the reserved
    /// region: the ciphertext and key reference to hand to the gateway for
    /// decryption. Not-found is reported if and only if the slot is
    /// unmapped; a slot holding bytes that frame no record is a storage
    /// fault, as is any engine failure.
    pub fn load_full_block(&self, key: &Vec<u8>) -> (r: Result<(Vec<u8>, Vec<u8>), StatusCode>)
        ensures
            match r {
                Ok(parts) => self@.contains_key(spec_region_key(FULL_BLOCK_REGION, key@))
                    && parts.1@.len() <= u32::MAX && self@[spec_region_key(
                    FULL_BLOCK_REGION,
                    key@,
                )] == spec_record_bytes(parts.0@, parts.1@),
                Err(s) => (s == StatusCode::NotFound && !self@.contains_key(
                    spec_region_key(FULL_BLOCK_REGION, key@),
                )) || s == StatusCode::StorageError,
            },
    {
        let slot = region_key(FULL_BLOCK_REGION, key);
        match self.engine.get(&slot) {
            Ok(bytes) => match decode_record(&bytes) {
                Some(parts) => Ok(parts),
                None => Err(StatusCode::StorageError),
            },
            Err(s) => Err(s),
        }
    }
}

/// Turn the gateway's decryption outcome into the caller's result: the
/// plaintext exactly as the gateway recovered it, or a decryption failure.
pub fn finish_load_full_block(decrypted: Option<Vec<u8>>) -> (r: Result<Vec<u8>, StatusCode>)
    ensures
        match decrypted {
            Some(plaintext) => r matches Ok(p) && p == plaintext,
            None => r == Err::<Vec<u8>, StatusCode>(StatusCode::DecryptionError),
        },
{
    match decrypted {
        Some(plaintext) => Ok(plaintext),
        None => Err(StatusCode::DecryptionError),
    }
}

/// Round trip of a generic region: the store that `store` committed maps the
/// written slot to the written value, so a following `load` of the same
/// region and key is owed exactly that value.
pub proof fn lemma_store_then_load(
    m: Map<Seq<u8>, Seq<u8>>,
    region: u32,
    key: Seq<u8>,
    value: Seq<u8>,
)
    ensures
        m.insert(spec_region_key(region, key), value).contains_key(spec_region_key(region, key)),
        m.insert(spec_region_key(region, key), value)[spec_region_key(region, key)] == value,
{
}

/// Uniqueness within a region: a key holds at most one live value, so of two
/// stores to the same region and key, the one that committed last is the
/// value every later load is owed.
pub proof fn lemma_store_overwrites(
    m: Map<Seq<u8>, Seq<u8>>,
    region: u32,
    key: Seq<u8>,
    v1: Seq<u8>,
    v2: Seq<u8>,
)
    ensures
        m.insert(spec_region_key(region, key), v1).insert(spec_region_key(region, key), v2)[
            spec_region_key(region, key)
        ] == v2,
{
}

/// Region isolation: two stores of the same key under distinct regions land
/// on distinct slots, so each region still reads its own value, whichever
/// order the stores committed in.
pub proof fn lemma_region_isolation(
    m: Map<Seq<u8>, Seq<u8>>,
    r1: u32,
    r2: u32,
    key: Seq<u8>,
    v1: Seq<u8>,
    v2: Seq<u8>,
)
    requires
        r1 != r2,
    ensures
        m.insert(spec_region_key(r1, key), v1).insert(spec_region_key(r2, key), v2)[
            spec_region_key(r1, key)
        ] == v1,
        m.insert(spec_region_key(r1, key), v1).insert(spec_region_key(r2, key), v2)[
            spec_region_key(r2, key)
        ] == v2,
{
    if spec_region_key(r1, key) == spec_region_key(r2, key) {
        lemma_region_key_injective(r1, key, r2, key);
    }
}

/// Delete idempotence, second half: after a successful delete the slot is
/// unmapped, so a following load of the same region and key reports
/// not-found. (The first half — that a delete needs no prior record — is the
/// absence of any such condition on `DB::delete`.)
pub proof fn lemma_delete_then_load(m: Map<Seq<u8>, Seq<u8>>, region: u32, key: Seq<u8>)
    ensures
        !m.remove(spec_region_key(region, key)).contains_key(spec_region_key(region, key)),
{
}

/// Round trip of the confidential path's durable half: whatever record a
/// fetch decodes out of the slot a successful full-block store just wrote
/// holds bit-identically the ciphertext and key reference that were stored.
pub proof fn lemma_store_full_block_then_load(
    m: Map<Seq<u8>, Seq<u8>>,
    key: Seq<u8>,
    ciphertext: Seq<u8>,
    key_reference: Seq<u8>,
    fetched_ciphertext: Seq<u8>,
    fetched_key_reference: Seq<u8>,
)
    requires
        key_reference.len() <= u32::MAX,
        fetched_key_reference.len() <= u32::MAX,
        m.insert(
            spec_region_key(FULL_BLOCK_REGION, key),
            spec_record_bytes(ciphertext, key_reference),
        )[spec_region_key(FULL_BLOCK_REGION, key)] == spec_record_bytes(
            fetched_ciphertext,
            fetched_key_reference,
        ),
    ensures
        fetched_ciphertext == ciphertext,
        fetched_key_reference == key_reference,
{
    lemma_record_bytes_injective(
        ciphertext,
        key_reference,
        fetched_ciphertext,
        fetched_key_reference,
    );
}

} // verus!
