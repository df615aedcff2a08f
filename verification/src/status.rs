//! The status vocabulary handed back to callers.
//!
//! Statuses only travel with a response; they are never persisted. Every
//! failure of the engine or of the encryption gateway is translated to one of
//! these values at the store boundary, and the service keeps serving.

use vstd::prelude::*;

verus! {

/// Caller-visible outcome of a storage request.
#[derive(Clone, Copy, Debug, PartialEq, Eq, Structural)]
pub enum StatusCode {
    /// The request was carried out in full.
    Success,
    /// The requested key is absent from its region (never written, or deleted).
    NotFound,
    /// The persistent engine failed (I/O fault or corrupted record).
    StorageError,
    /// The encryption gateway failed or was unreachable while storing.
    EncryptionError,
    /// The encryption gateway rejected or failed a decryption while loading.
    DecryptionError,
    /// An unrecoverable startup condition; the process cannot serve.
    FatalError,
}

impl StatusCode {
    /// A stable textual name for the status, for logs and messages.
    pub fn name(&self) -> (r: &'static str)
        ensures
            r@ == self.spec_name(),
    {
        match self {
            StatusCode::Success => "success",
            StatusCode::NotFound => "not found",
            StatusCode::StorageError => "storage error",
            StatusCode::EncryptionError => "encryption error",
            StatusCode::DecryptionError => "decryption error",
            StatusCode::FatalError => "fatal error",
        }
    }

    /// What `name` returns for each status.
    pub open spec fn spec_name(self) -> Seq<char> {
        match self {
            StatusCode::Success => "success"@,
            StatusCode::NotFound => "not found"@,
            StatusCode::StorageError => "storage error"@,
            StatusCode::EncryptionError => "encryption error"@,
            StatusCode::DecryptionError => "decryption error"@,
            StatusCode::FatalError => "fatal error"@,
        }
    }
}

} // verus!
