//! The service configuration: ports, storage path and engine tuning.
//!
//! A configuration is read out of a TOML document's `storage_sled` table.
//! Every option has a built-in default, and a field that the document does
//! not give — or gives with the wrong type or out of range — keeps it.

use vstd::prelude::*;

verus! {

/// Default listening port of the storage service.
pub const DEFAULT_STORAGE_PORT: u16 = 50003;

/// Default port used to reach the encryption gateway.
pub const DEFAULT_KMS_PORT: u16 = 50005;

/// Default write-buffer size of the engine, in bytes.
pub const DEFAULT_WRITE_BUFFER_SIZE: usize = 256 * 1024 * 1024;

/// Default number of background flush and compaction jobs.
pub const DEFAULT_BACKGROUND_JOBS: i32 = 2;

/// Default ceiling on simultaneously open segment files.
pub const DEFAULT_MAX_OPEN_FILE: i32 = 512;

/// Default size threshold of an on-disk segment, in bytes.
pub const DEFAULT_TARGET_FILE_SIZE_BASE: u64 = 64 * 1024 * 1024;

/// Everything the service is constructed from: the transport port, the
/// gateway port, the engine's storage path and tuning, and the logging
/// configuration's path.
#[derive(Debug, Clone)]
pub struct StorageConfig {
    pub storage_port: u16,
    pub kms_port: u16,
    pub db_path: String,
    pub log_file: String,
    pub write_buffer_size: usize,
    pub background_jobs: i32,
    pub max_open_file: i32,
    pub target_file_size_base: u64,
}

/// The port a document's integer yields: the value where it fits the field,
/// the default otherwise.
pub open spec fn spec_u16_field(v: Option<i64>, default: u16) -> u16 {
    match v {
        Some(i) => if 0 <= i <= u16::MAX {
            i as u16
        } else {
            default
        },
        None => default,
    }
}

/// As `spec_u16_field`, for an `i32` field.
pub open spec fn spec_i32_field(v: Option<i64>, default: i32) -> i32 {
    match v {
        Some(i) => if i32::MIN <= i <= i32::MAX {
            i as i32
        } else {
            default
        },
        None => default,
    }
}

/// As `spec_u16_field`, for a `usize` field.
pub open spec fn spec_usize_field(v: Option<i64>, default: usize) -> usize {
    match v {
        Some(i) => if 0 <= i <= usize::MAX {
            i as usize
        } else {
            default
        },
        None => default,
    }
}

/// As `spec_u16_field`, for a `u64` field.
pub open spec fn spec_u64_field(v: Option<i64>, default: u64) -> u64 {
    match v {
        Some(i) => if 0 <= i {
            i as u64
        } else {
            default
        },
        None => default,
    }
}

fn u16_field(v: Option<i64>, default: u16) -> (r: u16)
    ensures
        r == spec_u16_field(v, default),
{
    match v {
        Some(i) => if 0 <= i && i <= u16::MAX as i64 {
            i as u16
        } else {
            default
        },
        None => default,
    }
}

fn i32_field(v: Option<i64>, default: i32) -> (r: i32)
    ensures
        r == spec_i32_field(v, default),
{
    match v {
        Some(i) => if i32::MIN as i64 <= i && i <= i32::MAX as i64 {
            i as i32
        } else {
            default
        },
        None => default,
    }
}

fn usize_field(v: Option<i64>, default: usize) -> (r: usize)
    ensures
        r == spec_usize_field(v, default),
{
    match v {
        Some(i) => if 0 <= i && (i as u64) <= (usize::MAX as u64) {
            i as usize
        } else {
            default
        },
        None => default,
    }
}

fn u64_field(v: Option<i64>, default: u64) -> (r: u64)
    ensures
        r == spec_u64_field(v, default),
{
    match v {
        Some(i) => if 0 <= i {
            i as u64
        } else {
            default
        },
        None => default,
    }
}

impl Default for StorageConfig {
    /// The built-in configuration: every option at its default.
    fn default() -> (r: StorageConfig)
        ensures
            r.storage_port == DEFAULT_STORAGE_PORT,
            r.kms_port == DEFAULT_KMS_PORT,
            r.db_path@ == "chain_data"@,
            r.log_file@ == "storage-log4rs.yaml"@,
            r.write_buffer_size == DEFAULT_WRITE_BUFFER_SIZE,
            r.background_jobs == DEFAULT_BACKGROUND_JOBS,
            r.max_open_file == DEFAULT_MAX_OPEN_FILE,
            r.target_file_size_base == DEFAULT_TARGET_FILE_SIZE_BASE,
    {
        StorageConfig {
            storage_port: DEFAULT_STORAGE_PORT,
            kms_port: DEFAULT_KMS_PORT,
            db_path: String::from_str("chain_data"),
            log_file: String::from_str("storage-log4rs.yaml"),
            write_buffer_size: DEFAULT_WRITE_BUFFER_SIZE,
            background_jobs: DEFAULT_BACKGROUND_JOBS,
            max_open_file: DEFAULT_MAX_OPEN_FILE,
            target_file_size_base: DEFAULT_TARGET_FILE_SIZE_BASE,
        }
    }
}

impl StorageConfig {
    /// Build the configuration from the values a document supplied, field by
    /// field: a supplied value is taken exactly when it fits the field, and
    /// the default stands otherwise.
    pub fn from_values(
        storage_port: Option<i64>,
        kms_port: Option<i64>,
        db_path: Option<String>,
        log_file: Option<String>,
        write_buffer_size: Option<i64>,
        background_jobs: Option<i64>,
        max_open_file: Option<i64>,
        target_file_size_base: Option<i64>,
    ) -> (r: StorageConfig)
        ensures
            r.storage_port == spec_u16_field(storage_port, DEFAULT_STORAGE_PORT),
            r.kms_port == spec_u16_field(kms_port, DEFAULT_KMS_PORT),
            r.db_path@ == match db_path {
                Some(p) => p@,
                None => "chain_data"@,
            },
            r.log_file@ == match log_file {
                Some(p) => p@,
                None => "storage-log4rs.yaml"@,
            },
            r.write_buffer_size == spec_usize_field(write_buffer_size, DEFAULT_WRITE_BUFFER_SIZE),
            r.background_jobs == spec_i32_field(background_jobs, DEFAULT_BACKGROUND_JOBS),
            r.max_open_file == spec_i32_field(max_open_file, DEFAULT_MAX_OPEN_FILE),
            r.target_file_size_base == spec_u64_field(
                target_file_size_base,
                DEFAULT_TARGET_FILE_SIZE_BASE,
            ),
    {
        StorageConfig {
            storage_port: u16_field(storage_port, DEFAULT_STORAGE_PORT),
            kms_port: u16_field(kms_port, DEFAULT_KMS_PORT),
            db_path: match db_path {
                Some(p) => p,
                None => String::from_str("chain_data"),
            },
            log_file: match log_file {
                Some(p) => p,
                None => String::from_str("storage-log4rs.yaml"),
            },
            write_buffer_size: usize_field(write_buffer_size, DEFAULT_WRITE_BUFFER_SIZE),
            background_jobs: i32_field(background_jobs, DEFAULT_BACKGROUND_JOBS),
            max_open_file: i32_field(max_open_file, DEFAULT_MAX_OPEN_FILE),
            target_file_size_base: u64_field(
                target_file_size_base,
                DEFAULT_TARGET_FILE_SIZE_BASE,
            ),
        }
    }

    /// Read the configuration out of a TOML document's text: the fields of
    /// its `storage_sled` table. An unparseable document, a missing table and
    /// every missing or unusable field fall back to the defaults.
    pub fn new(config_str: &str) -> StorageConfig {
        let section = match toml_parse(config_str) {
            Some(root) => toml_get(&root, "storage_sled"),
            None => None,
        };
        match section {
            Some(table) => StorageConfig::from_values(
                int_field(&table, "storage_port"),
                int_field(&table, "kms_port"),
                string_field(&table, "db_path"),
                string_field(&table, "log_file"),
                int_field(&table, "write_buffer_size"),
                int_field(&table, "background_jobs"),
                int_field(&table, "max_open_file"),
                int_field(&table, "target_file_size_base"),
            ),
            None => Default::default(),
        }
    }
}

/// The integer under `key` of `table`, if the table has one there.
fn int_field(table: &toml::Value, key: &str) -> Option<i64> {
    match toml_get(table, key) {
        Some(v) => toml_as_integer(&v),
        None => None,
    }
}

/// The string under `key` of `table`, if the table has one there.
fn string_field(table: &toml::Value, key: &str) -> Option<String> {
    match toml_get(table, key) {
        Some(v) => toml_as_str(&v),
        None => None,
    }
}

#[verifier::external_type_specification]
#[verifier::external_body]
pub struct ExTomlValue(toml::Value);

/// Relies on toml::Table's FromStr impl: parses a TOML document's text into
/// its top-level table.
#[verifier::external_body]
fn toml_parse(text: &str) -> Option<toml::Value> {
    match text.parse::<toml::Table>() {
        Ok(table) => Some(toml::Value::Table(table)),
        Err(_) => None,
    }
}

/// Relies on toml::Value::get: the entry under a key of a TOML table, if the
/// value is a table holding one.
#[verifier::external_body]
fn toml_get(value: &toml::Value, key: &str) -> Option<toml::Value> {
    value.get(key).cloned()
}

/// Relies on toml::Value::as_integer: the value as an integer, if it is one.
#[verifier::external_body]
fn toml_as_integer(value: &toml::Value) -> Option<i64> {
    value.as_integer()
}

/// Relies on toml::Value::as_str: the value as a string, if it is one.
#[verifier::external_body]
fn toml_as_str(value: &toml::Value) -> Option<String> {
    match value.as_str() {
        Some(s) => Some(s.to_string()),
        None => None,
    }
}

} // verus!
