use storage_sled::config::{
    DEFAULT_BACKGROUND_JOBS, DEFAULT_KMS_PORT, DEFAULT_MAX_OPEN_FILE, DEFAULT_STORAGE_PORT,
    DEFAULT_TARGET_FILE_SIZE_BASE, DEFAULT_WRITE_BUFFER_SIZE,
};
use storage_sled::StorageConfig;

#[test]
fn basic_test() {
    let text = "[storage_sled]\n\
                storage_port = 60003\n\
                kms_port = 60005\n\
                write_buffer_size = 65536\n\
                max_open_file = 65535\n";
    let config = StorageConfig::new(text);

    assert_eq!(config.kms_port, 60005);
    assert_eq!(config.storage_port, 60003);
    assert_eq!(config.write_buffer_size, 65536);
    assert_eq!(config.max_open_file, 65535);
}

#[test]
fn defaults_when_document_is_empty() {
    let config = StorageConfig::new("");
    assert_eq!(config.storage_port, 50003);
    assert_eq!(config.kms_port, 50005);
    assert_eq!(config.db_path, "chain_data");
    assert_eq!(config.log_file, "storage-log4rs.yaml");
    assert_eq!(config.write_buffer_size, 256 * 1024 * 1024);
    assert_eq!(config.background_jobs, 2);
    assert_eq!(config.max_open_file, 512);
    assert_eq!(config.target_file_size_base, 64 * 1024 * 1024);
}

#[test]
fn defaults_when_document_is_unparseable() {
    let config = StorageConfig::new("this is { not toml");
    assert_eq!(config.storage_port, DEFAULT_STORAGE_PORT);
    assert_eq!(config.kms_port, DEFAULT_KMS_PORT);
}

#[test]
fn strings_and_remaining_fields_are_read() {
    let text = "[storage_sled]\n\
                db_path = \"other_data\"\n\
                log_file = \"other-log4rs.yaml\"\n\
                background_jobs = 7\n\
                target_file_size_base = 1048576\n";
    let config = StorageConfig::new(text);
    assert_eq!(config.db_path, "other_data");
    assert_eq!(config.log_file, "other-log4rs.yaml");
    assert_eq!(config.background_jobs, 7);
    assert_eq!(config.target_file_size_base, 1048576);
    assert_eq!(config.storage_port, DEFAULT_STORAGE_PORT);
}

#[test]
fn out_of_range_fields_keep_defaults() {
    let text = "[storage_sled]\n\
                storage_port = 70000\n\
                kms_port = -1\n\
                background_jobs = 9999999999\n\
                target_file_size_base = -5\n";
    let config = StorageConfig::new(text);
    assert_eq!(config.storage_port, DEFAULT_STORAGE_PORT);
    assert_eq!(config.kms_port, DEFAULT_KMS_PORT);
    assert_eq!(config.background_jobs, DEFAULT_BACKGROUND_JOBS);
    assert_eq!(config.target_file_size_base, DEFAULT_TARGET_FILE_SIZE_BASE);
}

#[test]
fn ill_typed_fields_keep_defaults() {
    let text = "[storage_sled]\n\
                storage_port = \"sixty thousand\"\n\
                db_path = 4\n";
    let config = StorageConfig::new(text);
    assert_eq!(config.storage_port, DEFAULT_STORAGE_PORT);
    assert_eq!(config.db_path, "chain_data");
}

#[test]
fn from_values_takes_what_fits() {
    let config = StorageConfig::from_values(
        Some(60003),
        None,
        Some(String::from("p")),
        None,
        Some(-1),
        Some(3),
        None,
        Some(9),
    );
    assert_eq!(config.storage_port, 60003);
    assert_eq!(config.kms_port, DEFAULT_KMS_PORT);
    assert_eq!(config.db_path, "p");
    assert_eq!(config.log_file, "storage-log4rs.yaml");
    assert_eq!(config.write_buffer_size, DEFAULT_WRITE_BUFFER_SIZE);
    assert_eq!(config.background_jobs, 3);
    assert_eq!(config.max_open_file, DEFAULT_MAX_OPEN_FILE);
    assert_eq!(config.target_file_size_base, 9);
}
