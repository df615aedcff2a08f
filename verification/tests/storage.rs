use storage_sled::server::{effective_db_path, effective_port, route, Route};
use storage_sled::store::finish_load_full_block;
use storage_sled::{StatusCode, StorageConfig, StorageServer, DB};

fn open_db(name: &str) -> DB {
    let config = StorageConfig::new("");
    let path = format!("/tmp/storage_sled_test_{}", name);
    DB::new(&path, &config).expect("the engine must open")
}

/// A stand-in for the encryption gateway: a fixed byte mask, so decryption
/// with the same mask recovers the plaintext exactly.
fn mock_encrypt(plaintext: &[u8]) -> (Vec<u8>, Vec<u8>) {
    let ciphertext: Vec<u8> = plaintext.iter().map(|b| b ^ 0x5A).collect();
    let key_reference = vec![0x01, 0x02];
    (ciphertext, key_reference)
}

fn mock_decrypt(ciphertext: &[u8], key_reference: &[u8]) -> Option<Vec<u8>> {
    if key_reference != [0x01, 0x02] {
        return None;
    }
    Some(ciphertext.iter().map(|b| b ^ 0x5A).collect())
}

#[test]
fn round_trip_generic() {
    let mut db = open_db("round_trip_generic");
    let key = vec![1, 2, 3, 4];
    let value = vec![0xDE, 0xAD, 0xBE, 0xEF];
    db.store(1, &key, value.clone()).unwrap();
    assert_eq!(db.load(1, &key).unwrap(), value);
}

#[test]
fn region_isolation() {
    let mut db = open_db("region_isolation");
    let key = vec![0x01, 0x02];
    let v1 = vec![0x11];
    let v2 = vec![0x22, 0x22];
    db.store(1, &key, v1.clone()).unwrap();
    db.store(2, &key, v2.clone()).unwrap();
    assert_eq!(db.load(1, &key).unwrap(), v1);
    assert_eq!(db.load(2, &key).unwrap(), v2);
}

#[test]
fn store_overwrites_prior_value() {
    let mut db = open_db("store_overwrites");
    let key = vec![0x55];
    db.store(4, &key, vec![0x01]).unwrap();
    db.store(4, &key, vec![0x02, 0x03]).unwrap();
    assert_eq!(db.load(4, &key).unwrap(), vec![0x02, 0x03]);
}

#[test]
fn delete_idempotence() {
    let mut db = open_db("delete_idempotence");
    let key = vec![0x33, 0x44];
    // Deleting a key that was never written succeeds.
    db.delete(5, &key).unwrap();
    db.store(5, &key, vec![1]).unwrap();
    db.delete(5, &key).unwrap();
    // Deleting it again still succeeds, and the key stays absent.
    db.delete(5, &key).unwrap();
    assert_eq!(db.load(5, &key), Err(StatusCode::NotFound));
}

#[test]
fn concrete_scenario() {
    let db = open_db("concrete_scenario");
    let mut server = StorageServer::new(db);
    let key = vec![0x01, 0x02, 0x03];
    let value = vec![0x09, 0x09];
    assert_eq!(server.store_generic(1, &key, value), StatusCode::Success);
    let (status, loaded) = server.load_generic(1, &key);
    assert_eq!(status, StatusCode::Success);
    assert_eq!(loaded, vec![0x09, 0x09]);
    assert_eq!(server.delete(1, &key), StatusCode::Success);
    let (status, loaded) = server.load_generic(1, &key);
    assert_eq!(status, StatusCode::NotFound);
    assert_eq!(loaded, Vec::<u8>::new());
}

#[test]
fn round_trip_full_block() {
    let mut db = open_db("round_trip_full_block");
    let key = vec![0x10];
    let plaintext = vec![0x70, 0x71, 0x72];
    let (ciphertext, key_reference) = mock_encrypt(&plaintext);
    assert_ne!(ciphertext, plaintext);
    db.store_full_block(&key, Some((ciphertext.clone(), key_reference.clone())))
        .unwrap();
    // The durable record holds the ciphertext and key reference bit-identically.
    let (ct, kr) = db.load_full_block(&key).unwrap();
    assert_eq!(ct, ciphertext);
    assert_eq!(kr, key_reference);
    // Decryption recovers the plaintext exactly as stored.
    let recovered = finish_load_full_block(mock_decrypt(&ct, &kr)).unwrap();
    assert_eq!(recovered, plaintext);
}

#[test]
fn full_block_atomicity_under_gateway_failure() {
    let mut db = open_db("full_block_atomicity");
    let key = vec![0x77, 0x78];
    // Make sure the slot is absent, whatever an earlier run left behind.
    db.delete(11, &key).unwrap();
    // The gateway failed: nothing may be written.
    assert_eq!(
        db.store_full_block(&key, None),
        Err(StatusCode::EncryptionError)
    );
    assert_eq!(db.load_full_block(&key), Err(StatusCode::NotFound));
}

#[test]
fn full_block_overwrite_replaces_whole_record() {
    let mut db = open_db("full_block_overwrite");
    let key = vec![0x05];
    let (c1, k1) = mock_encrypt(&[1, 2, 3]);
    let (c2, k2) = mock_encrypt(&[4, 5]);
    db.store_full_block(&key, Some((c1, k1))).unwrap();
    db.store_full_block(&key, Some((c2.clone(), k2.clone()))).unwrap();
    let (ct, kr) = db.load_full_block(&key).unwrap();
    assert_eq!(ct, c2);
    assert_eq!(kr, k2);
}

#[test]
fn decryption_failure_is_reported() {
    let outcome = mock_decrypt(&[0x00], &[0x09, 0x09]);
    assert_eq!(outcome, None);
    assert_eq!(
        finish_load_full_block(outcome),
        Err(StatusCode::DecryptionError)
    );
    let (status, value) = StorageServer::finish_load(None);
    assert_eq!(status, StatusCode::DecryptionError);
    assert_eq!(value, Vec::<u8>::new());
}

#[test]
fn routing_by_region() {
    assert_eq!(route(11), Route::Confidential);
    assert_eq!(route(0), Route::Generic);
    assert_eq!(route(1), Route::Generic);
    assert_eq!(route(12), Route::Generic);
}

#[test]
fn port_precedence() {
    // An explicit non-default flag wins.
    assert_eq!(effective_port(1234, 60003), 1234);
    // A default flag yields to a non-default configured port.
    assert_eq!(effective_port(50003, 60003), 60003);
    // Everything at the default stays at the default.
    assert_eq!(effective_port(50003, 50003), 50003);
    assert_eq!(effective_port(1234, 50003), 1234);
}

#[test]
fn db_path_precedence() {
    assert_eq!(
        effective_db_path(Some(String::from("a")), String::from("b")),
        "a"
    );
    assert_eq!(effective_db_path(None, String::from("b")), "b");
}

#[test]
fn tuning_is_accepted_by_the_engine() {
    // A small write buffer must still yield a working engine: the round trip
    // holds under either tuning.
    let config = StorageConfig::from_values(
        None,
        None,
        None,
        None,
        Some(64 * 1024),
        None,
        None,
        None,
    );
    assert_eq!(config.write_buffer_size, 64 * 1024);
    let mut db = DB::new("/tmp/storage_sled_test_tuning", &config).unwrap();
    let key = vec![0x42];
    db.store(3, &key, vec![0x43]).unwrap();
    assert_eq!(db.load(3, &key).unwrap(), vec![0x43]);
}
