use storage_sled::bytes::{be_to_u32, u32_to_be};
use storage_sled::keyspace::region_key;
use storage_sled::record::{decode_record, encode_record};
use storage_sled::StatusCode;

#[test]
fn u32_big_endian_bytes() {
    assert_eq!(u32_to_be(0x01020304), vec![1, 2, 3, 4]);
    assert_eq!(u32_to_be(0), vec![0, 0, 0, 0]);
    assert_eq!(u32_to_be(u32::MAX), vec![0xff, 0xff, 0xff, 0xff]);
    assert_eq!(be_to_u32(1, 2, 3, 4), 0x01020304);
    assert_eq!(be_to_u32(0xff, 0xff, 0xff, 0xff), u32::MAX);
}

#[test]
fn region_key_prefixes_fixed_width_region() {
    assert_eq!(region_key(1, &vec![1, 2, 3]), vec![0, 0, 0, 1, 1, 2, 3]);
    assert_eq!(region_key(11, &vec![]), vec![0, 0, 0, 11]);
    // The same key bytes under two regions land on two distinct slots.
    assert_ne!(region_key(1, &vec![9]), region_key(2, &vec![9]));
    // Key bytes cannot imitate another region's prefix.
    assert_ne!(region_key(0, &vec![0, 0, 0, 1]), region_key(1, &vec![]));
}

#[test]
fn record_frame_round_trip() {
    let ciphertext = vec![0xAA, 0xAB];
    let key_reference = vec![0xBB, 0xCC, 0xDD];
    let framed = encode_record(&ciphertext, &key_reference).unwrap();
    assert_eq!(framed, vec![0, 0, 0, 3, 0xBB, 0xCC, 0xDD, 0xAA, 0xAB]);
    let (ct, kr) = decode_record(&framed).unwrap();
    assert_eq!(ct, ciphertext);
    assert_eq!(kr, key_reference);
}

#[test]
fn record_frame_of_empty_parts() {
    let framed = encode_record(&vec![], &vec![]).unwrap();
    assert_eq!(framed, vec![0, 0, 0, 0]);
    let (ct, kr) = decode_record(&framed).unwrap();
    assert_eq!(ct, Vec::<u8>::new());
    assert_eq!(kr, Vec::<u8>::new());
}

#[test]
fn corrupt_frames_do_not_decode() {
    // Too short to hold a length prefix.
    assert_eq!(decode_record(&vec![0, 0, 0]), None);
    // Claims five key-reference bytes but holds one.
    assert_eq!(decode_record(&vec![0, 0, 0, 5, 1]), None);
}

#[test]
fn status_names() {
    assert_eq!(StatusCode::Success.name(), "success");
    assert_eq!(StatusCode::NotFound.name(), "not found");
    assert_eq!(StatusCode::StorageError.name(), "storage error");
    assert_eq!(StatusCode::EncryptionError.name(), "encryption error");
    assert_eq!(StatusCode::DecryptionError.name(), "decryption error");
    assert_eq!(StatusCode::FatalError.name(), "fatal error");
}
