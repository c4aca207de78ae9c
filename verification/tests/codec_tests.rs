use selling_lock::codec::{decode, encode};
use selling_lock::types::{Error, LockDescriptor};

fn lock(code: u8, hash_type: u8, args: Vec<u8>) -> LockDescriptor {
    LockDescriptor { code_hash: vec![code; 32], hash_type, args }
}

#[test]
fn encode_exact_bytes() {
    let owner = lock(0x11, 7, vec![1, 2, 3]);
    let bytes = encode(&owner, 0x0102030405060708);
    let mut expected = vec![0x11u8; 32];
    expected.push(7);
    expected.extend_from_slice(&[1, 2, 3]);
    expected.extend_from_slice(&[0x08, 0x07, 0x06, 0x05, 0x04, 0x03, 0x02, 0x01]);
    assert_eq!(bytes, expected);
}

#[test]
fn decode_recovers_encoded_owner_and_price() {
    let owner = lock(0x42, 1, vec![8]);
    let bytes = encode(&owner, 500);
    let info = decode(&bytes).expect("well-formed args must decode");
    assert_eq!(info.owner_lock.code_hash, owner.code_hash);
    assert_eq!(info.owner_lock.hash_type, owner.hash_type);
    assert_eq!(info.owner_lock.args, owner.args);
    assert_eq!(info.price, 500);
}

#[test]
fn decode_recovers_empty_owner_args_and_extreme_prices() {
    for price in [0u64, 1, u64::MAX] {
        let owner = lock(0x00, 0, vec![]);
        let bytes = encode(&owner, price);
        assert_eq!(bytes.len(), 41);
        let info = decode(&bytes).expect("well-formed args must decode");
        assert_eq!(info.owner_lock.code_hash, owner.code_hash);
        assert_eq!(info.owner_lock.hash_type, owner.hash_type);
        assert!(info.owner_lock.args.is_empty());
        assert_eq!(info.price, price);
    }
}

#[test]
fn decode_rejects_short_args() {
    for len in 0..41usize {
        let args = vec![0xFFu8; len];
        assert!(matches!(decode(&args), Err(Error::InvalidArgs)));
    }
}

#[test]
fn decode_accepts_any_args_of_minimum_length() {
    // No upper-bound validation: any field of at least 41 bytes decodes.
    let mut args: Vec<u8> = (0u8..45).collect();
    args.extend_from_slice(&[0x2C, 0x01, 0, 0, 0, 0, 0, 0]);
    let info = decode(&args).expect("long args must decode");
    assert_eq!(info.owner_lock.code_hash, (0u8..32).collect::<Vec<u8>>());
    assert_eq!(info.owner_lock.hash_type, 32);
    assert_eq!(info.owner_lock.args, (33u8..45).collect::<Vec<u8>>());
    assert_eq!(info.price, 300);
}
