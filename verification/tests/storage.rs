use namada_airdrop::address::Address;
use namada_airdrop::storage::{init_storage, is_nullifier_revealed, reveal_nullifier, Storage};
use namada_airdrop::storage_key::{
    airdrop_nullifier_key, sapling_note_commitment_root_key, sapling_nullifier_gap_root_key,
    sapling_value_commitment_scheme_key, sapling_verifying_key, DbKeySeg, Key,
};
use namada_airdrop::zkproof::{SaplingConfiguration, ValueCommitmentScheme};

fn key(name: &str) -> Key {
    Key {
        segments: vec![
            DbKeySeg::AddressSeg(Address::Airdrop),
            DbKeySeg::StringSeg(name.to_string()),
        ],
    }
}

#[test]
fn new_storage_is_empty() {
    let storage = Storage::new();
    assert!(!storage.has_key(&key("a")));
    assert_eq!(storage.read_bytes(&key("a")), None);
}

#[test]
fn write_then_read() {
    let mut storage = Storage::new();
    storage.write_bytes(key("a"), vec![1, 2, 3]);
    assert!(storage.has_key(&key("a")));
    assert_eq!(storage.read_bytes(&key("a")), Some(vec![1, 2, 3]));
    assert!(!storage.has_key(&key("b")));
    assert_eq!(storage.read_bytes(&key("b")), None);
}

#[test]
fn latest_write_counts() {
    let mut storage = Storage::new();
    storage.write_bytes(key("a"), vec![1]);
    storage.write_bytes(key("b"), vec![2]);
    storage.write_bytes(key("a"), vec![3, 4]);
    assert_eq!(storage.read_bytes(&key("a")), Some(vec![3, 4]));
    assert_eq!(storage.read_bytes(&key("b")), Some(vec![2]));
}

#[test]
fn empty_value_is_a_record() {
    let mut storage = Storage::new();
    storage.write_bytes(key("a"), vec![]);
    assert!(storage.has_key(&key("a")));
    assert_eq!(storage.read_bytes(&key("a")), Some(vec![]));
}

#[test]
fn storage_clone_is_independent() {
    let mut storage = Storage::new();
    storage.write_bytes(key("a"), vec![1]);
    let copy = storage.clone();
    storage.write_bytes(key("a"), vec![2]);
    storage.write_bytes(key("b"), vec![3]);
    assert_eq!(copy.read_bytes(&key("a")), Some(vec![1]));
    assert_eq!(copy.read_bytes(&key("b")), None);
    assert_eq!(storage.read_bytes(&key("a")), Some(vec![2]));
}

#[test]
fn reveal_writes_an_empty_value_under_the_nullifier_key() {
    let mut storage = Storage::new();
    let nullifier = [7u8; 32];
    assert!(!is_nullifier_revealed(&storage, &nullifier));
    reveal_nullifier(&mut storage, &nullifier);
    assert!(is_nullifier_revealed(&storage, &nullifier));
    assert_eq!(storage.read_bytes(&airdrop_nullifier_key(&nullifier)), Some(vec![]));
}

#[test]
fn reveal_touches_no_other_nullifier() {
    let mut storage = Storage::new();
    storage.write_bytes(key("a"), vec![1]);
    reveal_nullifier(&mut storage, &[7u8; 32]);
    assert!(!is_nullifier_revealed(&storage, &[8u8; 32]));
    assert_eq!(storage.read_bytes(&key("a")), Some(vec![1]));
}

#[test]
fn revealed_means_a_record_whatever_it_holds() {
    let mut storage = Storage::new();
    storage.write_bytes(airdrop_nullifier_key(&[9u8; 32]), vec![1, 2]);
    assert!(is_nullifier_revealed(&storage, &[9u8; 32]));
}

#[test]
fn init_storage_writes_the_four_parameters() {
    let mut storage = Storage::new();
    init_storage(
        &mut storage,
        SaplingConfiguration {
            verifying_key: vec![1, 2, 3, 4, 5],
            note_commitment_root: [0x11; 32],
            nullifier_gap_root: [0x22; 32],
            value_commitment_scheme: ValueCommitmentScheme::Sha256,
        },
    );
    assert_eq!(storage.read_bytes(&sapling_verifying_key()), Some(vec![1, 2, 3, 4, 5]));
    assert_eq!(storage.read_bytes(&sapling_note_commitment_root_key()), Some(vec![0x11; 32]));
    assert_eq!(storage.read_bytes(&sapling_nullifier_gap_root_key()), Some(vec![0x22; 32]));
    assert_eq!(storage.read_bytes(&sapling_value_commitment_scheme_key()), Some(vec![1]));
}

#[test]
fn init_storage_writes_native_as_zero() {
    let mut storage = Storage::new();
    init_storage(
        &mut storage,
        SaplingConfiguration {
            verifying_key: vec![],
            note_commitment_root: [0; 32],
            nullifier_gap_root: [0; 32],
            value_commitment_scheme: ValueCommitmentScheme::Native,
        },
    );
    assert_eq!(storage.read_bytes(&sapling_value_commitment_scheme_key()), Some(vec![0]));
}

#[test]
fn init_storage_keeps_what_was_there() {
    let mut storage = Storage::new();
    storage.write_bytes(key("a"), vec![1]);
    reveal_nullifier(&mut storage, &[7u8; 32]);
    init_storage(
        &mut storage,
        SaplingConfiguration {
            verifying_key: vec![9],
            note_commitment_root: [1; 32],
            nullifier_gap_root: [2; 32],
            value_commitment_scheme: ValueCommitmentScheme::Native,
        },
    );
    assert_eq!(storage.read_bytes(&key("a")), Some(vec![1]));
    assert!(is_nullifier_revealed(&storage, &[7u8; 32]));
}
