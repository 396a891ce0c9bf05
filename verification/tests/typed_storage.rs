use typed_kv::context::Context;
use typed_kv::key::Key;
use typed_kv::storage::Storage;
use typed_kv::StorageError;

#[test]
fn u64_round_trips_exactly() {
    let mut store = Storage::new();
    let key = Key::TotalSupply.to_storage_key();
    store.store_u64(&key, 42).unwrap();
    assert_eq!(store.get_u64(&key), Ok(42));
    store.store_u64(&key, 0).unwrap();
    assert_eq!(store.get_u64(&key), Ok(0));
    store.store_u64(&key, u64::MAX).unwrap();
    assert_eq!(store.get_u64(&key), Ok(u64::MAX));
}

#[test]
fn u64_is_stored_as_8_little_endian_bytes() {
    let mut store = Storage::new();
    let key = Key::Counter.to_storage_key();
    store.store_u64(&key, 0x0102030405060708).unwrap();
    let raw = store.raw_get(&key).unwrap();
    assert_eq!(raw, vec![8u8, 7, 6, 5, 4, 3, 2, 1]);
}

#[test]
fn i64_round_trips_exactly() {
    let mut store = Storage::new();
    let key = Key::Balance(Context::zero()).to_storage_key();
    for value in [0i64, 1, -1, i64::MAX, i64::MIN] {
        store.store_i64(&key, value).unwrap();
        assert_eq!(store.get_i64(&key), Ok(value));
    }
}

#[test]
fn i64_is_stored_as_8_twos_complement_little_endian_bytes() {
    let mut store = Storage::new();
    let key = Key::Counter.to_storage_key();
    store.store_i64(&key, -2).unwrap();
    let raw = store.raw_get(&key).unwrap();
    assert_eq!(raw, vec![254u8, 255, 255, 255, 255, 255, 255, 255]);
}

#[test]
fn wrong_width_bytes_fail_deserialization_as_i64() {
    let mut store = Storage::new();
    let key = Key::Counter.to_storage_key();
    store.raw_put(&key, vec![1u8, 2, 3]).unwrap();
    assert_eq!(store.get_i64(&key), Err(StorageError::Deserialization));
    assert_eq!(store.get_u64(&key), Err(StorageError::Deserialization));
}

#[test]
fn bytes_round_trip_exactly() {
    let mut store = Storage::new();
    let key = Key::Name.to_storage_key();
    let value = b"My NFT".to_vec();
    store.store_bytes(&key, &value).unwrap();
    assert_eq!(store.get_bytes(&key), Ok(value));
    let empty: Vec<u8> = Vec::new();
    store.store_bytes(&key, &empty).unwrap();
    assert_eq!(store.get_bytes(&key), Ok(empty));
}

#[test]
fn bytes_are_stored_with_a_length_prefix() {
    let mut store = Storage::new();
    let key = Key::Symbol.to_storage_key();
    store.store_bytes(&key, &b"MNFT".to_vec()).unwrap();
    let raw = store.raw_get(&key).unwrap();
    assert_eq!(raw, vec![4u8, 0, 0, 0, b'M', b'N', b'F', b'T']);
}

#[test]
fn context_round_trips_exactly() {
    let mut store = Storage::new();
    let key = Key::Owner.to_storage_key();
    let mut id = [0u8; 32];
    id[5] = 200;
    let owner = Context::new(id);
    store.store_context(&key, &owner).unwrap();
    assert_eq!(store.get_context(&key), Ok(owner));
}

#[test]
fn context_is_stored_as_its_raw_32_bytes() {
    let mut store = Storage::new();
    let key = Key::Owner.to_storage_key();
    let id = [13u8; 32];
    store.store_context(&key, &Context::new(id)).unwrap();
    let raw = store.raw_get(&key).unwrap();
    assert_eq!(raw, id.to_vec());
}

#[test]
fn absent_key_is_not_found_not_a_default() {
    let store = Storage::new();
    let key = Key::Counter.to_storage_key();
    assert_eq!(store.get_u64(&key), Err(StorageError::NotFound));
    assert_eq!(store.get_bytes(&key), Err(StorageError::NotFound));
    assert_eq!(store.get_context(&key), Err(StorageError::NotFound));
    assert_eq!(store.raw_get(&key), Err(StorageError::NotFound));
}

#[test]
fn a_store_leaves_other_keys_absent() {
    let mut store = Storage::new();
    store.store_u64(&Key::TotalSupply.to_storage_key(), 1).unwrap();
    store
        .store_bytes(&Key::Name.to_storage_key(), &b"My NFT".to_vec())
        .unwrap();
    let unwritten = Key::Balance(Context::zero()).to_storage_key();
    assert_eq!(store.get_u64(&unwritten), Err(StorageError::NotFound));
}

#[test]
fn overwrite_leaves_only_the_second_value() {
    let mut store = Storage::new();
    let key = Key::Counter.to_storage_key();
    store.store_u64(&key, 1).unwrap();
    store.store_u64(&key, 2).unwrap();
    assert_eq!(store.get_u64(&key), Ok(2));
    let other = Key::TotalSupply.to_storage_key();
    store.store_u64(&other, 10).unwrap();
    store.store_u64(&key, 3).unwrap();
    assert_eq!(store.get_u64(&key), Ok(3));
    assert_eq!(store.get_u64(&other), Ok(10));
}

#[test]
fn wrong_width_bytes_fail_deserialization_as_u64() {
    let mut store = Storage::new();
    let key = Key::Counter.to_storage_key();
    // A length-prefixed byte string is stored at the key; reading it back
    // as an integer must fail loudly, never coerce to a default.
    store.store_bytes(&key, &b"My NFT".to_vec()).unwrap();
    assert_eq!(store.get_u64(&key), Err(StorageError::Deserialization));
}

#[test]
fn truncated_bytes_fail_deserialization_as_byte_string() {
    let mut store = Storage::new();
    let key = Key::Name.to_storage_key();
    // A prefix that claims five bytes with none following.
    store.raw_put(&key, vec![5u8, 0, 0, 0]).unwrap();
    assert_eq!(store.get_bytes(&key), Err(StorageError::Deserialization));
}

#[test]
fn trailing_bytes_fail_deserialization_as_byte_string() {
    let mut store = Storage::new();
    let key = Key::Name.to_storage_key();
    // A prefix that claims one byte with two following.
    store.raw_put(&key, vec![1u8, 0, 0, 0, 7, 7]).unwrap();
    assert_eq!(store.get_bytes(&key), Err(StorageError::Deserialization));
}

#[test]
fn wrong_width_bytes_fail_deserialization_as_context() {
    let mut store = Storage::new();
    let key = Key::Owner.to_storage_key();
    store.store_u64(&key, 1).unwrap();
    assert_eq!(
        store.get_context(&key),
        Err(StorageError::Deserialization)
    );
}

#[test]
fn raw_layer_round_trips_and_overwrites() {
    let mut store = Storage::new();
    let key = vec![200u8, 1];
    store.raw_put(&key, vec![1u8, 2, 3]).unwrap();
    assert_eq!(store.raw_get(&key), Ok(vec![1u8, 2, 3]));
    store.raw_put(&key, Vec::new()).unwrap();
    assert_eq!(store.raw_get(&key), Ok(Vec::new()));
}

#[test]
fn end_to_end_single_token_lifecycle() {
    let mut store = Storage::new();

    // Initialize the token records.
    store
        .store_bytes(&Key::Name.to_storage_key(), &b"My NFT".to_vec())
        .unwrap();
    store
        .store_bytes(&Key::Symbol.to_storage_key(), &b"MNFT".to_vec())
        .unwrap();
    store.store_u64(&Key::TotalSupply.to_storage_key(), 1).unwrap();

    // Mint to address a: an absent counter reads as zero at the call
    // site, never inside the storage layer.
    let a = Context::new([7u8; 32]);
    let counter = match store.get_u64(&Key::Counter.to_storage_key()) {
        Ok(v) => v,
        Err(StorageError::NotFound) => 0,
        Err(e) => panic!("counter read failed: {:?}", e),
    };
    let counter = counter + 1;
    let supply = store.get_u64(&Key::TotalSupply.to_storage_key()).unwrap();
    assert!(counter <= supply, "max supply exceeded");
    store.store_u64(&Key::Counter.to_storage_key(), counter).unwrap();
    store.store_u64(&Key::Balance(a).to_storage_key(), 1).unwrap();
    store.store_context(&Key::Owner.to_storage_key(), &a).unwrap();

    // Burn from a: only the owner may burn, and only what it holds.
    let owner = store.get_context(&Key::Owner.to_storage_key()).unwrap();
    assert_eq!(owner, a, "only the owner can burn");
    let balance = store.get_u64(&Key::Balance(a).to_storage_key()).unwrap();
    assert!(balance >= 1, "burned amount exceeds balance");
    store
        .store_u64(&Key::Balance(a).to_storage_key(), balance - 1)
        .unwrap();
    store
        .store_context(&Key::Owner.to_storage_key(), &Context::zero())
        .unwrap();

    // Final state: the owner is the zero sentinel, the balance is zero,
    // and the metadata records are untouched.
    assert_eq!(
        store.get_context(&Key::Owner.to_storage_key()),
        Ok(Context::zero())
    );
    assert_eq!(store.get_u64(&Key::Balance(a).to_storage_key()), Ok(0));
    assert_eq!(
        store.get_bytes(&Key::Name.to_storage_key()),
        Ok(b"My NFT".to_vec())
    );
    assert_eq!(store.get_u64(&Key::TotalSupply.to_storage_key()), Ok(1));
}
