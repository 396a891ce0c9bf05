use typed_kv::context::Context;
use typed_kv::key::Key;

#[test]
fn simple_variants_encode_to_their_tag_byte() {
    assert_eq!(Key::TotalSupply.to_storage_key(), vec![0u8]);
    assert_eq!(Key::Name.to_storage_key(), vec![1u8]);
    assert_eq!(Key::Symbol.to_storage_key(), vec![2u8]);
    assert_eq!(Key::Metadata.to_storage_key(), vec![3u8]);
    assert_eq!(Key::Counter.to_storage_key(), vec![5u8]);
    assert_eq!(Key::Owner.to_storage_key(), vec![6u8]);
}

#[test]
fn balance_encodes_tag_then_parameter_bytes() {
    let mut id = [0u8; 32];
    id[0] = 170;
    id[31] = 85;
    let key = Key::Balance(Context::new(id)).to_storage_key();
    assert_eq!(key.len(), 33);
    assert_eq!(key[0], 4u8);
    assert_eq!(&key[1..], &id[..]);
}

#[test]
fn encoding_is_deterministic() {
    let id = Context::new([11u8; 32]);
    assert_eq!(
        Key::Balance(id).to_storage_key(),
        Key::Balance(id).to_storage_key()
    );
    assert_eq!(Key::Owner.to_storage_key(), Key::Owner.to_storage_key());
}

#[test]
fn distinct_keys_never_collide() {
    // Every variant of the key space, with adversarial parameters: a
    // parameter starting with a tag byte cannot imitate another key.
    let zero = Context::new([0u8; 32]);
    let mut tricky_bytes = [0u8; 32];
    tricky_bytes[0] = 6;
    let tricky = Context::new(tricky_bytes);
    let keys = vec![
        Key::TotalSupply.to_storage_key(),
        Key::Name.to_storage_key(),
        Key::Symbol.to_storage_key(),
        Key::Metadata.to_storage_key(),
        Key::Balance(zero).to_storage_key(),
        Key::Balance(tricky).to_storage_key(),
        Key::Counter.to_storage_key(),
        Key::Owner.to_storage_key(),
    ];
    for i in 0..keys.len() {
        for j in 0..keys.len() {
            if i != j {
                assert_ne!(keys[i], keys[j]);
            }
        }
    }
}

#[test]
fn parameter_content_cannot_produce_a_simple_key() {
    // The simple variant tagged 0 against the parameterized variant
    // tagged 4: no 32-byte parameter content can make them collide.
    let supply = Key::TotalSupply.to_storage_key();
    for fill in [0u8, 1, 4, 255] {
        let balance = Key::Balance(Context::new([fill; 32])).to_storage_key();
        assert_ne!(supply, balance);
    }
}
