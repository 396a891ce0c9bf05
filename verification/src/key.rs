//! The key space: the closed set of logical storage locations.
//!
//! Each variant of [`Key`] names one logical location. A variant encodes to
//! a storage key of one fixed tag byte followed by the parameter bytes, if
//! the variant carries a parameter. Tags are assigned at design time and
//! never overlap, and every parameter has the same fixed width, so the
//! encoding is injective across the whole key space: no two distinct
//! (variant, parameter) combinations share a storage key.
//!
//! Tag assignment is part of the storage format: reordering the variants
//! would change every key's byte encoding, a breaking change to all
//! persisted state, and must never be done silently.

use vstd::prelude::*;

use crate::context::Context;

verus! {

/// A logical storage location, before it is encoded to bytes.
#[derive(Clone, Copy, Debug)]
pub enum Key {
    /// The total supply of the token. Tag byte 0.
    TotalSupply,
    /// The name of the token. Tag byte 1.
    Name,
    /// The symbol of the token. Tag byte 2.
    Symbol,
    /// Metadata of the token. Tag byte 3.
    Metadata,
    /// Balance of an account, parameterized by its identifier. Tag byte 4,
    /// followed by the 32 identifier bytes.
    Balance(Context),
    /// Counter of tokens minted so far. Tag byte 5.
    Counter,
    /// The current owner of the token. Tag byte 6.
    Owner,
}

impl Key {
    /// The fixed tag byte of this variant.
    pub open spec fn spec_tag(self) -> u8 {
        match self {
            Key::TotalSupply => 0,
            Key::Name => 1,
            Key::Symbol => 2,
            Key::Metadata => 3,
            Key::Balance(_) => 4,
            Key::Counter => 5,
            Key::Owner => 6,
        }
    }

    /// The storage key this variant encodes to: the tag byte followed by
    /// the parameter bytes, if any.
    pub open spec fn spec_storage_key(self) -> Seq<u8> {
        match self {
            Key::Balance(ctx) => seq![4u8] + ctx@,
            _ => seq![self.spec_tag()],
        }
    }

    /// Encodes this logical key to its storage key. Deterministic, cannot
    /// fail, and injective across the whole key space
    /// (see [`lemma_storage_key_injective`]).
    #[must_use]
    pub fn to_storage_key(&self) -> (r: Vec<u8>)
        ensures
            r@ == self.spec_storage_key(),
    {
        let mut r: Vec<u8> = Vec::new();
        match self {
            Key::TotalSupply => r.push(0u8),
            Key::Name => r.push(1u8),
            Key::Symbol => r.push(2u8),
            Key::Metadata => r.push(3u8),
            Key::Balance(ctx) => {
                r.push(4u8);
                let mut param = vstd::slice::slice_to_vec(ctx.as_bytes());
                r.append(&mut param);
            },
            Key::Counter => r.push(5u8),
            Key::Owner => r.push(6u8),
        }
        proof {
            assert(r@ =~= self.spec_storage_key());
        }
        r
    }
}

/// Injectivity of the key encoding: two keys with the same storage key are
/// the same logical key, for every choice of parameter. In particular no
/// parameter content of a parameterized variant can ever produce the
/// storage key of a parameterless variant, because the tag byte comes
/// first and tags are distinct.
pub proof fn lemma_storage_key_injective(a: Key, b: Key)
    ensures
        a.spec_storage_key() == b.spec_storage_key() ==> a == b,
{
    if a.spec_storage_key() == b.spec_storage_key() {
        assert(a.spec_storage_key()[0] == a.spec_tag());
        assert(b.spec_storage_key()[0] == b.spec_tag());
        match (a, b) {
            (Key::Balance(ca), Key::Balance(cb)) => {
                Context::lemma_view_len(ca);
                Context::lemma_view_len(cb);
                assert forall|i: int| 0 <= i < 32 implies ca@[i] == cb@[i] by {
                    assert(ca@[i] == (seq![4u8] + ca@)[i + 1]);
                    assert(cb@[i] == (seq![4u8] + cb@)[i + 1]);
                }
                assert(ca@ =~= cb@);
                Context::lemma_view_injective(ca, cb);
            },
            _ => {
            },
        }
    }
}

} // verus!
