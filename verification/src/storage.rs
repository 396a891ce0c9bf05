//! The typed storage port over an in-memory byte-oriented backend.
//!
//! [`Storage`] keeps raw (key, value) byte pairs and is viewed as the map
//! from storage keys to the raw bytes stored at them. The raw layer puts
//! and gets byte strings; the typed layer serializes a value before the
//! raw put and deserializes after the raw get, failing with
//! [`StorageError::NotFound`] on a key never written and with
//! [`StorageError::Deserialization`] on bytes that do not parse as the
//! requested type — the two are never conflated and no default is ever
//! invented. A store overwrites any prior value at its key; within one
//! storage instance a get after a store to the same key returns exactly
//! the just-stored value.

use vstd::bytes::*;
use vstd::prelude::*;

use crate::codec::{
    borsh_decode_bytes, borsh_decode_i64, borsh_decode_id, borsh_decode_u64, borsh_encode_bytes,
    borsh_encode_i64, borsh_encode_id, borsh_encode_u64, lemma_bytes_round_trip,
    lemma_i64_round_trip, lemma_u64_round_trip, spec_bytes_decodes, spec_bytes_enc, spec_i64_enc,
};
use crate::context::Context;
use crate::StorageError;

verus! {

/// One raw (storage key, stored bytes) pair.
struct Entry {
    key: Vec<u8>,
    value: Vec<u8>,
}

/// The raw byte-oriented store behind the typed port, viewed as a map
/// from storage keys to raw value bytes.
pub struct Storage {
    entries: Vec<Entry>,
}

/// The raw bytes most recently stored under `key`, if any: entries written
/// later overwrite earlier ones.
spec fn lookup(entries: Seq<Entry>, key: Seq<u8>) -> Option<Seq<u8>>
    decreases entries.len(),
{
    if entries.len() == 0 {
        None
    } else if entries.last().key@ == key {
        Some(entries.last().value@)
    } else {
        lookup(entries.drop_last(), key)
    }
}

proof fn lemma_lookup_at(entries: Seq<Entry>, key: Seq<u8>, i: int)
    requires
        0 <= i < entries.len(),
        entries[i].key@ == key,
        forall|j: int| i < j < entries.len() ==> entries[j].key@ != key,
    ensures
        lookup(entries, key) == Some(entries[i].value@),
    decreases entries.len(),
{
    if i < entries.len() - 1 {
        assert(entries.last().key@ != key);
        lemma_lookup_at(entries.drop_last(), key, i);
    }
}

proof fn lemma_lookup_absent(entries: Seq<Entry>, key: Seq<u8>)
    requires
        forall|j: int| 0 <= j < entries.len() ==> entries[j].key@ != key,
    ensures
        lookup(entries, key) is None,
    decreases entries.len(),
{
    if entries.len() > 0 {
        lemma_lookup_absent(entries.drop_last(), key);
    }
}

impl View for Storage {
    type V = Map<Seq<u8>, Seq<u8>>;

    closed spec fn view(&self) -> Map<Seq<u8>, Seq<u8>> {
        Map::new(
            |k: Seq<u8>| lookup(self.entries@, k) is Some,
            |k: Seq<u8>| lookup(self.entries@, k).unwrap(),
        )
    }
}

impl Storage {
    /// A fresh storage instance holding nothing: every key is absent.
    #[must_use]
    pub fn new() -> (r: Self)
        ensures
            r@ == Map::<Seq<u8>, Seq<u8>>::empty(),
    {
        let r = Storage { entries: Vec::new() };
        proof {
            assert(r@ =~= Map::<Seq<u8>, Seq<u8>>::empty());
        }
        r
    }

    /// Raw write: records `value` as the bytes stored under `key`,
    /// overwriting whatever was there. This backend cannot reject a write.
    pub fn raw_put(&mut self, key: &Vec<u8>, value: Vec<u8>) -> (r: Result<(), StorageError>)
        ensures
            r == Ok::<(), StorageError>(()),
            final(self)@ == old(self)@.insert(key@, value@),
    {
        let owned_key = vstd::slice::slice_to_vec(key.as_slice());
        let ghost value_view = value@;
        self.entries.push(Entry { key: owned_key, value });
        proof {
            let pre = old(self).entries@;
            let post = self.entries@;
            assert(post.drop_last() =~= pre);
            assert forall|k: Seq<u8>| #![auto] k != key@ implies lookup(post, k) == lookup(
                pre,
                k,
            ) by {
                assert(post.last().key@ == key@);
            }
            assert(lookup(post, key@) == Some(value_view));
            assert(self@ =~= old(self)@.insert(key@, value_view));
        }
        Ok(())
    }

    /// Raw read: the bytes most recently stored under `key`, or
    /// `NotFound` if this instance has never stored anything there.
    pub fn raw_get(&self, key: &Vec<u8>) -> (r: Result<Vec<u8>, StorageError>)
        ensures
            self@.contains_key(key@) ==> (r matches Ok(v) && v@ == self@[key@]),
            !self@.contains_key(key@) ==> r == Err::<Vec<u8>, StorageError>(StorageError::NotFound),
    {
        let mut i: usize = self.entries.len();
        while i > 0
            invariant
                i <= self.entries@.len(),
                forall|j: int| i <= j < self.entries@.len() ==> self.entries@[j].key@ != key@,
            decreases i,
        {
            i = i - 1;
            let e = &self.entries[i];
            if e.key == *key {
                proof {
                    assert(e.key@ =~= key@);
                    lemma_lookup_at(self.entries@, key@, i as int);
                }
                return Ok(vstd::slice::slice_to_vec(e.value.as_slice()));
            }
            proof {
                if e.key@ == key@ {
                    assert(e.key@.len() == key@.len());
                    assert(false);
                }
            }
        }
        proof {
            lemma_lookup_absent(self.entries@, key@);
        }
        Err(StorageError::NotFound)
    }

    /// Stores an integer under `key`, overwriting any prior value there:
    /// the bytes at `key` become its 8-byte little-endian serialized form.
    pub fn store_u64(&mut self, key: &Vec<u8>, value: u64) -> (r: Result<(), StorageError>)
        ensures
            r == Ok::<(), StorageError>(()),
            final(self)@ == old(self)@.insert(key@, spec_u64_to_le_bytes(value)),
    {
        let bytes = borsh_encode_u64(value);
        self.raw_put(key, bytes)
    }

    /// Reads back the integer stored under `key`: `NotFound` on a key
    /// never written, `Deserialization` unless the stored bytes are the
    /// serialized form of an integer, and otherwise exactly the integer
    /// whose serialized form they are.
    pub fn get_u64(&self, key: &Vec<u8>) -> (r: Result<u64, StorageError>)
        ensures
            !self@.contains_key(key@) ==> r == Err::<u64, StorageError>(StorageError::NotFound),
            self@.contains_key(key@) && self@[key@].len() == 8 ==> (r matches Ok(v)
                && spec_u64_to_le_bytes(v) == self@[key@] && v == spec_u64_from_le_bytes(
                self@[key@],
            )),
            self@.contains_key(key@) && self@[key@].len() != 8 ==> r == Err::<u64, StorageError>(
                StorageError::Deserialization,
            ),
    {
        let raw = match self.raw_get(key) {
            Ok(raw) => raw,
            Err(e) => {
                return Err(e);
            },
        };
        match borsh_decode_u64(&raw) {
            Some(v) => {
                proof {
                    lemma_auto_spec_u64_to_from_le_bytes();
                }
                Ok(v)
            },
            None => Err(StorageError::Deserialization),
        }
    }

    /// Stores a signed integer under `key`, overwriting any prior value
    /// there: the bytes at `key` become its 8-byte little-endian
    /// two's-complement serialized form.
    pub fn store_i64(&mut self, key: &Vec<u8>, value: i64) -> (r: Result<(), StorageError>)
        ensures
            r == Ok::<(), StorageError>(()),
            final(self)@ == old(self)@.insert(key@, spec_i64_enc(value)),
    {
        let bytes = borsh_encode_i64(value);
        self.raw_put(key, bytes)
    }

    /// Reads back the signed integer stored under `key`: `NotFound` on a
    /// key never written, `Deserialization` unless the stored bytes are
    /// the serialized form of a signed integer, and otherwise exactly the
    /// integer whose serialized form they are.
    pub fn get_i64(&self, key: &Vec<u8>) -> (r: Result<i64, StorageError>)
        ensures
            !self@.contains_key(key@) ==> r == Err::<i64, StorageError>(StorageError::NotFound),
            self@.contains_key(key@) && self@[key@].len() == 8 ==> (r matches Ok(v)
                && spec_i64_enc(v) == self@[key@] && v == spec_u64_from_le_bytes(
                self@[key@],
            ) as i64),
            self@.contains_key(key@) && self@[key@].len() != 8 ==> r == Err::<i64, StorageError>(
                StorageError::Deserialization,
            ),
    {
        let raw = match self.raw_get(key) {
            Ok(raw) => raw,
            Err(e) => {
                return Err(e);
            },
        };
        match borsh_decode_i64(&raw) {
            Some(v) => {
                proof {
                    lemma_i64_round_trip(v, v);
                }
                Ok(v)
            },
            None => Err(StorageError::Deserialization),
        }
    }

    /// Stores a byte string under `key`, overwriting any prior value
    /// there: the bytes at `key` become its length-prefixed serialized
    /// form. The length must fit the fixed 4-byte prefix.
    pub fn store_bytes(&mut self, key: &Vec<u8>, value: &Vec<u8>) -> (r: Result<
        (),
        StorageError,
    >)
        requires
            value@.len() <= u32::MAX,
        ensures
            r == Ok::<(), StorageError>(()),
            final(self)@ == old(self)@.insert(key@, spec_bytes_enc(value@)),
    {
        let bytes = borsh_encode_bytes(value);
        self.raw_put(key, bytes)
    }

    /// Reads back the byte string stored under `key`: `NotFound` on a key
    /// never written, `Deserialization` unless the stored bytes carry a
    /// length prefix accounting for exactly the rest, and otherwise the
    /// stored bytes with the prefix stripped.
    pub fn get_bytes(&self, key: &Vec<u8>) -> (r: Result<Vec<u8>, StorageError>)
        ensures
            !self@.contains_key(key@) ==> r == Err::<Vec<u8>, StorageError>(
                StorageError::NotFound,
            ),
            self@.contains_key(key@) && spec_bytes_decodes(self@[key@]) ==> (r matches Ok(d)
                && d@ == self@[key@].skip(4)),
            self@.contains_key(key@) && !spec_bytes_decodes(self@[key@]) ==> r == Err::<
                Vec<u8>,
                StorageError,
            >(StorageError::Deserialization),
    {
        let raw = match self.raw_get(key) {
            Ok(raw) => raw,
            Err(e) => {
                return Err(e);
            },
        };
        match borsh_decode_bytes(&raw) {
            Some(d) => Ok(d),
            None => Err(StorageError::Deserialization),
        }
    }

    /// Stores an identifier under `key`, overwriting any prior value
    /// there: the bytes at `key` become its 32 bytes, unadorned.
    pub fn store_context(&mut self, key: &Vec<u8>, value: &Context) -> (r: Result<
        (),
        StorageError,
    >)
        ensures
            r == Ok::<(), StorageError>(()),
            final(self)@ == old(self)@.insert(key@, value@),
    {
        let arr = value.to_array();
        let bytes = borsh_encode_id(&arr);
        self.raw_put(key, bytes)
    }

    /// Reads back the identifier stored under `key`: `NotFound` on a key
    /// never written, `Deserialization` unless exactly 32 bytes are
    /// stored, and otherwise the identifier of those 32 bytes.
    pub fn get_context(&self, key: &Vec<u8>) -> (r: Result<Context, StorageError>)
        ensures
            !self@.contains_key(key@) ==> r == Err::<Context, StorageError>(
                StorageError::NotFound,
            ),
            self@.contains_key(key@) && self@[key@].len() == 32 ==> (r matches Ok(c) && c@
                == self@[key@]),
            self@.contains_key(key@) && self@[key@].len() != 32 ==> r == Err::<
                Context,
                StorageError,
            >(StorageError::Deserialization),
    {
        let raw = match self.raw_get(key) {
            Ok(raw) => raw,
            Err(e) => {
                return Err(e);
            },
        };
        match borsh_decode_id(&raw) {
            Some(arr) => Ok(Context::new(arr)),
            None => Err(StorageError::Deserialization),
        }
    }
}

/// Round trip for stored integers: after a store of `v` at `k` the bytes
/// at `k` are the 8-byte serialized form of `v` and deserialize to `v`
/// alone, so a get of `k` returns exactly `Ok(v)`.
pub proof fn lemma_store_get_u64(m: Map<Seq<u8>, Seq<u8>>, k: Seq<u8>, v: u64)
    ensures
        m.insert(k, spec_u64_to_le_bytes(v)).contains_key(k),
        m.insert(k, spec_u64_to_le_bytes(v))[k].len() == 8,
        spec_u64_from_le_bytes(m.insert(k, spec_u64_to_le_bytes(v))[k]) == v,
{
    lemma_u64_round_trip(v, v);
}

/// Round trip for stored signed integers: after a store of `v` at `k` the
/// bytes at `k` are the 8-byte serialized form of `v` and deserialize to
/// `v` alone, so a get of `k` returns exactly `Ok(v)`.
pub proof fn lemma_store_get_i64(m: Map<Seq<u8>, Seq<u8>>, k: Seq<u8>, v: i64)
    ensures
        m.insert(k, spec_i64_enc(v)).contains_key(k),
        m.insert(k, spec_i64_enc(v))[k].len() == 8,
        spec_u64_from_le_bytes(m.insert(k, spec_i64_enc(v))[k]) as i64 == v,
{
    lemma_i64_round_trip(v, v);
}

/// Round trip for stored byte strings: after a store of `data` at `k` the
/// bytes at `k` are the length-prefixed serialized form of `data` and
/// strip back to `data` alone, so a get of `k` returns exactly
/// `Ok(data)`.
pub proof fn lemma_store_get_bytes(m: Map<Seq<u8>, Seq<u8>>, k: Seq<u8>, data: Seq<u8>)
    requires
        data.len() <= u32::MAX,
    ensures
        m.insert(k, spec_bytes_enc(data)).contains_key(k),
        spec_bytes_decodes(m.insert(k, spec_bytes_enc(data))[k]),
        m.insert(k, spec_bytes_enc(data))[k].skip(4) == data,
{
    lemma_bytes_round_trip(data);
}

/// Round trip for stored identifiers: after a store of `c` at `k` the
/// bytes at `k` are the 32 bytes of `c`, and an identifier with those
/// bytes is `c` itself, so a get of `k` returns exactly `Ok(c)`.
pub proof fn lemma_store_get_context(m: Map<Seq<u8>, Seq<u8>>, k: Seq<u8>, c: Context)
    ensures
        m.insert(k, c@).contains_key(k),
        m.insert(k, c@)[k].len() == 32,
        forall|d: Context| d@ == m.insert(k, c@)[k] ==> d == c,
{
    Context::lemma_view_len(c);
    assert forall|d: Context| d@ == m.insert(k, c@)[k] implies d == c by {
        Context::lemma_view_injective(d, c);
    }
}

/// Absence: a fresh storage instance holds no key, and a store leaves
/// every other key exactly as it was — in particular a key never written
/// stays absent, and a get of it returns `NotFound`, never a default.
pub proof fn lemma_absence(m: Map<Seq<u8>, Seq<u8>>, k: Seq<u8>, k2: Seq<u8>, raw: Seq<u8>)
    requires
        k2 != k,
    ensures
        !Map::<Seq<u8>, Seq<u8>>::empty().contains_key(k),
        m.insert(k2, raw).contains_key(k) == m.contains_key(k),
        m.contains_key(k) ==> m.insert(k2, raw)[k] == m[k],
{
}

/// Overwrite: two sequential stores to the same key leave exactly the
/// second value at that key, whatever was stored before.
pub proof fn lemma_overwrite(m: Map<Seq<u8>, Seq<u8>>, k: Seq<u8>, first: Seq<u8>, second: Seq<u8>)
    ensures
        m.insert(k, first).insert(k, second).contains_key(k),
        m.insert(k, first).insert(k, second)[k] == second,
{
}

} // verus!
