//! Serialization of stored values.
//!
//! Values are serialized with borsh, a fixed, deterministic binary format:
//! integers become fixed-width little-endian bytes, byte strings get a
//! 4-byte little-endian length prefix, and fixed-width identifiers are
//! written as their raw bytes. Deserialization accepts exactly the byte
//! strings that serialization produces, and rejects trailing bytes, so
//! every supported value round-trips exactly.

use vstd::bytes::*;
use vstd::prelude::*;

verus! {

/// The serialized form of a byte string: a 4-byte little-endian length
/// prefix followed by the bytes themselves.
pub open spec fn spec_bytes_enc(data: Seq<u8>) -> Seq<u8> {
    spec_u32_to_le_bytes(data.len() as u32) + data
}

/// Whether a raw byte string is the serialized form of some byte string:
/// it must carry a length prefix that accounts for exactly the rest.
pub open spec fn spec_bytes_decodes(raw: Seq<u8>) -> bool {
    raw.len() >= 4 && raw.len() - 4 == spec_u32_from_le_bytes(raw.subrange(0, 4))
}

/// Relies on borsh::to_vec for u64: writes the 8 little-endian bytes of
/// the value and nothing else, and cannot fail when writing to a vector.
#[verifier::external_body]
pub(crate) fn borsh_encode_u64(value: u64) -> (r: Vec<u8>)
    ensures
        r@ == spec_u64_to_le_bytes(value),
{
    borsh::to_vec(&value).unwrap()
}

/// Relies on borsh::from_slice for u64: succeeds exactly on 8-byte input
/// (shorter input ends too early, longer input leaves bytes unread, both
/// errors), and reads the value back from its little-endian bytes.
#[verifier::external_body]
pub(crate) fn borsh_decode_u64(bytes: &Vec<u8>) -> (r: Option<u64>)
    ensures
        r is Some <==> bytes@.len() == 8,
        r matches Some(v) ==> bytes@ == spec_u64_to_le_bytes(v),
{
    borsh::from_slice::<u64>(bytes.as_slice()).ok()
}

/// The serialized form of a signed integer: the 8 little-endian bytes of
/// its two's-complement value.
pub open spec fn spec_i64_enc(v: i64) -> Seq<u8> {
    spec_u64_to_le_bytes(v as u64)
}

/// Relies on borsh::to_vec for i64: writes the 8 little-endian bytes of
/// the two's-complement value and nothing else, and cannot fail when
/// writing to a vector.
#[verifier::external_body]
pub(crate) fn borsh_encode_i64(value: i64) -> (r: Vec<u8>)
    ensures
        r@ == spec_i64_enc(value),
{
    borsh::to_vec(&value).unwrap()
}

/// Relies on borsh::from_slice for i64: succeeds exactly on 8-byte input
/// (shorter input ends too early, longer input leaves bytes unread, both
/// errors), and reads the value back from its little-endian
/// two's-complement bytes.
#[verifier::external_body]
pub(crate) fn borsh_decode_i64(bytes: &Vec<u8>) -> (r: Option<i64>)
    ensures
        r is Some <==> bytes@.len() == 8,
        r matches Some(v) ==> bytes@ == spec_i64_enc(v),
{
    borsh::from_slice::<i64>(bytes.as_slice()).ok()
}

/// Relies on borsh::to_vec for Vec<u8>: writes the length as 4
/// little-endian bytes, then the bytes themselves; the write cannot fail
/// when the length fits the 4-byte prefix.
#[verifier::external_body]
pub(crate) fn borsh_encode_bytes(data: &Vec<u8>) -> (r: Vec<u8>)
    requires
        data@.len() <= u32::MAX,
    ensures
        r@ == spec_bytes_enc(data@),
{
    borsh::to_vec(data).unwrap()
}

/// Relies on borsh::from_slice for Vec<u8>: reads a 4-byte little-endian
/// length prefix, then exactly that many bytes, and rejects input that is
/// too short or has bytes left over.
#[verifier::external_body]
pub(crate) fn borsh_decode_bytes(bytes: &Vec<u8>) -> (r: Option<Vec<u8>>)
    ensures
        r is Some <==> spec_bytes_decodes(bytes@),
        r matches Some(d) ==> d@ == bytes@.skip(4),
{
    borsh::from_slice::<Vec<u8>>(bytes.as_slice()).ok()
}

/// Relies on borsh::to_vec for [u8; 32]: writes the 32 bytes themselves,
/// with no length prefix, and cannot fail when writing to a vector.
#[verifier::external_body]
pub(crate) fn borsh_encode_id(id: &[u8; 32]) -> (r: Vec<u8>)
    ensures
        r@ == id@,
{
    borsh::to_vec(id).unwrap()
}

/// Relies on borsh::from_slice for [u8; 32]: succeeds exactly on 32-byte
/// input and returns those bytes unchanged.
#[verifier::external_body]
pub(crate) fn borsh_decode_id(bytes: &Vec<u8>) -> (r: Option<[u8; 32]>)
    ensures
        r is Some <==> bytes@.len() == 32,
        r matches Some(a) ==> a@ == bytes@,
{
    borsh::from_slice::<[u8; 32]>(bytes.as_slice()).ok()
}

/// Round trip for unsigned integers: the serialized form of a u64 is always 8
/// bytes, it determines the value exactly, and no two values share a
/// serialized form.
pub proof fn lemma_u64_round_trip(v: u64, w: u64)
    ensures
        spec_u64_to_le_bytes(v).len() == 8,
        spec_u64_from_le_bytes(spec_u64_to_le_bytes(v)) == v,
        spec_u64_to_le_bytes(v) == spec_u64_to_le_bytes(w) ==> v == w,
{
    lemma_auto_spec_u64_to_from_le_bytes();
}

/// Round trip for signed integers: the serialized form of an i64 is
/// always 8 bytes, it determines the value exactly, and no two values
/// share a serialized form.
pub proof fn lemma_i64_round_trip(v: i64, w: i64)
    ensures
        spec_i64_enc(v).len() == 8,
        spec_u64_from_le_bytes(spec_i64_enc(v)) as i64 == v,
        spec_i64_enc(v) == spec_i64_enc(w) ==> v == w,
{
    lemma_auto_spec_u64_to_from_le_bytes();
    assert((v as u64) as i64 == v) by (bit_vector);
    assert((v as u64) == (w as u64) ==> v == w) by (bit_vector);
}

/// Round trip for byte strings: the serialized form carries a length
/// prefix that accounts for exactly the payload, and stripping the prefix
/// gives the payload back unchanged, so no two byte strings share a
/// serialized form.
pub proof fn lemma_bytes_round_trip(data: Seq<u8>)
    requires
        data.len() <= u32::MAX,
    ensures
        spec_bytes_enc(data).len() == 4 + data.len(),
        spec_bytes_decodes(spec_bytes_enc(data)),
        spec_bytes_enc(data).skip(4) == data,
{
    lemma_auto_spec_u32_to_from_le_bytes();
    assert(spec_bytes_enc(data).subrange(0, 4) =~= spec_u32_to_le_bytes(data.len() as u32));
    assert(spec_bytes_enc(data).skip(4) =~= data);
}

} // verus!
