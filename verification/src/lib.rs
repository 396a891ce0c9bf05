//! A typed, namespaced key-value storage layer.
//!
//! Program logic addresses durable state through a closed set of logical
//! keys. Each key encodes deterministically to a unique byte string, and a
//! typed port serializes values to bytes (and back) against those keys, so
//! that distinct logical locations can never collide and a stored value is
//! read back exactly as it was written.

use vstd::prelude::*;

pub mod codec;
pub mod context;
pub mod key;
pub mod storage;

verus! {

/// Errors of the storage layer, returned to the caller as explicit values;
/// the layer itself never retries and never substitutes defaults.
#[derive(Clone, Copy, Debug, PartialEq, Eq, Structural)]
pub enum StorageError {
    /// A read against a key that has never been written.
    NotFound,
    /// The bytes stored at a key do not parse as the requested type.
    Deserialization,
    /// An identifier was built from a byte string of the wrong width.
    InvalidIdentifierWidth,
}

} // verus!
