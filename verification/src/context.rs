//! The fixed-width identifier value.
//!
//! A `Context` is an opaque 32-byte handle (an account or context address)
//! with no structure visible to the storage layer. It serves both as the
//! parameter of parameterized storage keys and as an ordinary stored value.
//! Equality is byte-wise, and the all-zero value is reserved as a sentinel
//! for "no holder".

use vstd::prelude::*;

use crate::StorageError;

verus! {

/// Width in bytes of every identifier value.
pub const CONTEXT_LEN: usize = 32;

/// A fixed-width, opaque 32-byte identifier.
#[derive(Clone, Copy, Debug)]
pub struct Context([u8; 32]);

impl View for Context {
    type V = Seq<u8>;

    closed spec fn view(&self) -> Seq<u8> {
        self.0@
    }
}

impl Context {
    /// Builds an identifier from a byte array of exactly the fixed width.
    /// This cannot fail: the width is enforced by the argument type.
    #[must_use]
    pub fn new(bytes: [u8; 32]) -> (r: Self)
        ensures
            r@ == bytes@,
    {
        Context(bytes)
    }

    /// The bytes of the identifier, in order.
    #[must_use]
    pub fn as_bytes(&self) -> (r: &[u8])
        ensures
            r@ == self@,
    {
        vstd::array::array_as_slice(&self.0)
    }

    /// A copy of the bytes of the identifier as an owned array.
    #[must_use]
    pub fn to_array(&self) -> (r: [u8; 32])
        ensures
            r@ == self@,
    {
        self.0
    }

    /// The view of the reserved all-zero sentinel.
    pub open spec fn spec_zero() -> Seq<u8> {
        Seq::new(32, |i: int| 0u8)
    }

    /// The reserved all-zero sentinel ("no holder" / burned state),
    /// constructible without external input.
    #[must_use]
    pub fn zero() -> (r: Self)
        ensures
            r@ == Self::spec_zero(),
    {
        let r = Context([0u8; 32]);
        proof {
            assert(r@ =~= Self::spec_zero());
        }
        r
    }

    /// Builds an identifier from a byte string. The width is enforced:
    /// input of any length other than 32 is rejected, never truncated or
    /// padded, so that distinct inputs can never collide silently.
    pub fn from_bytes(bytes: &[u8]) -> (r: Result<Self, StorageError>)
        ensures
            bytes@.len() == 32 <==> r is Ok,
            r matches Ok(c) ==> c@ == bytes@,
            bytes@.len() != 32 ==> r == Err::<Context, StorageError>(
                StorageError::InvalidIdentifierWidth,
            ),
    {
        if bytes.len() != CONTEXT_LEN {
            return Err(StorageError::InvalidIdentifierWidth);
        }
        let mut arr = [0u8; 32];
        let mut i: usize = 0;
        while i < 32
            invariant
                i <= 32,
                bytes@.len() == 32,
                forall|j: int| 0 <= j < i ==> arr@[j] == bytes@[j],
            decreases 32 - i,
        {
            arr[i] = *vstd::slice::slice_index_get(bytes, i);
            i = i + 1;
        }
        let c = Context(arr);
        proof {
            assert(c@ =~= bytes@);
        }
        Ok(c)
    }

    /// Every identifier views as exactly its 32 bytes.
    pub broadcast proof fn lemma_view_len(c: Context)
        ensures
            (#[trigger] c@).len() == 32,
    {
    }

    /// Byte-wise equality of two identifiers is equality of the
    /// identifiers themselves.
    pub proof fn lemma_view_injective(a: Context, b: Context)
        ensures
            a@ == b@ ==> a == b,
    {
        if a@ == b@ {
            assert(forall|i: int| 0 <= i < 32 ==> a.0@[i] == b.0@[i]);
            assert(a.0 =~= b.0);
        }
    }
}

impl PartialEq for Context {
    fn eq(&self, other: &Context) -> (r: bool) {
        let mut i: usize = 0;
        while i < 32
            invariant
                i <= 32,
                forall|j: int| 0 <= j < i ==> self.0@[j] == other.0@[j],
            decreases 32 - i,
        {
            if self.0[i] != other.0[i] {
                return false;
            }
            i = i + 1;
        }
        proof {
            assert(self.0@ =~= other.0@);
        }
        true
    }
}

impl Eq for Context {

}

impl vstd::std_specs::cmp::PartialEqSpecImpl for Context {
    open spec fn obeys_eq_spec() -> bool {
        true
    }

    open spec fn eq_spec(&self, other: &Context) -> bool {
        self@ == other@
    }
}

} // verus!
