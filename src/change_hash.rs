use vstd::prelude::*;

use automerge::ChangeHash as EngineHash;

use crate::bytes::bytes_equal;
use crate::error::ConversionError;

verus! {

/// The size in bytes of a change hash.
pub const HASH_SIZE: usize = 32;

/// What lifting `bytes` as a change hash gives: the bytes themselves when
/// there are exactly `HASH_SIZE` of them, a length error otherwise.
pub open spec fn change_hash_lift(bytes: Seq<u8>) -> Result<Seq<u8>, ConversionError> {
    if bytes.len() == HASH_SIZE {
        Ok(bytes)
    } else {
        Err(ConversionError::InvalidLength)
    }
}

/// The content hash of a change, held as its `HASH_SIZE` bytes.
pub struct ChangeHash {
    bytes: Vec<u8>,
}

impl View for ChangeHash {
    type V = Seq<u8>;

    closed spec fn view(&self) -> Seq<u8> {
        self.bytes@
    }
}

impl PartialEq for ChangeHash {
    /// Two values are equal exactly when their wire bytes are.
    fn eq(&self, other: &ChangeHash) -> (r: bool) {
        bytes_equal(&self.bytes, &other.bytes)
    }
}

impl vstd::std_specs::cmp::PartialEqSpecImpl for ChangeHash {
    open spec fn obeys_eq_spec() -> bool {
        true
    }

    open spec fn eq_spec(&self, other: &ChangeHash) -> bool {
        self@ == other@
    }
}

impl ChangeHash {
    #[verifier::type_invariant]
    spec fn has_hash_size(self) -> bool {
        self.bytes@.len() == HASH_SIZE
    }

    /// Lifts a wire buffer; only a buffer of exactly `HASH_SIZE` bytes is a
    /// change hash, and it is neither truncated nor padded.
    pub fn lift(bytes: Vec<u8>) -> (r: Result<ChangeHash, ConversionError>)
        ensures
            r is Ok <==> bytes@.len() == HASH_SIZE,
            r matches Ok(h) ==> change_hash_lift(bytes@) == Ok::<Seq<u8>, ConversionError>(h@),
            r matches Err(e) ==> change_hash_lift(bytes@) == Err::<Seq<u8>, ConversionError>(e),
    {
        if bytes.len() == HASH_SIZE {
            Ok(ChangeHash { bytes })
        } else {
            Err(ConversionError::InvalidLength)
        }
    }

    /// Lowers the hash to its wire bytes, always `HASH_SIZE` of them.
    pub fn lower(self) -> (r: Vec<u8>)
        ensures
            r@ == self@,
            r@.len() == HASH_SIZE,
    {
        proof { use_type_invariant(&self); }
        self.bytes
    }

    /// The hash in the document engine's own type, with the same bytes.
    pub fn to_automerge(&self) -> (r: EngineHash)
        ensures
            r.0@ == self@,
    {
        proof { use_type_invariant(self); }
        let mut arr: [u8; 32] = [0u8; 32];
        let mut i: usize = 0;
        while i < HASH_SIZE
            invariant
                self.bytes@.len() == HASH_SIZE,
                i <= HASH_SIZE,
                arr@.len() == HASH_SIZE,
                forall|j: int| 0 <= j < i ==> arr@[j] == self.bytes@[j],
            decreases HASH_SIZE - i,
        {
            arr[i] = self.bytes[i];
            i = i + 1;
        }
        assert(arr@ =~= self.bytes@);
        EngineHash(arr)
    }

    /// The hash of the document engine's type, with the same bytes.
    pub fn from_automerge(hash: &EngineHash) -> (r: ChangeHash)
        ensures
            r@ == hash.0@,
    {
        let mut bytes: Vec<u8> = Vec::with_capacity(HASH_SIZE);
        let mut i: usize = 0;
        while i < HASH_SIZE
            invariant
                hash.0@.len() == HASH_SIZE,
                i <= HASH_SIZE,
                bytes@ == hash.0@.subrange(0, i as int),
            decreases HASH_SIZE - i,
        {
            bytes.push(hash.0[i]);
            i = i + 1;
        }
        assert(bytes@ =~= hash.0@);
        ChangeHash { bytes }
    }
}

/// Only buffers of exactly `HASH_SIZE` bytes lift; every other length is
/// refused with a length error.
pub proof fn lemma_change_hash_length_guard(bytes: Seq<u8>)
    ensures
        change_hash_lift(bytes) is Ok <==> bytes.len() == HASH_SIZE,
        change_hash_lift(bytes) == Err::<Seq<u8>, ConversionError>(ConversionError::InvalidLength)
            <==> bytes.len() != HASH_SIZE,
{
}

/// Lowering a hash and lifting the bytes gives the same hash back, and a
/// buffer that lifts lowers to the same bytes.
pub proof fn lemma_change_hash_round_trip(hash: Seq<u8>, bytes: Seq<u8>)
    requires
        hash.len() == HASH_SIZE,
    ensures
        change_hash_lift(hash) == Ok::<Seq<u8>, ConversionError>(hash),
        change_hash_lift(bytes) matches Ok(h) ==> h == bytes,
{
}

} // verus!
