use vstd::prelude::*;

use automerge::ObjId as EngineObjId;

use crate::bytes::bytes_equal;
use crate::engine::{decode_obj_id, encode_obj_id, engine_root, obj_id_decoded, obj_id_decodes, obj_id_encoding};
use crate::error::ConversionError;

verus! {

/// What lifting `bytes` as an object address gives: the bytes themselves when
/// the engine parses them, an encoding error otherwise.
pub open spec fn obj_id_lift(bytes: Seq<u8>) -> Result<Seq<u8>, ConversionError> {
    if obj_id_decodes(bytes) {
        Ok(bytes)
    } else {
        Err(ConversionError::InvalidEncoding)
    }
}

/// The wire bytes of the document root's address.
pub open spec fn root_address() -> Seq<u8> {
    seq![0u8]
}

/// The document root's address in the engine's own type.
pub open spec fn root_id() -> EngineObjId {
    obj_id_decoded(root_address())
}

/// The address of an object in a document, held as its wire bytes, which the
/// engine parses.
#[derive(Debug)]
pub struct ObjId {
    bytes: Vec<u8>,
}

impl View for ObjId {
    type V = Seq<u8>;

    closed spec fn view(&self) -> Seq<u8> {
        self.bytes@
    }
}

impl Clone for ObjId {
    fn clone(&self) -> (r: ObjId)
        ensures
            r@ == self@,
    {
        proof { use_type_invariant(self); }
        ObjId { bytes: self.bytes.clone() }
    }
}

impl PartialEq for ObjId {
    /// Two values are equal exactly when their wire bytes are.
    fn eq(&self, other: &ObjId) -> (r: bool) {
        bytes_equal(&self.bytes, &other.bytes)
    }
}

impl vstd::std_specs::cmp::PartialEqSpecImpl for ObjId {
    open spec fn obeys_eq_spec() -> bool {
        true
    }

    open spec fn eq_spec(&self, other: &ObjId) -> bool {
        self@ == other@
    }
}

impl ObjId {
    #[verifier::type_invariant]
    spec fn decodes(self) -> bool {
        obj_id_decodes(self.bytes@)
    }

    /// Lifts a wire buffer: it is kept as it is when the engine parses it.
    pub fn lift(bytes: Vec<u8>) -> (r: Result<ObjId, ConversionError>)
        ensures
            r is Ok <==> obj_id_decodes(bytes@),
            r matches Ok(id) ==> obj_id_lift(bytes@) == Ok::<Seq<u8>, ConversionError>(id@),
            r matches Err(e) ==> obj_id_lift(bytes@) == Err::<Seq<u8>, ConversionError>(e),
    {
        match decode_obj_id(bytes.as_slice()) {
            Ok(_) => Ok(ObjId { bytes }),
            Err(_) => Err(ConversionError::InvalidEncoding),
        }
    }

    /// Lowers the address to its wire bytes.
    pub fn lower(self) -> (r: Vec<u8>)
        ensures
            r@ == self@,
            obj_id_decodes(r@),
    {
        proof { use_type_invariant(&self); }
        self.bytes
    }

    /// The address in the engine's own type, as the engine parses it.
    pub fn to_automerge(&self) -> (r: EngineObjId)
        ensures
            r == obj_id_decoded(self@),
    {
        proof { use_type_invariant(self); }
        match decode_obj_id(self.bytes.as_slice()) {
            Ok(id) => id,
            Err(_) => vstd::pervasive::unreached(),
        }
    }

    /// The address of an object given in the engine's own type, as the
    /// engine serialises it; it parses back to the same address.
    pub fn from_automerge(id: &EngineObjId) -> (r: ObjId)
        ensures
            r@ == obj_id_encoding(*id),
            obj_id_decodes(r@),
            obj_id_decoded(r@) == *id,
    {
        ObjId { bytes: encode_obj_id(id) }
    }
}

/// The address of the document root; it needs no document and is the same on
/// every call.
pub fn root() -> (r: ObjId)
    ensures
        r@ == root_address(),
        obj_id_lift(r@) == Ok::<Seq<u8>, ConversionError>(root_address()),
        obj_id_decoded(r@) == root_id(),
{
    ObjId::from_automerge(&engine_root())
}

/// An address that lowers to the root's bytes is the root: the bytes of every
/// other address differ from them.
pub proof fn lemma_only_root_lowers_to_root_address(id: EngineObjId, bytes: Seq<u8>)
    requires
        obj_id_decoded(bytes) == id,
        id != root_id(),
    ensures
        bytes != root_address(),
{
}

/// Every object address lifts back from its own bytes, and bytes that lift as
/// an address are lowered unchanged.
pub proof fn lemma_obj_id_round_trip(id: Seq<u8>, bytes: Seq<u8>)
    requires
        obj_id_decodes(id),
    ensures
        obj_id_lift(id) == Ok::<Seq<u8>, ConversionError>(id),
        obj_id_lift(bytes) matches Ok(i) ==> i == bytes,
{
}

} // verus!
