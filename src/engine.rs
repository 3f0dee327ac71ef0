//! The items of the automerge document engine that this library relies on.
//! Each wrapper below makes one call into the engine; its contract is what the
//! engine's source shows of that call.
use automerge::ActorId as EngineActorId;
use automerge::AutomergeError;
use automerge::ChangeHash as EngineHash;
use automerge::Cursor as EngineCursor;
use automerge::ObjId as EngineObjId;
use automerge::ObjIdFromBytesError;
use vstd::prelude::*;

verus! {

#[verifier::external_type_specification]
pub struct ExHash(EngineHash);

#[verifier::external_type_specification]
#[verifier::external_body]
pub struct ExActorId(EngineActorId);

#[verifier::external_type_specification]
#[verifier::external_body]
pub struct ExObjId(EngineObjId);

#[verifier::external_type_specification]
#[verifier::external_body]
pub struct ExObjIdFromBytesError(ObjIdFromBytesError);

#[verifier::external_type_specification]
#[verifier::external_body]
pub struct ExCursor(EngineCursor);

#[verifier::external_type_specification]
#[verifier::external_body]
pub struct ExAutomergeError(AutomergeError);

/// Whether the engine parses `bytes` as an object address.
pub uninterp spec fn obj_id_decodes(bytes: Seq<u8>) -> bool;

/// Whether the engine parses `bytes` as a cursor.
pub uninterp spec fn cursor_decodes(bytes: Seq<u8>) -> bool;

/// The object address that the engine parses out of `bytes`.
pub uninterp spec fn obj_id_decoded(bytes: Seq<u8>) -> EngineObjId;

/// The engine's serialisation of an object address.
pub uninterp spec fn obj_id_encoding(id: EngineObjId) -> Seq<u8>;

/// The cursor that the engine parses out of `bytes`.
pub uninterp spec fn cursor_decoded(bytes: Seq<u8>) -> EngineCursor;

/// The engine's serialisation of a cursor.
pub uninterp spec fn cursor_encoding(cursor: EngineCursor) -> Seq<u8>;

/// The bytes that an engine actor holds.
pub uninterp spec fn engine_actor_bytes(actor: EngineActorId) -> Seq<u8>;

/// Relies on automerge's `TryFrom<&[u8]> for ObjId`: what it gives depends
/// on the bytes alone.
#[verifier::external_body]
pub(crate) fn decode_obj_id(bytes: &[u8]) -> (r: Result<EngineObjId, ObjIdFromBytesError>)
    ensures
        r is Ok <==> obj_id_decodes(bytes@),
        r matches Ok(id) ==> id == obj_id_decoded(bytes@),
{
    EngineObjId::try_from(bytes)
}

/// Relies on automerge's `ObjId::to_bytes`: it writes the address's fields,
/// which `TryFrom<&[u8]>` reads back into the same places.
#[verifier::external_body]
pub(crate) fn encode_obj_id(id: &EngineObjId) -> (r: Vec<u8>)
    ensures
        r@ == obj_id_encoding(*id),
        obj_id_decodes(r@),
        obj_id_decoded(r@) == *id,
{
    id.to_bytes()
}

/// Relies on automerge's `ROOT`: the root address, which `ObjId::to_bytes`
/// serialises as the single byte 0 (version 0, type root).
#[verifier::external_body]
pub(crate) fn engine_root() -> (r: EngineObjId)
    ensures
        obj_id_encoding(r) == seq![0u8],
{
    automerge::ROOT
}

/// Relies on automerge's `TryFrom<&[u8]> for Cursor`: what it gives depends
/// on the bytes alone.
#[verifier::external_body]
pub(crate) fn decode_cursor(bytes: &[u8]) -> (r: Result<EngineCursor, AutomergeError>)
    ensures
        r is Ok <==> cursor_decodes(bytes@),
        r matches Ok(c) ==> c == cursor_decoded(bytes@),
{
    EngineCursor::try_from(bytes)
}

/// Relies on automerge's `Cursor::to_bytes`: it writes the cursor's fields,
/// which `TryFrom<&[u8]>` reads back into the same places.
#[verifier::external_body]
pub(crate) fn encode_cursor(cursor: &EngineCursor) -> (r: Vec<u8>)
    ensures
        r@ == cursor_encoding(*cursor),
        cursor_decodes(r@),
        cursor_decoded(r@) == *cursor,
{
    cursor.to_bytes()
}

/// Relies on automerge's `From<Vec<u8>> for ActorId`, which takes any bytes
/// and keeps them.
#[verifier::external_body]
pub(crate) fn actor_from_bytes(bytes: Vec<u8>) -> (r: EngineActorId)
    ensures
        engine_actor_bytes(r) == bytes@,
{
    EngineActorId::from(bytes)
}

/// Relies on automerge's `ActorId::to_bytes`, which hands out the actor's
/// bytes.
#[verifier::external_body]
pub(crate) fn actor_bytes(actor: &EngineActorId) -> (r: Vec<u8>)
    ensures
        r@ == engine_actor_bytes(*actor),
{
    actor.to_bytes().to_vec()
}

} // verus!
