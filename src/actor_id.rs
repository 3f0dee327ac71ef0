use automerge::ActorId as EngineActorId;
use vstd::prelude::*;

use crate::bytes::bytes_equal;
use crate::engine::{actor_bytes, actor_from_bytes, engine_actor_bytes};
use crate::error::ConversionError;

verus! {

/// What lifting `bytes` as an actor identity gives: always the bytes
/// themselves, since an actor is an opaque label.
pub open spec fn actor_id_lift(bytes: Seq<u8>) -> Result<Seq<u8>, ConversionError> {
    Ok(bytes)
}

/// The identity of a replica that writes to a document, held as its bytes.
pub struct ActorId {
    bytes: Vec<u8>,
}

impl View for ActorId {
    type V = Seq<u8>;

    closed spec fn view(&self) -> Seq<u8> {
        self.bytes@
    }
}

impl PartialEq for ActorId {
    /// Two values are equal exactly when their wire bytes are.
    fn eq(&self, other: &ActorId) -> (r: bool) {
        bytes_equal(&self.bytes, &other.bytes)
    }
}

impl vstd::std_specs::cmp::PartialEqSpecImpl for ActorId {
    open spec fn obeys_eq_spec() -> bool {
        true
    }

    open spec fn eq_spec(&self, other: &ActorId) -> bool {
        self@ == other@
    }
}

impl ActorId {
    /// Lifts any byte buffer, the empty one included, as it is.
    pub fn lift(bytes: Vec<u8>) -> (r: ActorId)
        ensures
            actor_id_lift(bytes@) == Ok::<Seq<u8>, ConversionError>(r@),
            r@ == bytes@,
    {
        ActorId { bytes }
    }

    /// Lowers the actor to its bytes.
    pub fn lower(self) -> (r: Vec<u8>)
        ensures
            r@ == self@,
    {
        self.bytes
    }

    /// The actor in the engine's own type, made from its bytes.
    pub fn to_automerge(&self) -> (r: EngineActorId)
        ensures
            engine_actor_bytes(r) == self@,
    {
        actor_from_bytes(self.bytes.clone())
    }

    /// The actor given in the engine's own type, by its bytes.
    pub fn from_automerge(actor: &EngineActorId) -> (r: ActorId)
        ensures
            r@ == engine_actor_bytes(*actor),
    {
        ActorId { bytes: actor_bytes(actor) }
    }
}

/// Every actor lifts back from its own bytes, and every buffer lifts and is
/// lowered unchanged.
pub proof fn lemma_actor_id_round_trip(actor: Seq<u8>, bytes: Seq<u8>)
    ensures
        actor_id_lift(actor) == Ok::<Seq<u8>, ConversionError>(actor),
        actor_id_lift(bytes) matches Ok(a) ==> a == bytes,
{
}

} // verus!
