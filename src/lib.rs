//! Identifier primitives of an automerge document, carried across a foreign
//! language boundary as plain bytes.
//!
//! Each identifier type has a `lift` from its wire form, which validates once,
//! and a `lower` back to the wire form, which never fails. Values are immutable
//! and hold their wire bytes exactly, so a round trip is lossless.
mod actor_id;
mod bytes;
mod change_hash;
mod cursor;
mod engine;
mod error;
mod obj_id;

pub use actor_id::{actor_id_lift, lemma_actor_id_round_trip, ActorId};
pub use change_hash::{
    change_hash_lift, lemma_change_hash_length_guard, lemma_change_hash_round_trip, ChangeHash, HASH_SIZE,
};
pub use cursor::{
    cursor_lift, lemma_cursor_round_trip, lemma_position_round_trip, position_lift, position_valid, Cursor, Position,
    PositionModel, PositionWire,
};
pub use engine::{
    cursor_decoded, cursor_decodes, cursor_encoding, engine_actor_bytes, obj_id_decoded, obj_id_decodes, obj_id_encoding,
};
pub use error::ConversionError;
pub use obj_id::{
    lemma_obj_id_round_trip, lemma_only_root_lowers_to_root_address, obj_id_lift, root, root_address, root_id, ObjId,
};
