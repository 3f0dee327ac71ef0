use automerge::Cursor as EngineCursor;
use vstd::prelude::*;

use crate::bytes::bytes_equal;
use crate::engine::{cursor_decoded, cursor_decodes, cursor_encoding, decode_cursor, encode_cursor};
use crate::error::ConversionError;

verus! {

/// What lifting `bytes` as a cursor gives: the bytes themselves when the
/// engine parses them, an encoding error otherwise.
pub open spec fn cursor_lift(bytes: Seq<u8>) -> Result<Seq<u8>, ConversionError> {
    if cursor_decodes(bytes) {
        Ok(bytes)
    } else {
        Err(ConversionError::InvalidEncoding)
    }
}

/// A stable position in a list or text, held as its wire bytes, which the
/// engine parses.
pub struct Cursor {
    bytes: Vec<u8>,
}

impl View for Cursor {
    type V = Seq<u8>;

    closed spec fn view(&self) -> Seq<u8> {
        self.bytes@
    }
}

impl PartialEq for Cursor {
    /// Two values are equal exactly when their wire bytes are.
    fn eq(&self, other: &Cursor) -> (r: bool) {
        bytes_equal(&self.bytes, &other.bytes)
    }
}

impl vstd::std_specs::cmp::PartialEqSpecImpl for Cursor {
    open spec fn obeys_eq_spec() -> bool {
        true
    }

    open spec fn eq_spec(&self, other: &Cursor) -> bool {
        self@ == other@
    }
}

impl Cursor {
    #[verifier::type_invariant]
    spec fn decodes(self) -> bool {
        cursor_decodes(self.bytes@)
    }

    /// Lifts a wire buffer: it is kept as it is when the engine parses it.
    pub fn lift(bytes: Vec<u8>) -> (r: Result<Cursor, ConversionError>)
        ensures
            r is Ok <==> cursor_decodes(bytes@),
            r matches Ok(c) ==> cursor_lift(bytes@) == Ok::<Seq<u8>, ConversionError>(c@),
            r matches Err(e) ==> cursor_lift(bytes@) == Err::<Seq<u8>, ConversionError>(e),
    {
        match decode_cursor(bytes.as_slice()) {
            Ok(_) => Ok(Cursor { bytes }),
            Err(_) => Err(ConversionError::InvalidEncoding),
        }
    }

    /// Lowers the cursor to its wire bytes.
    pub fn lower(self) -> (r: Vec<u8>)
        ensures
            r@ == self@,
            cursor_decodes(r@),
    {
        proof { use_type_invariant(&self); }
        self.bytes
    }

    /// The cursor in the engine's own type, as the engine parses it.
    pub fn to_automerge(&self) -> (r: EngineCursor)
        ensures
            r == cursor_decoded(self@),
    {
        proof { use_type_invariant(self); }
        match decode_cursor(self.bytes.as_slice()) {
            Ok(c) => c,
            Err(_) => vstd::pervasive::unreached(),
        }
    }

    /// The cursor given in the engine's own type, as the engine serialises
    /// it; it parses back to the same cursor.
    pub fn from_automerge(cursor: &EngineCursor) -> (r: Cursor)
        ensures
            r@ == cursor_encoding(*cursor),
            cursor_decodes(r@),
            cursor_decoded(r@) == *cursor,
    {
        Cursor { bytes: encode_cursor(cursor) }
    }
}

/// A position in a sequence as a caller names it: stably by a cursor, or by
/// an index that concurrent edits may shift.
pub enum Position {
    Cursor { position: Cursor },
    Index { position: u64 },
}

/// The wire form of a position: a cursor's bytes, or an index.
pub enum PositionWire {
    Cursor { bytes: Vec<u8> },
    Index { position: u64 },
}

/// The model of a position and of its wire form.
pub enum PositionModel {
    Cursor(Seq<u8>),
    Index(u64),
}

impl View for Position {
    type V = PositionModel;

    open spec fn view(&self) -> PositionModel {
        match self {
            Position::Cursor { position } => PositionModel::Cursor(position@),
            Position::Index { position } => PositionModel::Index(*position),
        }
    }
}

impl View for PositionWire {
    type V = PositionModel;

    open spec fn view(&self) -> PositionModel {
        match self {
            PositionWire::Cursor { bytes } => PositionModel::Cursor(bytes@),
            PositionWire::Index { position } => PositionModel::Index(*position),
        }
    }
}

/// Whether a position model names a position that lifting can produce.
pub open spec fn position_valid(p: PositionModel) -> bool {
    match p {
        PositionModel::Cursor(bytes) => cursor_decodes(bytes),
        PositionModel::Index(_) => true,
    }
}

/// What lifting a wire position gives: an index as it is, a cursor as the
/// cursor's own lift gives it.
pub open spec fn position_lift(wire: PositionModel) -> Result<PositionModel, ConversionError> {
    match wire {
        PositionModel::Cursor(bytes) => match cursor_lift(bytes) {
            Ok(c) => Ok(PositionModel::Cursor(c)),
            Err(e) => Err(e),
        },
        PositionModel::Index(i) => Ok(PositionModel::Index(i)),
    }
}

impl Position {
    /// Lifts a wire position; only a cursor's bytes are checked.
    pub fn lift(wire: PositionWire) -> (r: Result<Position, ConversionError>)
        ensures
            r is Ok <==> position_valid(wire@),
            r matches Ok(p) ==> position_lift(wire@) == Ok::<PositionModel, ConversionError>(p@),
            r matches Err(e) ==> position_lift(wire@) == Err::<PositionModel, ConversionError>(e),
    {
        match wire {
            PositionWire::Cursor { bytes } => match Cursor::lift(bytes) {
                Ok(c) => Ok(Position::Cursor { position: c }),
                Err(e) => Err(e),
            },
            PositionWire::Index { position } => Ok(Position::Index { position }),
        }
    }

    /// Lowers the position to its wire form, keeping the variant and its
    /// payload.
    pub fn lower(self) -> (r: PositionWire)
        ensures
            r@ == self@,
            position_valid(r@),
    {
        match self {
            Position::Cursor { position } => PositionWire::Cursor { bytes: position.lower() },
            Position::Index { position } => PositionWire::Index { position },
        }
    }
}

/// Every cursor lifts back from its own bytes, and bytes that lift as a cursor
/// are lowered unchanged.
pub proof fn lemma_cursor_round_trip(cursor: Seq<u8>, bytes: Seq<u8>)
    requires
        cursor_decodes(cursor),
    ensures
        cursor_lift(cursor) == Ok::<Seq<u8>, ConversionError>(cursor),
        cursor_lift(bytes) matches Ok(c) ==> c == bytes,
{
}

/// Every position lifts back from its own wire form with the same variant and
/// payload, and a wire position that lifts is lowered unchanged.
pub proof fn lemma_position_round_trip(position: PositionModel, wire: PositionModel)
    requires
        position_valid(position),
    ensures
        position_lift(position) == Ok::<PositionModel, ConversionError>(position),
        position_lift(wire) matches Ok(p) ==> p == wire,
{
}

} // verus!
