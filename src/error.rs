use vstd::prelude::*;

verus! {

/// Why a wire value could not be lifted into an identifier.
#[derive(Debug, Clone, Copy, PartialEq, Eq, Structural)]
pub enum ConversionError {
    /// A fixed-size identifier received a buffer of another length.
    InvalidLength,
    /// The bytes do not parse under the document engine's encoding.
    InvalidEncoding,
}

} // verus!
