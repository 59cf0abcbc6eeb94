use vstd::prelude::*;

verus! {

/// Why a save could not be decoded.
#[derive(Debug, Clone, Copy, PartialEq, Eq, Structural)]
pub enum SaveError {
    /// A read asked for more bytes than remain in the buffer.
    BoundsError,
    /// The bytes of a string are not valid UTF-8.
    EncodingError,
    /// The compressed body is malformed or truncated.
    DecompressionError,
    /// A derived value of a record is inconsistent (a negative custom-data length).
    InvalidRecord,
}

} // verus!
