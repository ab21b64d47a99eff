//! Structured failures of the Direct-IP codec.

use vstd::prelude::*;

verus! {

/// Everything that can go wrong while encoding, decoding or building a
/// Direct-IP message. The codec never panics on malformed input: each failure
/// surfaces as one of these variants.
#[derive(Clone, Debug, PartialEq, Eq)]
pub enum Error {
    /// Short read: the buffer ended before the field being parsed.
    IO,
    /// The envelope's leading version byte was not `1`.
    ProtocolVersion(u8),
    /// An information element identifier did not match its context:
    /// `(expected, found)`.
    WrongIEType(u8, u8),
    /// A fixed-size information element declared the wrong body length:
    /// `(expected, found)`.
    InvalidLength(u16, u16),
    /// A payload exceeded the protocol maximum: `(actual, max)`.
    PayloadOversize(usize, usize),
    /// Unknown wire code for an MO session status.
    InvalidSessionStatus(u8),
    /// Unknown wire code for an MT confirmation message status.
    InvalidMessageStatus(i16),
    /// A builder was asked to build while a required field was unset.
    UninitializedField(&'static str),
    /// The information elements of an envelope did not add up to its declared
    /// overall length.
    LengthMismatch,
}

} // verus!
