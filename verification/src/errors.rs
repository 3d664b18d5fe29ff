//! Error taxonomy of the codec.

use vstd::prelude::*;

verus! {

/// Why a complete packet was rejected as malformed.
///
/// An incomplete frame is not an error: the decoder reports it as a normal
/// "retry after more bytes arrive" outcome, distinguishable from these by
/// type.
#[derive(Debug, Copy, Clone, PartialEq, Eq, Structural)]
pub enum ResponseError {
    /// The magic byte is not the response magic.
    UnknownMagic,
    /// The opcode byte lies outside the opcode table.
    UnknownCommand,
    /// The data-type byte is not a recognized data type.
    UnknownDataType,
    /// The 16-bit status slot holds no recognized status code.
    UnknownStatus,
}

/// Why a request could not be serialized. Each variant names the header
/// length field its input overflows; the encoder writes nothing when it
/// reports one.
#[derive(Debug, Copy, Clone, PartialEq, Eq, Structural)]
pub enum EncodeError {
    /// The key is longer than 65535 bytes, the 16-bit key-length field's range.
    KeyTooLong,
    /// The extras payload is longer than 255 bytes, the 8-bit extras-length
    /// field's range.
    ExtrasTooLong,
    /// Extras, key and value together are longer than the 32-bit
    /// total-body-length field's range.
    BodyTooLong,
}

} // verus!
