//! Error types of the codec and of the connection layer.
use vstd::prelude::*;

verus! {

/// Why a value could not be written in wire form.
#[derive(Debug, Clone, Copy, PartialEq, Eq, Structural)]
pub enum EncodeError {
    /// A short string longer than 255 bytes of UTF-8.
    ShortStringTooLong,
    /// A long string or a table whose byte length does not fit in 32 bits.
    LengthOverflow,
    /// More than eight flags for one packed byte.
    TooManyBits,
    /// A frame whose type has no octet on the wire.
    InvalidFrameType,
    /// A value that was to be framed does not begin with a frame header.
    MissingHeader,
}

/// Why a byte sequence could not be read as a value.
#[derive(Debug, Clone, Copy, PartialEq, Eq, Structural)]
pub enum DecodeError {
    /// The buffer ends before the value does.
    Truncated,
    /// A string is not valid UTF-8, or is cut short by the end of the buffer.
    InvalidUtf8,
    /// A table entry carries a type tag that is not known.
    UnknownFieldType,
    /// A table's entries do not end exactly where its length says.
    TruncatedTable,
    /// Tables are nested more deeply than the decoder follows.
    NestingTooDeep,
    /// The octet after a frame's payload is not the frame terminator.
    MissingFrameEnd,
    /// A frame's declared size does not match the bytes that are there.
    SizeMismatch,
    /// The frame type octet is not one of the recognised set.
    InvalidFrameType,
    /// A class id that the protocol does not have.
    UnknownClass,
    /// A method id that the class does not have.
    UnknownMethod,
    /// A class or method id is not the one that was expected.
    UnexpectedMethod,
    /// A frame is not of the type that was expected.
    UnexpectedFrame,
    /// A property flag word asks for a further word beyond the flag space.
    TooManyFlagWords,
}

impl DecodeError {
    /// Whether the error says that the peer broke the protocol, and not only that some
    /// bytes could not be read: a frame of a type, class or method that is not known or
    /// was not expected.
    pub open spec fn spec_is_protocol_violation(self) -> bool {
        self == DecodeError::InvalidFrameType || self == DecodeError::UnknownClass || self
            == DecodeError::UnknownMethod || self == DecodeError::UnexpectedMethod || self
            == DecodeError::UnexpectedFrame
    }

    /// Whether the error says that the peer broke the protocol.
    pub fn is_protocol_violation(&self) -> (r: bool)
        ensures
            r == self.spec_is_protocol_violation(),
    {
        match self {
            DecodeError::InvalidFrameType => true,
            DecodeError::UnknownClass => true,
            DecodeError::UnknownMethod => true,
            DecodeError::UnexpectedMethod => true,
            DecodeError::UnexpectedFrame => true,
            _ => false,
        }
    }
}

/// Why a connection failed. A caller may try again after a `ConnectionError`; the other
/// failures will come again.
#[derive(Debug, Clone, Copy, PartialEq, Eq, Structural)]
pub enum FlowError {
    /// The transport failed.
    ConnectionError,
    /// The peer sent a frame that the protocol does not allow at that point.
    ProtocolViolation(DecodeError),
    /// A frame could not be read.
    Decode(DecodeError),
    /// A frame could not be written.
    Encode(EncodeError),
    /// The connection was asked for something that its state does not allow.
    UnexpectedEvent,
}

impl FlowError {
    /// The failure that a decode error amounts to.
    pub open spec fn spec_from_decode(e: DecodeError) -> FlowError {
        if e.spec_is_protocol_violation() {
            FlowError::ProtocolViolation(e)
        } else {
            FlowError::Decode(e)
        }
    }

    /// The failure that a decode error amounts to.
    pub fn from_decode(e: DecodeError) -> (r: FlowError)
        ensures
            r == Self::spec_from_decode(e),
    {
        if e.is_protocol_violation() {
            FlowError::ProtocolViolation(e)
        } else {
            FlowError::Decode(e)
        }
    }
}

/// A transport failure, with what the transport said of it.
#[derive(Debug, Clone)]
pub struct ConnectionError(pub String);

} // verus!
