//! The frame header: type octet, channel, payload size.
use vstd::prelude::*;

use crate::encde::integers::{
    decode_u16, decode_u32, put_u16, put_u32, spec_u16_at, spec_u16_bytes, spec_u32_at,
    spec_u32_bytes,
};
use crate::encde::{Decode, Encode};
use crate::errors::{DecodeError, EncodeError};

verus! {

/// The length of a frame header in bytes.
pub const HEADER_SIZE: usize = 7;

/// What a frame carries.
#[derive(Debug, Clone, Copy, PartialEq, Eq, Structural)]
pub enum FrameType {
    /// Message bytes.
    Body,
    /// An octet outside the recognised set: fatal to the connection.
    Invalid,
    /// A content header.
    Header,
    /// A heartbeat.
    Heartbeat,
    /// A method.
    Method,
}

impl View for FrameType {
    type V = FrameType;

    open spec fn view(&self) -> FrameType {
        *self
    }
}

impl FrameType {
    /// The octet that stands for the frame type on the wire. A heartbeat travels as 8.
    pub open spec fn spec_octet(self) -> Option<u8> {
        match self {
            FrameType::Method => Some(1u8),
            FrameType::Header => Some(2u8),
            FrameType::Body => Some(3u8),
            FrameType::Heartbeat => Some(8u8),
            FrameType::Invalid => None,
        }
    }

    /// The frame type that an octet stands for; `Invalid` for every octet outside the
    /// recognised set.
    pub open spec fn spec_from_octet(octet: u8) -> FrameType {
        if octet == 1 {
            FrameType::Method
        } else if octet == 2 {
            FrameType::Header
        } else if octet == 3 {
            FrameType::Body
        } else if octet == 8 {
            FrameType::Heartbeat
        } else {
            FrameType::Invalid
        }
    }

    /// The octet that stands for the frame type on the wire, if it has one.
    pub fn octet(&self) -> (r: Option<u8>)
        ensures
            r == self.spec_octet(),
    {
        match self {
            FrameType::Method => Some(1),
            FrameType::Header => Some(2),
            FrameType::Body => Some(3),
            FrameType::Heartbeat => Some(8),
            FrameType::Invalid => None,
        }
    }

    /// The frame type that an octet stands for.
    pub fn from_octet(octet: u8) -> (r: FrameType)
        ensures
            r == Self::spec_from_octet(octet),
    {
        match octet {
            1 => FrameType::Method,
            2 => FrameType::Header,
            3 => FrameType::Body,
            8 => FrameType::Heartbeat,
            _ => FrameType::Invalid,
        }
    }

    /// Every frame type that has an octet is found again from it.
    pub proof fn lemma_octet_round_trip(self)
        requires
            self != FrameType::Invalid,
        ensures
            self.spec_octet() is Some,
            Self::spec_from_octet(self.spec_octet()->0) == self,
    {
    }
}

impl Encode for FrameType {
    open spec fn spec_encode(&self) -> Result<Seq<u8>, EncodeError> {
        match self.spec_octet() {
            Some(octet) => Ok(seq![octet]),
            None => Err(EncodeError::InvalidFrameType),
        }
    }

    fn encode(&self) -> (r: Result<Vec<u8>, EncodeError>) {
        match self.octet() {
            Some(octet) => {
                let mut out: Vec<u8> = Vec::new();
                out.push(octet);
                Ok(out)
            },
            None => Err(EncodeError::InvalidFrameType),
        }
    }
}

/// The seven octets in front of every frame.
#[derive(Debug, Clone, Copy, PartialEq, Eq, Structural)]
pub struct Header {
    pub frame_type: FrameType,
    pub channel_id: u16,
    pub size: u32,
}

impl View for Header {
    type V = Header;

    open spec fn view(&self) -> Header {
        *self
    }
}

/// The wire form of a header of a type that has an octet.
pub open spec fn spec_header_bytes(octet: u8, channel_id: u16, size: u32) -> Seq<u8> {
    seq![octet] + spec_u16_bytes(channel_id) + spec_u32_bytes(size)
}

impl Encode for Header {
    open spec fn spec_encode(&self) -> Result<Seq<u8>, EncodeError> {
        match self.frame_type.spec_octet() {
            Some(octet) => Ok(spec_header_bytes(octet, self.channel_id, self.size)),
            None => Err(EncodeError::InvalidFrameType),
        }
    }

    fn encode(&self) -> (r: Result<Vec<u8>, EncodeError>) {
        let mut out = self.frame_type.encode()?;
        put_u16(&mut out, self.channel_id);
        put_u32(&mut out, self.size);
        Ok(out)
    }
}

impl Decode for Header {
    /// The header that stands in `b` at `pos`. An octet outside the recognised set gives
    /// a header of type `Invalid`, not an error.
    open spec fn spec_decode(b: Seq<u8>, pos: int) -> Result<(Header, int), DecodeError> {
        if pos < 0 || pos + 7 > b.len() {
            Err(DecodeError::Truncated)
        } else {
            Ok(
                (
                    Header {
                        frame_type: FrameType::spec_from_octet(b[pos]),
                        channel_id: spec_u16_at(b, pos + 1),
                        size: spec_u32_at(b, pos + 3),
                    },
                    pos + 7,
                ),
            )
        }
    }

    fn decode(buf: &[u8], pos: usize) -> (r: Result<(Self, usize), DecodeError>) {
        if pos > buf.len() || buf.len() - pos < HEADER_SIZE {
            return Err(DecodeError::Truncated);
        }
        let frame_type = FrameType::from_octet(buf[pos]);
        let (channel_id, at) = decode_u16(buf, pos + 1)?;
        let (size, next) = decode_u32(buf, at)?;
        Ok((Header { frame_type, channel_id, size }, next))
    }
}

} // verus!
