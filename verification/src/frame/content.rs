//! The content header frame: how long the body is, and the message properties.
use vstd::prelude::*;

use crate::encde::class::ClassID;
use crate::encde::header::{FrameType, Header};
use crate::encde::integers::{
    decode_u16, decode_u64, put_bytes, put_u16, put_u64, spec_decode_u16, spec_decode_u64,
    spec_u16_bytes, spec_u64_bytes,
};
use crate::encde::properties::{Properties, PropertiesModel};
use crate::encde::{then, Decode, Encode};
use crate::errors::{DecodeError, EncodeError};

verus! {

/// The frame between a method that carries a message and the body of the message.
#[derive(Debug, Clone, PartialEq, Eq)]
pub struct Content {
    pub header: Header,
    pub class_id: ClassID,
    pub weight: u16,
    /// The length of the whole body, over however many body frames it goes.
    pub size: u64,
    pub properties: Properties,
}

impl Content {
    /// The content header of a message of the basic class, `size` bytes long, for
    /// `channel_id`.
    pub fn new(channel_id: u16, size: u64, properties: Properties) -> (r: Self)
        ensures
            r.header == (Header { frame_type: FrameType::Header, channel_id, size: 0 }),
            r.class_id == ClassID::Basic,
            r.weight == 0,
            r.size == size,
            r.properties == properties,
    {
        Content {
            header: Header { frame_type: FrameType::Header, channel_id, size: 0 },
            class_id: ClassID::Basic,
            weight: 0,
            size,
            properties,
        }
    }
}

impl Encode for Content {
    open spec fn spec_encode(&self) -> Result<Seq<u8>, EncodeError> {
        then(
            then(
                then(
                    then(self.header.spec_encode(), self.class_id.spec_encode()),
                    Ok(spec_u16_bytes(self.weight)),
                ),
                Ok(spec_u64_bytes(self.size)),
            ),
            self.properties.spec_encode(),
        )
    }

    fn encode(&self) -> (r: Result<Vec<u8>, EncodeError>) {
        let mut out = self.header.encode()?;
        put_bytes(&mut out, self.class_id.encode()?);
        put_u16(&mut out, self.weight);
        put_u64(&mut out, self.size);
        put_bytes(&mut out, self.properties.encode()?);
        Ok(out)
    }
}

impl View for Content {
    type V = (Header, ClassID, u16, u64, PropertiesModel);

    open spec fn view(&self) -> (Header, ClassID, u16, u64, PropertiesModel) {
        (self.header, self.class_id, self.weight, self.size, self.properties@)
    }
}

impl Decode for Content {
    open spec fn spec_decode(b: Seq<u8>, pos: int) -> Result<
        ((Header, ClassID, u16, u64, PropertiesModel), int),
        DecodeError,
    > {
        match Header::spec_decode(b, pos) {
            Err(e) => Err(e),
            Ok((header, at0)) => if header.frame_type != FrameType::Header {
                Err(DecodeError::UnexpectedFrame)
            } else {
                match ClassID::spec_decode(b, at0) {
                    Err(e) => Err(e),
                    Ok((class_id, at1)) => match spec_decode_u16(b, at1) {
                        Err(e) => Err(e),
                        Ok((weight, at2)) => match spec_decode_u64(b, at2) {
                            Err(e) => Err(e),
                            Ok((size, at3)) => match Properties::spec_decode(b, at3) {
                                Err(e) => Err(e),
                                Ok((properties, next)) => Ok(
                                    ((header, class_id, weight, size, properties), next),
                                ),
                            },
                        },
                    },
                }
            },
        }
    }

    fn decode(buf: &[u8], pos: usize) -> (r: Result<(Self, usize), DecodeError>) {
        let (header, at) = Header::decode(buf, pos)?;
        if header.frame_type != FrameType::Header {
            return Err(DecodeError::UnexpectedFrame);
        }
        let (class_id, at) = ClassID::decode(buf, at)?;
        let (weight, at) = decode_u16(buf, at)?;
        let (size, at) = decode_u64(buf, at)?;
        let (properties, at) = Properties::decode(buf, at)?;
        Ok((Content { header, class_id, weight, size, properties }, at))
    }
}

} // verus!
