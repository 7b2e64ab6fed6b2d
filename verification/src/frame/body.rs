//! The body frame: a run of the bytes of a message.
use vstd::prelude::*;

use crate::encde::header::{FrameType, Header};
use crate::encde::integers::put_bytes;
use crate::encde::raw_bytes::RawBytes;
use crate::encde::{then, Decode, Encode};
use crate::errors::{DecodeError, EncodeError};

verus! {

/// A frame that carries message bytes and nothing else.
#[derive(Debug, Clone, PartialEq, Eq)]
pub struct Body {
    pub header: Header,
    pub content: RawBytes,
}

impl Body {
    /// A body frame with `content` for `channel_id`.
    pub fn new(channel_id: u16, content: RawBytes) -> (r: Self)
        ensures
            r.header == (Header { frame_type: FrameType::Body, channel_id, size: 0 }),
            r.content == content,
    {
        Body { header: Header { frame_type: FrameType::Body, channel_id, size: 0 }, content }
    }
}

impl Encode for Body {
    open spec fn spec_encode(&self) -> Result<Seq<u8>, EncodeError> {
        then(self.header.spec_encode(), self.content.spec_encode())
    }

    fn encode(&self) -> (r: Result<Vec<u8>, EncodeError>) {
        let mut out = self.header.encode()?;
        put_bytes(&mut out, self.content.encode()?);
        Ok(out)
    }
}

impl View for Body {
    type V = (Header, Seq<u8>);

    open spec fn view(&self) -> (Header, Seq<u8>) {
        (self.header, self.content@)
    }
}

impl Decode for Body {
    /// The body frame that stands in `b` at `pos`: its content is all that follows the
    /// header.
    open spec fn spec_decode(b: Seq<u8>, pos: int) -> Result<
        ((Header, Seq<u8>), int),
        DecodeError,
    > {
        match Header::spec_decode(b, pos) {
            Err(e) => Err(e),
            Ok((header, at)) => if header.frame_type != FrameType::Body {
                Err(DecodeError::UnexpectedFrame)
            } else {
                match RawBytes::spec_decode(b, at) {
                    Err(e) => Err(e),
                    Ok((content, next)) => Ok(((header, content), next)),
                }
            },
        }
    }

    fn decode(buf: &[u8], pos: usize) -> (r: Result<(Self, usize), DecodeError>) {
        let (header, at) = Header::decode(buf, pos)?;
        if header.frame_type != FrameType::Body {
            return Err(DecodeError::UnexpectedFrame);
        }
        let (content, at) = RawBytes::decode(buf, at)?;
        Ok((Body { header, content }, at))
    }
}

} // verus!
