//! Methods of the channel class.
use vstd::prelude::*;

use crate::encde::bits::Bits;
use crate::encde::class::ClassID;
use crate::encde::header::{FrameType, Header};
use crate::encde::integers::{decode_u16, put_bytes, put_u16, spec_decode_u16, spec_u16_bytes};
use crate::encde::method::ChannelMethodID;
use crate::encde::short_string::ShortString;
use crate::encde::{decodes_as, then, Decode, Encode};
use crate::errors::{DecodeError, EncodeError};

verus! {

/// What every method frame of the channel class begins with.
#[derive(Debug, Clone, Copy, PartialEq, Eq, Structural)]
pub struct ChannelFrameInfo {
    pub header: Header,
    pub class_id: ClassID,
    pub method_id: ChannelMethodID,
}

impl View for ChannelFrameInfo {
    type V = ChannelFrameInfo;

    open spec fn view(&self) -> ChannelFrameInfo {
        *self
    }
}

impl ChannelFrameInfo {
    /// The start of a method frame of this class on `channel_id`, its size not yet set.
    pub open spec fn spec_new(channel_id: u16, method_id: ChannelMethodID) -> ChannelFrameInfo {
        ChannelFrameInfo {
            header: Header { frame_type: FrameType::Method, channel_id, size: 0 },
            class_id: ClassID::Channel,
            method_id,
        }
    }

    /// The start of a method frame of this class on `channel_id`, its size not yet set.
    pub fn new(channel_id: u16, method_id: ChannelMethodID) -> (r: Self)
        ensures
            r == Self::spec_new(channel_id, method_id),
    {
        ChannelFrameInfo {
            header: Header { frame_type: FrameType::Method, channel_id, size: 0 },
            class_id: ClassID::Channel,
            method_id,
        }
    }

    /// The start of the method frame that stands in `b` at `pos`, which must be a method
    /// frame of this class and carry the method that is expected.
    pub open spec fn spec_decode_expecting(
        b: Seq<u8>,
        pos: int,
        method_id: ChannelMethodID,
    ) -> Result<
        (ChannelFrameInfo, int),
        DecodeError,
    > {
        match Header::spec_decode(b, pos) {
            Err(e) => Err(e),
            Ok((header, at0)) => if header.frame_type != FrameType::Method {
                Err(DecodeError::UnexpectedFrame)
            } else {
                match ClassID::spec_decode(b, at0) {
                    Err(e) => Err(e),
                    Ok((class_id, at1)) => if class_id != ClassID::Channel {
                        Err(DecodeError::UnexpectedMethod)
                    } else {
                        match ChannelMethodID::spec_decode(b, at1) {
                            Err(e) => Err(e),
                            Ok((found, next)) => if found != method_id {
                                Err(DecodeError::UnexpectedMethod)
                            } else {
                                Ok(((ChannelFrameInfo { header, class_id, method_id }), next))
                            },
                        }
                    },
                }
            },
        }
    }

    /// Reads the start of a method frame, and checks that it carries the method that is
    /// expected.
    pub fn decode_expecting(buf: &[u8], pos: usize, method_id: ChannelMethodID) -> (r: Result<
        (Self, usize),
        DecodeError,
    >)
        ensures
            decodes_as(r, Self::spec_decode_expecting(buf@, pos as int, method_id)),
    {
        let (header, at) = Header::decode(buf, pos)?;
        if header.frame_type != FrameType::Method {
            return Err(DecodeError::UnexpectedFrame);
        }
        let (class_id, at) = ClassID::decode(buf, at)?;
        if class_id != ClassID::Channel {
            return Err(DecodeError::UnexpectedMethod);
        }
        let (found, at) = ChannelMethodID::decode(buf, at)?;
        if found != method_id {
            return Err(DecodeError::UnexpectedMethod);
        }
        Ok((ChannelFrameInfo { header, class_id, method_id }, at))
    }
}

impl Encode for ChannelFrameInfo {
    open spec fn spec_encode(&self) -> Result<Seq<u8>, EncodeError> {
        then(
            then(self.header.spec_encode(), self.class_id.spec_encode()),
            self.method_id.spec_encode(),
        )
    }

    fn encode(&self) -> (r: Result<Vec<u8>, EncodeError>) {
        let mut out = self.header.encode()?;
        put_bytes(&mut out, self.class_id.encode()?);
        put_bytes(&mut out, self.method_id.encode()?);
        Ok(out)
    }
}

impl Decode for ChannelFrameInfo {
    open spec fn spec_decode(b: Seq<u8>, pos: int) -> Result<(ChannelFrameInfo, int), DecodeError> {
        match Header::spec_decode(b, pos) {
            Err(e) => Err(e),
            Ok((header, at0)) => match ClassID::spec_decode(b, at0) {
                Err(e) => Err(e),
                Ok((class_id, at1)) => match ChannelMethodID::spec_decode(b, at1) {
                    Err(e) => Err(e),
                    Ok((method_id, next)) => Ok(
                        ((ChannelFrameInfo { header, class_id, method_id }), next),
                    ),
                },
            },
        }
    }

    fn decode(buf: &[u8], pos: usize) -> (r: Result<(Self, usize), DecodeError>) {
        let (header, at) = Header::decode(buf, pos)?;
        let (class_id, at) = ClassID::decode(buf, at)?;
        let (method_id, at) = ChannelMethodID::decode(buf, at)?;
        Ok((ChannelFrameInfo { header, class_id, method_id }, at))
    }
}

/// `channel.open`: opens a channel.
#[derive(Debug, Clone, PartialEq, Eq)]
pub struct Open {
    pub frame_info: ChannelFrameInfo,
    pub reserved_1: ShortString,
}

impl Open {
    /// A `channel.open` for `channel_id`.
    pub fn new(channel_id: u16) -> (r: Self)
        ensures
            r.frame_info == ChannelFrameInfo::spec_new(channel_id, ChannelMethodID::Open),
            r.reserved_1@ == ""@,
    {
        Open {
            frame_info: ChannelFrameInfo::new(channel_id, ChannelMethodID::Open),
            reserved_1: ShortString::from(""),
        }
    }
}

impl Encode for Open {
    open spec fn spec_encode(&self) -> Result<Seq<u8>, EncodeError> {
        then(
            self.frame_info.spec_encode(),
            self.reserved_1.spec_encode(),
        )
    }

    fn encode(&self) -> (r: Result<Vec<u8>, EncodeError>) {
        let mut out = self.frame_info.encode()?;
        put_bytes(&mut out, self.reserved_1.encode()?);
        Ok(out)
    }
}

/// `channel.open-ok`: the channel is open.
#[derive(Debug, Clone, PartialEq, Eq)]
pub struct OpenOk {
    pub frame_info: ChannelFrameInfo,
    pub reserved_1: u16,
}

impl View for OpenOk {
    type V = (ChannelFrameInfo, u16);

    open spec fn view(&self) -> (ChannelFrameInfo, u16) {
        (self.frame_info, self.reserved_1)
    }
}

impl Decode for OpenOk {
    open spec fn spec_decode(b: Seq<u8>, pos: int) -> Result<
        ((ChannelFrameInfo, u16), int),
        DecodeError,
    > {
        match ChannelFrameInfo::spec_decode_expecting(b, pos, ChannelMethodID::OpenOk) {
            Err(e) => Err(e),
            Ok((frame_info, at0)) => match spec_decode_u16(b, at0) {
                Err(e) => Err(e),
                Ok((reserved_1, next)) => Ok(((frame_info, reserved_1), next)),
            },
        }
    }

    fn decode(buf: &[u8], pos: usize) -> (r: Result<(Self, usize), DecodeError>) {
        let (frame_info, at) = ChannelFrameInfo::decode_expecting(
            buf,
            pos,
            ChannelMethodID::OpenOk,
        )?;
        let (reserved_1, at) = decode_u16(buf, at)?;
        Ok((OpenOk { frame_info, reserved_1 }, at))
    }
}

/// `channel.flow`: switches the flow of messages on or off.
#[derive(Debug, Clone, PartialEq, Eq)]
pub struct Flow {
    pub frame_info: ChannelFrameInfo,
    pub active: Bits,
}

impl Encode for Flow {
    open spec fn spec_encode(&self) -> Result<Seq<u8>, EncodeError> {
        then(
            self.frame_info.spec_encode(),
            self.active.spec_encode(),
        )
    }

    fn encode(&self) -> (r: Result<Vec<u8>, EncodeError>) {
        let mut out = self.frame_info.encode()?;
        put_bytes(&mut out, self.active.encode()?);
        Ok(out)
    }
}

/// `channel.flow-ok`: confirms the state of the flow.
#[derive(Debug, Clone, PartialEq, Eq)]
pub struct FlowOk {
    pub frame_info: ChannelFrameInfo,
    pub active: Bits,
}

impl Encode for FlowOk {
    open spec fn spec_encode(&self) -> Result<Seq<u8>, EncodeError> {
        then(
            self.frame_info.spec_encode(),
            self.active.spec_encode(),
        )
    }

    fn encode(&self) -> (r: Result<Vec<u8>, EncodeError>) {
        let mut out = self.frame_info.encode()?;
        put_bytes(&mut out, self.active.encode()?);
        Ok(out)
    }
}

/// `channel.close`: closes the channel, with the reason.
#[derive(Debug, Clone, PartialEq, Eq)]
pub struct Close {
    pub frame_info: ChannelFrameInfo,
    pub reply_code: u16,
    pub reply_text: ShortString,
    pub closing_class_id: u16,
    pub closing_method_id: u16,
    pub reserved_1: ShortString,
}

impl Encode for Close {
    open spec fn spec_encode(&self) -> Result<Seq<u8>, EncodeError> {
        then(
            then(
                then(
                    then(
                        then(
                            self.frame_info.spec_encode(),
                            Ok(spec_u16_bytes(self.reply_code)),
                        ),
                        self.reply_text.spec_encode(),
                    ),
                    Ok(spec_u16_bytes(self.closing_class_id)),
                ),
                Ok(spec_u16_bytes(self.closing_method_id)),
            ),
            self.reserved_1.spec_encode(),
        )
    }

    fn encode(&self) -> (r: Result<Vec<u8>, EncodeError>) {
        let mut out = self.frame_info.encode()?;
        put_u16(&mut out, self.reply_code);
        put_bytes(&mut out, self.reply_text.encode()?);
        put_u16(&mut out, self.closing_class_id);
        put_u16(&mut out, self.closing_method_id);
        put_bytes(&mut out, self.reserved_1.encode()?);
        Ok(out)
    }
}

/// `channel.close-ok`: confirms that the channel is closed.
#[derive(Debug, Clone, PartialEq, Eq)]
pub struct CloseOk {
    pub frame_info: ChannelFrameInfo,
}

impl Encode for CloseOk {
    open spec fn spec_encode(&self) -> Result<Seq<u8>, EncodeError> {
        self.frame_info.spec_encode()
    }

    fn encode(&self) -> (r: Result<Vec<u8>, EncodeError>) {
        self.frame_info.encode()
    }
}
} // verus!
