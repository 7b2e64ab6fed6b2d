//! Methods of the basic class: publishing, consuming, acknowledging.
use vstd::prelude::*;

use crate::encde::bits::Bits;
use crate::encde::class::ClassID;
use crate::encde::header::{FrameType, Header};
use crate::encde::integers::{
    decode_bool, decode_u16, decode_u32, decode_u64, put_bytes, put_u16, put_u32, put_u64,
    put_u8, spec_decode_bool, spec_decode_u16, spec_decode_u32, spec_decode_u64, spec_u16_bytes,
    spec_u32_bytes, spec_u64_bytes,
};
use crate::encde::method::BasicMethodID;
use crate::encde::short_string::ShortString;
use crate::encde::table::{FieldModel, Table};
use crate::encde::{decodes_as, then, Decode, Encode, RESERVED16};
use crate::errors::{DecodeError, EncodeError};

verus! {

/// What every method frame of the basic class begins with.
#[derive(Debug, Clone, Copy, PartialEq, Eq, Structural)]
pub struct BasicFrameInfo {
    pub header: Header,
    pub class_id: ClassID,
    pub method_id: BasicMethodID,
}

impl View for BasicFrameInfo {
    type V = BasicFrameInfo;

    open spec fn view(&self) -> BasicFrameInfo {
        *self
    }
}

impl BasicFrameInfo {
    /// The start of a method frame of this class on `channel_id`, its size not yet set.
    pub open spec fn spec_new(channel_id: u16, method_id: BasicMethodID) -> BasicFrameInfo {
        BasicFrameInfo {
            header: Header { frame_type: FrameType::Method, channel_id, size: 0 },
            class_id: ClassID::Basic,
            method_id,
        }
    }

    /// The start of a method frame of this class on `channel_id`, its size not yet set.
    pub fn new(channel_id: u16, method_id: BasicMethodID) -> (r: Self)
        ensures
            r == Self::spec_new(channel_id, method_id),
    {
        BasicFrameInfo {
            header: Header { frame_type: FrameType::Method, channel_id, size: 0 },
            class_id: ClassID::Basic,
            method_id,
        }
    }

    /// The start of the method frame that stands in `b` at `pos`, which must be a method
    /// frame of this class and carry the method that is expected.
    pub open spec fn spec_decode_expecting(
        b: Seq<u8>,
        pos: int,
        method_id: BasicMethodID,
    ) -> Result<
        (BasicFrameInfo, int),
        DecodeError,
    > {
        match Header::spec_decode(b, pos) {
            Err(e) => Err(e),
            Ok((header, at0)) => if header.frame_type != FrameType::Method {
                Err(DecodeError::UnexpectedFrame)
            } else {
                match ClassID::spec_decode(b, at0) {
                    Err(e) => Err(e),
                    Ok((class_id, at1)) => if class_id != ClassID::Basic {
                        Err(DecodeError::UnexpectedMethod)
                    } else {
                        match BasicMethodID::spec_decode(b, at1) {
                            Err(e) => Err(e),
                            Ok((found, next)) => if found != method_id {
                                Err(DecodeError::UnexpectedMethod)
                            } else {
                                Ok(((BasicFrameInfo { header, class_id, method_id }), next))
                            },
                        }
                    },
                }
            },
        }
    }

    /// Reads the start of a method frame, and checks that it carries the method that is
    /// expected.
    pub fn decode_expecting(buf: &[u8], pos: usize, method_id: BasicMethodID) -> (r: Result<
        (Self, usize),
        DecodeError,
    >)
        ensures
            decodes_as(r, Self::spec_decode_expecting(buf@, pos as int, method_id)),
    {
        let (header, at) = Header::decode(buf, pos)?;
        if header.frame_type != FrameType::Method {
            return Err(DecodeError::UnexpectedFrame);
        }
        let (class_id, at) = ClassID::decode(buf, at)?;
        if class_id != ClassID::Basic {
            return Err(DecodeError::UnexpectedMethod);
        }
        let (found, at) = BasicMethodID::decode(buf, at)?;
        if found != method_id {
            return Err(DecodeError::UnexpectedMethod);
        }
        Ok((BasicFrameInfo { header, class_id, method_id }, at))
    }
}

impl Encode for BasicFrameInfo {
    open spec fn spec_encode(&self) -> Result<Seq<u8>, EncodeError> {
        then(
            then(self.header.spec_encode(), self.class_id.spec_encode()),
            self.method_id.spec_encode(),
        )
    }

    fn encode(&self) -> (r: Result<Vec<u8>, EncodeError>) {
        let mut out = self.header.encode()?;
        put_bytes(&mut out, self.class_id.encode()?);
        put_bytes(&mut out, self.method_id.encode()?);
        Ok(out)
    }
}

impl Decode for BasicFrameInfo {
    open spec fn spec_decode(b: Seq<u8>, pos: int) -> Result<(BasicFrameInfo, int), DecodeError> {
        match Header::spec_decode(b, pos) {
            Err(e) => Err(e),
            Ok((header, at0)) => match ClassID::spec_decode(b, at0) {
                Err(e) => Err(e),
                Ok((class_id, at1)) => match BasicMethodID::spec_decode(b, at1) {
                    Err(e) => Err(e),
                    Ok((method_id, next)) => Ok(
                        ((BasicFrameInfo { header, class_id, method_id }), next),
                    ),
                },
            },
        }
    }

    fn decode(buf: &[u8], pos: usize) -> (r: Result<(Self, usize), DecodeError>) {
        let (header, at) = Header::decode(buf, pos)?;
        let (class_id, at) = ClassID::decode(buf, at)?;
        let (method_id, at) = BasicMethodID::decode(buf, at)?;
        Ok((BasicFrameInfo { header, class_id, method_id }, at))
    }
}

/// `basic.qos`: asks the broker to limit what it sends ahead.
#[derive(Debug, Clone, PartialEq, Eq)]
pub struct QualityOfService {
    pub frame_info: BasicFrameInfo,
    pub prefetch_size: u32,
    pub prefetch_count: u16,
    pub global: Bits,
}

impl QualityOfService {
    /// A `basic.qos` for `channel_id`.
    pub fn new(channel_id: u16, prefetch_size: u32, prefetch_count: u16, global: bool) -> (r: Self)
        ensures
            r.frame_info == BasicFrameInfo::spec_new(channel_id, BasicMethodID::QualityOfService),
            r.prefetch_size == prefetch_size,
            r.prefetch_count == prefetch_count,
            r.global@ == seq![global],
    {
        QualityOfService {
            frame_info: BasicFrameInfo::new(channel_id, BasicMethodID::QualityOfService),
            prefetch_size,
            prefetch_count,
            global: Bits::from((global,)),
        }
    }
}

impl Encode for QualityOfService {
    open spec fn spec_encode(&self) -> Result<Seq<u8>, EncodeError> {
        then(
            then(
                then(
                    self.frame_info.spec_encode(),
                    Ok(spec_u32_bytes(self.prefetch_size)),
                ),
                Ok(spec_u16_bytes(self.prefetch_count)),
            ),
            self.global.spec_encode(),
        )
    }

    fn encode(&self) -> (r: Result<Vec<u8>, EncodeError>) {
        let mut out = self.frame_info.encode()?;
        put_u32(&mut out, self.prefetch_size);
        put_u16(&mut out, self.prefetch_count);
        put_bytes(&mut out, self.global.encode()?);
        Ok(out)
    }
}

/// `basic.qos-ok`: the broker took the limit.
#[derive(Debug, Clone, PartialEq, Eq)]
pub struct QualityOfServiceOk {
    pub frame_info: BasicFrameInfo,
}

impl View for QualityOfServiceOk {
    type V = (BasicFrameInfo,);

    open spec fn view(&self) -> (BasicFrameInfo,) {
        (self.frame_info,)
    }
}

impl Decode for QualityOfServiceOk {
    open spec fn spec_decode(b: Seq<u8>, pos: int) -> Result<
        ((BasicFrameInfo,), int),
        DecodeError,
    > {
        match BasicFrameInfo::spec_decode_expecting(b, pos, BasicMethodID::QualityOfServiceOk) {
            Err(e) => Err(e),
            Ok((frame_info, next)) => Ok(((frame_info,), next)),
        }
    }

    fn decode(buf: &[u8], pos: usize) -> (r: Result<(Self, usize), DecodeError>) {
        let (frame_info, at) = BasicFrameInfo::decode_expecting(
            buf,
            pos,
            BasicMethodID::QualityOfServiceOk,
        )?;
        Ok((QualityOfServiceOk { frame_info }, at))
    }
}

/// `basic.consume`: asks the broker to deliver from a queue.
#[derive(Debug, Clone, PartialEq, Eq)]
pub struct Consume {
    pub frame_info: BasicFrameInfo,
    pub reserved_1: u16,
    pub queue_name: ShortString,
    pub consumer_tag: ShortString,
    pub bits: Bits,
    pub arguments: Table,
}

impl Consume {
    /// A `basic.consume` on `queue_name`, under the consumer tag `abc`.
    pub fn new(channel_id: u16, queue_name: &str) -> (r: Self)
        ensures
            r.frame_info == BasicFrameInfo::spec_new(channel_id, BasicMethodID::Consume),
            r.reserved_1 == RESERVED16,
            r.queue_name@ == queue_name@,
            r.consumer_tag@ == "abc"@,
            r.bits@ == Seq::<bool>::empty(),
            r.arguments@ == Seq::<(Seq<char>, FieldModel)>::empty(),
    {
        Consume {
            frame_info: BasicFrameInfo::new(channel_id, BasicMethodID::Consume),
            reserved_1: RESERVED16,
            queue_name: ShortString::from(queue_name),
            consumer_tag: ShortString::from("abc"),
            bits: Bits::default(),
            arguments: Table::default(),
        }
    }
}

impl Encode for Consume {
    open spec fn spec_encode(&self) -> Result<Seq<u8>, EncodeError> {
        then(
            then(
                then(
                    then(
                        then(
                            self.frame_info.spec_encode(),
                            Ok(spec_u16_bytes(self.reserved_1)),
                        ),
                        self.queue_name.spec_encode(),
                    ),
                    self.consumer_tag.spec_encode(),
                ),
                self.bits.spec_encode(),
            ),
            self.arguments.spec_encode(),
        )
    }

    fn encode(&self) -> (r: Result<Vec<u8>, EncodeError>) {
        let mut out = self.frame_info.encode()?;
        put_u16(&mut out, self.reserved_1);
        put_bytes(&mut out, self.queue_name.encode()?);
        put_bytes(&mut out, self.consumer_tag.encode()?);
        put_bytes(&mut out, self.bits.encode()?);
        put_bytes(&mut out, self.arguments.encode()?);
        Ok(out)
    }
}

/// `basic.consume-ok`: the broker started the consumer.
#[derive(Debug, Clone, PartialEq, Eq)]
pub struct ConsumeOk {
    pub frame_info: BasicFrameInfo,
    pub consumer_tag: ShortString,
}

impl View for ConsumeOk {
    type V = (BasicFrameInfo, Seq<char>);

    open spec fn view(&self) -> (BasicFrameInfo, Seq<char>) {
        (self.frame_info, self.consumer_tag@)
    }
}

impl Decode for ConsumeOk {
    open spec fn spec_decode(b: Seq<u8>, pos: int) -> Result<
        ((BasicFrameInfo, Seq<char>), int),
        DecodeError,
    > {
        match BasicFrameInfo::spec_decode_expecting(b, pos, BasicMethodID::ConsumeOk) {
            Err(e) => Err(e),
            Ok((frame_info, at0)) => match ShortString::spec_decode(b, at0) {
                Err(e) => Err(e),
                Ok((consumer_tag, next)) => Ok(((frame_info, consumer_tag), next)),
            },
        }
    }

    fn decode(buf: &[u8], pos: usize) -> (r: Result<(Self, usize), DecodeError>) {
        let (frame_info, at) = BasicFrameInfo::decode_expecting(
            buf,
            pos,
            BasicMethodID::ConsumeOk,
        )?;
        let (consumer_tag, at) = ShortString::decode(buf, at)?;
        Ok((ConsumeOk { frame_info, consumer_tag }, at))
    }
}

/// `basic.cancel`: ends a consumer.
#[derive(Debug, Clone, PartialEq, Eq)]
pub struct Cancel {
    pub frame_info: BasicFrameInfo,
    pub consumer_tag: ShortString,
    pub no_wait: Bits,
}

impl Cancel {
    /// A `basic.cancel` for the consumer `consumer_tag`.
    pub fn new(channel_id: u16, consumer_tag: &str, no_wait: bool) -> (r: Self)
        ensures
            r.frame_info == BasicFrameInfo::spec_new(channel_id, BasicMethodID::Cancel),
            r.consumer_tag@ == consumer_tag@,
            r.no_wait@ == seq![no_wait],
    {
        Cancel {
            frame_info: BasicFrameInfo::new(channel_id, BasicMethodID::Cancel),
            consumer_tag: ShortString::from(consumer_tag),
            no_wait: Bits::from((no_wait,)),
        }
    }
}

impl Encode for Cancel {
    open spec fn spec_encode(&self) -> Result<Seq<u8>, EncodeError> {
        then(
            then(
                self.frame_info.spec_encode(),
                self.consumer_tag.spec_encode(),
            ),
            self.no_wait.spec_encode(),
        )
    }

    fn encode(&self) -> (r: Result<Vec<u8>, EncodeError>) {
        let mut out = self.frame_info.encode()?;
        put_bytes(&mut out, self.consumer_tag.encode()?);
        put_bytes(&mut out, self.no_wait.encode()?);
        Ok(out)
    }
}

/// `basic.cancel-ok`: the broker ended the consumer.
#[derive(Debug, Clone, PartialEq, Eq)]
pub struct CancelOk {
    pub frame_info: BasicFrameInfo,
    pub consumer_tag: ShortString,
}

impl View for CancelOk {
    type V = (BasicFrameInfo, Seq<char>);

    open spec fn view(&self) -> (BasicFrameInfo, Seq<char>) {
        (self.frame_info, self.consumer_tag@)
    }
}

impl Decode for CancelOk {
    open spec fn spec_decode(b: Seq<u8>, pos: int) -> Result<
        ((BasicFrameInfo, Seq<char>), int),
        DecodeError,
    > {
        match BasicFrameInfo::spec_decode_expecting(b, pos, BasicMethodID::CancelOk) {
            Err(e) => Err(e),
            Ok((frame_info, at0)) => match ShortString::spec_decode(b, at0) {
                Err(e) => Err(e),
                Ok((consumer_tag, next)) => Ok(((frame_info, consumer_tag), next)),
            },
        }
    }

    fn decode(buf: &[u8], pos: usize) -> (r: Result<(Self, usize), DecodeError>) {
        let (frame_info, at) = BasicFrameInfo::decode_expecting(buf, pos, BasicMethodID::CancelOk)?;
        let (consumer_tag, at) = ShortString::decode(buf, at)?;
        Ok((CancelOk { frame_info, consumer_tag }, at))
    }
}

/// `basic.return`: the broker hands back a message that it could not route.
#[derive(Debug, Clone, PartialEq, Eq)]
pub struct Return {
    pub frame_info: BasicFrameInfo,
    pub reply_code: u16,
    pub reply_text: ShortString,
    pub exchange_name: ShortString,
    pub routing_key: ShortString,
}

impl View for Return {
    type V = (BasicFrameInfo, u16, Seq<char>, Seq<char>, Seq<char>);

    open spec fn view(&self) -> (BasicFrameInfo, u16, Seq<char>, Seq<char>, Seq<char>) {
        (self.frame_info, self.reply_code, self.reply_text@, self.exchange_name@, self.routing_key@)
    }
}

impl Decode for Return {
    open spec fn spec_decode(b: Seq<u8>, pos: int) -> Result<
        ((BasicFrameInfo, u16, Seq<char>, Seq<char>, Seq<char>), int),
        DecodeError,
    > {
        match BasicFrameInfo::spec_decode_expecting(b, pos, BasicMethodID::Return) {
            Err(e) => Err(e),
            Ok((frame_info, at0)) => match spec_decode_u16(b, at0) {
                Err(e) => Err(e),
                Ok((reply_code, at1)) => match ShortString::spec_decode(b, at1) {
                    Err(e) => Err(e),
                    Ok((reply_text, at2)) => match ShortString::spec_decode(b, at2) {
                        Err(e) => Err(e),
                        Ok((exchange_name, at3)) => match ShortString::spec_decode(b, at3) {
                            Err(e) => Err(e),
                            Ok((routing_key, next)) => Ok(
                                (
                                    (
                                        frame_info,
                                        reply_code,
                                        reply_text,
                                        exchange_name,
                                        routing_key,
                                    ),
                                    next,
                                ),
                            ),
                        },
                    },
                },
            },
        }
    }

    fn decode(buf: &[u8], pos: usize) -> (r: Result<(Self, usize), DecodeError>) {
        let (frame_info, at) = BasicFrameInfo::decode_expecting(buf, pos, BasicMethodID::Return)?;
        let (reply_code, at) = decode_u16(buf, at)?;
        let (reply_text, at) = ShortString::decode(buf, at)?;
        let (exchange_name, at) = ShortString::decode(buf, at)?;
        let (routing_key, at) = ShortString::decode(buf, at)?;
        Ok((Return { frame_info, reply_code, reply_text, exchange_name, routing_key }, at))
    }
}

/// `basic.publish`: hands a message to an exchange. The flags are `mandatory` and `immediate`.
#[derive(Debug, Clone, PartialEq, Eq)]
pub struct Publish {
    pub frame_info: BasicFrameInfo,
    pub reserved_1: u16,
    pub exchange_name: ShortString,
    pub routing_key: ShortString,
    pub bits: Bits,
}

impl Publish {
    /// A `basic.publish` to `exchange_name` under `routing_key`.
    pub fn new(
        channel_id: u16,
        exchange_name: &str,
        routing_key: &str,
        mandatory: bool,
        immediate: bool,
    ) -> (r: Self)
        ensures
            r.frame_info == BasicFrameInfo::spec_new(channel_id, BasicMethodID::Publish),
            r.reserved_1 == RESERVED16,
            r.exchange_name@ == exchange_name@,
            r.routing_key@ == routing_key@,
            r.bits@ == seq![mandatory, immediate],
    {
        Publish {
            frame_info: BasicFrameInfo::new(channel_id, BasicMethodID::Publish),
            reserved_1: RESERVED16,
            exchange_name: ShortString::from(exchange_name),
            routing_key: ShortString::from(routing_key),
            bits: Bits::from((mandatory, immediate)),
        }
    }
}

impl Encode for Publish {
    open spec fn spec_encode(&self) -> Result<Seq<u8>, EncodeError> {
        then(
            then(
                then(
                    then(
                        self.frame_info.spec_encode(),
                        Ok(spec_u16_bytes(self.reserved_1)),
                    ),
                    self.exchange_name.spec_encode(),
                ),
                self.routing_key.spec_encode(),
            ),
            self.bits.spec_encode(),
        )
    }

    fn encode(&self) -> (r: Result<Vec<u8>, EncodeError>) {
        let mut out = self.frame_info.encode()?;
        put_u16(&mut out, self.reserved_1);
        put_bytes(&mut out, self.exchange_name.encode()?);
        put_bytes(&mut out, self.routing_key.encode()?);
        put_bytes(&mut out, self.bits.encode()?);
        Ok(out)
    }
}

/// `basic.deliver`: the broker hands a message to a consumer.
#[derive(Debug, Clone, PartialEq, Eq)]
pub struct Deliver {
    pub frame_info: BasicFrameInfo,
    pub consumer_tag: ShortString,
    pub delivery_tag: u64,
    pub redelivered: bool,
    pub exchange: ShortString,
    pub routing: ShortString,
}

impl View for Deliver {
    type V = (BasicFrameInfo, Seq<char>, u64, bool, Seq<char>, Seq<char>);

    open spec fn view(&self) -> (BasicFrameInfo, Seq<char>, u64, bool, Seq<char>, Seq<char>) {
        (
            self.frame_info,
            self.consumer_tag@,
            self.delivery_tag,
            self.redelivered,
            self.exchange@,
            self.routing@,
        )
    }
}

impl Decode for Deliver {
    open spec fn spec_decode(b: Seq<u8>, pos: int) -> Result<
        ((BasicFrameInfo, Seq<char>, u64, bool, Seq<char>, Seq<char>), int),
        DecodeError,
    > {
        match BasicFrameInfo::spec_decode_expecting(b, pos, BasicMethodID::Deliver) {
            Err(e) => Err(e),
            Ok((frame_info, at0)) => match ShortString::spec_decode(b, at0) {
                Err(e) => Err(e),
                Ok((consumer_tag, at1)) => match spec_decode_u64(b, at1) {
                    Err(e) => Err(e),
                    Ok((delivery_tag, at2)) => match spec_decode_bool(b, at2) {
                        Err(e) => Err(e),
                        Ok((redelivered, at3)) => match ShortString::spec_decode(b, at3) {
                            Err(e) => Err(e),
                            Ok((exchange, at4)) => match ShortString::spec_decode(b, at4) {
                                Err(e) => Err(e),
                                Ok((routing, next)) => Ok(
                                    (
                                        (
                                            frame_info,
                                            consumer_tag,
                                            delivery_tag,
                                            redelivered,
                                            exchange,
                                            routing,
                                        ),
                                        next,
                                    ),
                                ),
                            },
                        },
                    },
                },
            },
        }
    }

    fn decode(buf: &[u8], pos: usize) -> (r: Result<(Self, usize), DecodeError>) {
        let (frame_info, at) = BasicFrameInfo::decode_expecting(buf, pos, BasicMethodID::Deliver)?;
        let (consumer_tag, at) = ShortString::decode(buf, at)?;
        let (delivery_tag, at) = decode_u64(buf, at)?;
        let (redelivered, at) = decode_bool(buf, at)?;
        let (exchange, at) = ShortString::decode(buf, at)?;
        let (routing, at) = ShortString::decode(buf, at)?;
        Ok((Deliver { frame_info, consumer_tag, delivery_tag, redelivered, exchange, routing }, at))
    }
}

/// `basic.get`: asks for one message from a queue.
#[derive(Debug, Clone, PartialEq, Eq)]
pub struct Get {
    pub frame_info: BasicFrameInfo,
    pub reserved_1: u16,
    pub queue_name: ShortString,
    pub no_ack: Bits,
}

impl Get {
    /// A `basic.get` on `queue_name`.
    pub fn new(channel_id: u16, queue_name: &str, no_ack: bool) -> (r: Self)
        ensures
            r.frame_info == BasicFrameInfo::spec_new(channel_id, BasicMethodID::Get),
            r.reserved_1 == RESERVED16,
            r.queue_name@ == queue_name@,
            r.no_ack@ == seq![no_ack],
    {
        Get {
            frame_info: BasicFrameInfo::new(channel_id, BasicMethodID::Get),
            reserved_1: RESERVED16,
            queue_name: ShortString::from(queue_name),
            no_ack: Bits::from((no_ack,)),
        }
    }
}

impl Encode for Get {
    open spec fn spec_encode(&self) -> Result<Seq<u8>, EncodeError> {
        then(
            then(
                then(
                    self.frame_info.spec_encode(),
                    Ok(spec_u16_bytes(self.reserved_1)),
                ),
                self.queue_name.spec_encode(),
            ),
            self.no_ack.spec_encode(),
        )
    }

    fn encode(&self) -> (r: Result<Vec<u8>, EncodeError>) {
        let mut out = self.frame_info.encode()?;
        put_u16(&mut out, self.reserved_1);
        put_bytes(&mut out, self.queue_name.encode()?);
        put_bytes(&mut out, self.no_ack.encode()?);
        Ok(out)
    }
}

/// `basic.get-ok`: the broker hands over the message that was asked for.
#[derive(Debug, Clone, PartialEq, Eq)]
pub struct GetOk {
    pub frame_info: BasicFrameInfo,
    pub redelivered: Bits,
    pub delivery_tag: u64,
    pub exchange_name: ShortString,
    pub routing_key: ShortString,
    pub message_count: u32,
}

impl View for GetOk {
    type V = (BasicFrameInfo, Seq<bool>, u64, Seq<char>, Seq<char>, u32);

    open spec fn view(&self) -> (BasicFrameInfo, Seq<bool>, u64, Seq<char>, Seq<char>, u32) {
        (
            self.frame_info,
            self.redelivered@,
            self.delivery_tag,
            self.exchange_name@,
            self.routing_key@,
            self.message_count,
        )
    }
}

impl Decode for GetOk {
    open spec fn spec_decode(b: Seq<u8>, pos: int) -> Result<
        ((BasicFrameInfo, Seq<bool>, u64, Seq<char>, Seq<char>, u32), int),
        DecodeError,
    > {
        match BasicFrameInfo::spec_decode_expecting(b, pos, BasicMethodID::GetOk) {
            Err(e) => Err(e),
            Ok((frame_info, at0)) => match Bits::spec_decode(b, at0) {
                Err(e) => Err(e),
                Ok((redelivered, at1)) => match spec_decode_u64(b, at1) {
                    Err(e) => Err(e),
                    Ok((delivery_tag, at2)) => match ShortString::spec_decode(b, at2) {
                        Err(e) => Err(e),
                        Ok((exchange_name, at3)) => match ShortString::spec_decode(b, at3) {
                            Err(e) => Err(e),
                            Ok((routing_key, at4)) => match spec_decode_u32(b, at4) {
                                Err(e) => Err(e),
                                Ok((message_count, next)) => Ok(
                                    (
                                        (
                                            frame_info,
                                            redelivered,
                                            delivery_tag,
                                            exchange_name,
                                            routing_key,
                                            message_count,
                                        ),
                                        next,
                                    ),
                                ),
                            },
                        },
                    },
                },
            },
        }
    }

    fn decode(buf: &[u8], pos: usize) -> (r: Result<(Self, usize), DecodeError>) {
        let (frame_info, at) = BasicFrameInfo::decode_expecting(buf, pos, BasicMethodID::GetOk)?;
        let (redelivered, at) = Bits::decode(buf, at)?;
        let (delivery_tag, at) = decode_u64(buf, at)?;
        let (exchange_name, at) = ShortString::decode(buf, at)?;
        let (routing_key, at) = ShortString::decode(buf, at)?;
        let (message_count, at) = decode_u32(buf, at)?;
        Ok(
            (
                GetOk {
                    frame_info,
                    redelivered,
                    delivery_tag,
                    exchange_name,
                    routing_key,
                    message_count,
                },
                at,
            ),
        )
    }
}

/// `basic.get-empty`: the queue had no message.
#[derive(Debug, Clone, PartialEq, Eq)]
pub struct GetEmpty {
    pub frame_info: BasicFrameInfo,
    pub reserved_1: u16,
}

impl View for GetEmpty {
    type V = (BasicFrameInfo, u16);

    open spec fn view(&self) -> (BasicFrameInfo, u16) {
        (self.frame_info, self.reserved_1)
    }
}

impl Decode for GetEmpty {
    open spec fn spec_decode(b: Seq<u8>, pos: int) -> Result<
        ((BasicFrameInfo, u16), int),
        DecodeError,
    > {
        match BasicFrameInfo::spec_decode_expecting(b, pos, BasicMethodID::GetEmpty) {
            Err(e) => Err(e),
            Ok((frame_info, at0)) => match spec_decode_u16(b, at0) {
                Err(e) => Err(e),
                Ok((reserved_1, next)) => Ok(((frame_info, reserved_1), next)),
            },
        }
    }

    fn decode(buf: &[u8], pos: usize) -> (r: Result<(Self, usize), DecodeError>) {
        let (frame_info, at) = BasicFrameInfo::decode_expecting(buf, pos, BasicMethodID::GetEmpty)?;
        let (reserved_1, at) = decode_u16(buf, at)?;
        Ok((GetEmpty { frame_info, reserved_1 }, at))
    }
}

/// `basic.ack`: acknowledges a delivery by its tag.
#[derive(Debug, Clone, PartialEq, Eq)]
pub struct Ack {
    pub frame_info: BasicFrameInfo,
    pub delivery_tag: u64,
    pub multiple: u8,
}

impl Ack {
    /// A `basic.ack` on channel 1 for the one delivery `delivery_tag`.
    pub fn new(delivery_tag: u64) -> (r: Self)
        ensures
            r.frame_info == BasicFrameInfo::spec_new(1, BasicMethodID::Ack),
            r.delivery_tag == delivery_tag,
            r.multiple == 0,
    {
        Ack {
            frame_info: BasicFrameInfo::new(1, BasicMethodID::Ack),
            delivery_tag,
            multiple: 0,
        }
    }
}

impl Encode for Ack {
    open spec fn spec_encode(&self) -> Result<Seq<u8>, EncodeError> {
        then(
            then(
                self.frame_info.spec_encode(),
                Ok(spec_u64_bytes(self.delivery_tag)),
            ),
            Ok(seq![self.multiple]),
        )
    }

    fn encode(&self) -> (r: Result<Vec<u8>, EncodeError>) {
        let mut out = self.frame_info.encode()?;
        put_u64(&mut out, self.delivery_tag);
        put_u8(&mut out, self.multiple);
        Ok(out)
    }
}

/// `basic.reject`: refuses a delivery.
#[derive(Debug, Clone, PartialEq, Eq)]
pub struct Reject {
    pub frame_info: BasicFrameInfo,
    pub delivery_tag: u64,
    pub requeue: Bits,
}

impl Reject {
    /// A `basic.reject` for the delivery `delivery_tag`.
    pub fn new(channel_id: u16, delivery_tag: u64, requeue: bool) -> (r: Self)
        ensures
            r.frame_info == BasicFrameInfo::spec_new(channel_id, BasicMethodID::Reject),
            r.delivery_tag == delivery_tag,
            r.requeue@ == seq![requeue],
    {
        Reject {
            frame_info: BasicFrameInfo::new(channel_id, BasicMethodID::Reject),
            delivery_tag,
            requeue: Bits::from((requeue,)),
        }
    }
}

impl Encode for Reject {
    open spec fn spec_encode(&self) -> Result<Seq<u8>, EncodeError> {
        then(
            then(
                self.frame_info.spec_encode(),
                Ok(spec_u64_bytes(self.delivery_tag)),
            ),
            self.requeue.spec_encode(),
        )
    }

    fn encode(&self) -> (r: Result<Vec<u8>, EncodeError>) {
        let mut out = self.frame_info.encode()?;
        put_u64(&mut out, self.delivery_tag);
        put_bytes(&mut out, self.requeue.encode()?);
        Ok(out)
    }
}

/// `basic.recover`: asks for unacknowledged messages again.
#[derive(Debug, Clone, PartialEq, Eq)]
pub struct Recover {
    pub frame_info: BasicFrameInfo,
    pub requeue: Bits,
}

impl Recover {
    /// A `basic.recover` for `channel_id`.
    pub fn new(channel_id: u16, requeue: bool) -> (r: Self)
        ensures
            r.frame_info == BasicFrameInfo::spec_new(channel_id, BasicMethodID::Recover),
            r.requeue@ == seq![requeue],
    {
        Recover {
            frame_info: BasicFrameInfo::new(channel_id, BasicMethodID::Recover),
            requeue: Bits::from((requeue,)),
        }
    }
}

impl Encode for Recover {
    open spec fn spec_encode(&self) -> Result<Seq<u8>, EncodeError> {
        then(
            self.frame_info.spec_encode(),
            self.requeue.spec_encode(),
        )
    }

    fn encode(&self) -> (r: Result<Vec<u8>, EncodeError>) {
        let mut out = self.frame_info.encode()?;
        put_bytes(&mut out, self.requeue.encode()?);
        Ok(out)
    }
}

/// `basic.recover-ok`: the broker will send them again.
#[derive(Debug, Clone, PartialEq, Eq)]
pub struct RecoverOk {
    pub frame_info: BasicFrameInfo,
}

impl View for RecoverOk {
    type V = (BasicFrameInfo,);

    open spec fn view(&self) -> (BasicFrameInfo,) {
        (self.frame_info,)
    }
}

impl Decode for RecoverOk {
    open spec fn spec_decode(b: Seq<u8>, pos: int) -> Result<
        ((BasicFrameInfo,), int),
        DecodeError,
    > {
        match BasicFrameInfo::spec_decode_expecting(b, pos, BasicMethodID::RecoverOk) {
            Err(e) => Err(e),
            Ok((frame_info, next)) => Ok(((frame_info,), next)),
        }
    }

    fn decode(buf: &[u8], pos: usize) -> (r: Result<(Self, usize), DecodeError>) {
        let (frame_info, at) = BasicFrameInfo::decode_expecting(
            buf,
            pos,
            BasicMethodID::RecoverOk,
        )?;
        Ok((RecoverOk { frame_info }, at))
    }
}
} // verus!
