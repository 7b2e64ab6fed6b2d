//! Methods of the queue class.
use vstd::prelude::*;

use crate::encde::bits::Bits;
use crate::encde::class::ClassID;
use crate::encde::header::{FrameType, Header};
use crate::encde::integers::{decode_u32, put_bytes, put_u16, spec_decode_u32, spec_u16_bytes};
use crate::encde::method::QueueMethodID;
use crate::encde::short_string::ShortString;
use crate::encde::table::{FieldModel, Table};
use crate::encde::{decodes_as, then, Decode, Encode, RESERVED16};
use crate::errors::{DecodeError, EncodeError};
use crate::types::queue_definition::QueueDefinition;

verus! {

/// What every method frame of the queue class begins with.
#[derive(Debug, Clone, Copy, PartialEq, Eq, Structural)]
pub struct QueueFrameInfo {
    pub header: Header,
    pub class_id: ClassID,
    pub method_id: QueueMethodID,
}

impl View for QueueFrameInfo {
    type V = QueueFrameInfo;

    open spec fn view(&self) -> QueueFrameInfo {
        *self
    }
}

impl QueueFrameInfo {
    /// The start of a method frame of this class on `channel_id`, its size not yet set.
    pub open spec fn spec_new(channel_id: u16, method_id: QueueMethodID) -> QueueFrameInfo {
        QueueFrameInfo {
            header: Header { frame_type: FrameType::Method, channel_id, size: 0 },
            class_id: ClassID::Queue,
            method_id,
        }
    }

    /// The start of a method frame of this class on `channel_id`, its size not yet set.
    pub fn new(channel_id: u16, method_id: QueueMethodID) -> (r: Self)
        ensures
            r == Self::spec_new(channel_id, method_id),
    {
        QueueFrameInfo {
            header: Header { frame_type: FrameType::Method, channel_id, size: 0 },
            class_id: ClassID::Queue,
            method_id,
        }
    }

    /// The start of the method frame that stands in `b` at `pos`, which must be a method
    /// frame of this class and carry the method that is expected.
    pub open spec fn spec_decode_expecting(
        b: Seq<u8>,
        pos: int,
        method_id: QueueMethodID,
    ) -> Result<
        (QueueFrameInfo, int),
        DecodeError,
    > {
        match Header::spec_decode(b, pos) {
            Err(e) => Err(e),
            Ok((header, at0)) => if header.frame_type != FrameType::Method {
                Err(DecodeError::UnexpectedFrame)
            } else {
                match ClassID::spec_decode(b, at0) {
                    Err(e) => Err(e),
                    Ok((class_id, at1)) => if class_id != ClassID::Queue {
                        Err(DecodeError::UnexpectedMethod)
                    } else {
                        match QueueMethodID::spec_decode(b, at1) {
                            Err(e) => Err(e),
                            Ok((found, next)) => if found != method_id {
                                Err(DecodeError::UnexpectedMethod)
                            } else {
                                Ok(((QueueFrameInfo { header, class_id, method_id }), next))
                            },
                        }
                    },
                }
            },
        }
    }

    /// Reads the start of a method frame, and checks that it carries the method that is
    /// expected.
    pub fn decode_expecting(buf: &[u8], pos: usize, method_id: QueueMethodID) -> (r: Result<
        (Self, usize),
        DecodeError,
    >)
        ensures
            decodes_as(r, Self::spec_decode_expecting(buf@, pos as int, method_id)),
    {
        let (header, at) = Header::decode(buf, pos)?;
        if header.frame_type != FrameType::Method {
            return Err(DecodeError::UnexpectedFrame);
        }
        let (class_id, at) = ClassID::decode(buf, at)?;
        if class_id != ClassID::Queue {
            return Err(DecodeError::UnexpectedMethod);
        }
        let (found, at) = QueueMethodID::decode(buf, at)?;
        if found != method_id {
            return Err(DecodeError::UnexpectedMethod);
        }
        Ok((QueueFrameInfo { header, class_id, method_id }, at))
    }
}

impl Encode for QueueFrameInfo {
    open spec fn spec_encode(&self) -> Result<Seq<u8>, EncodeError> {
        then(
            then(self.header.spec_encode(), self.class_id.spec_encode()),
            self.method_id.spec_encode(),
        )
    }

    fn encode(&self) -> (r: Result<Vec<u8>, EncodeError>) {
        let mut out = self.header.encode()?;
        put_bytes(&mut out, self.class_id.encode()?);
        put_bytes(&mut out, self.method_id.encode()?);
        Ok(out)
    }
}

impl Decode for QueueFrameInfo {
    open spec fn spec_decode(b: Seq<u8>, pos: int) -> Result<(QueueFrameInfo, int), DecodeError> {
        match Header::spec_decode(b, pos) {
            Err(e) => Err(e),
            Ok((header, at0)) => match ClassID::spec_decode(b, at0) {
                Err(e) => Err(e),
                Ok((class_id, at1)) => match QueueMethodID::spec_decode(b, at1) {
                    Err(e) => Err(e),
                    Ok((method_id, next)) => Ok(
                        ((QueueFrameInfo { header, class_id, method_id }), next),
                    ),
                },
            },
        }
    }

    fn decode(buf: &[u8], pos: usize) -> (r: Result<(Self, usize), DecodeError>) {
        let (header, at) = Header::decode(buf, pos)?;
        let (class_id, at) = ClassID::decode(buf, at)?;
        let (method_id, at) = QueueMethodID::decode(buf, at)?;
        Ok((QueueFrameInfo { header, class_id, method_id }, at))
    }
}

/// `queue.declare`: makes sure that a queue exists.
#[derive(Debug, Clone, PartialEq, Eq)]
pub struct Declare {
    pub frame_info: QueueFrameInfo,
    pub reserved_1: u16,
    pub queue: ShortString,
    pub bits: Bits,
    pub arguments: Table,
}

impl Declare {
    /// A `queue.declare` for `channel_id`, with no arguments.
    pub fn new(
        channel_id: u16,
        queue: &str,
        passive: bool,
        durable: bool,
        exclusive: bool,
        auto_delete: bool,
        no_wait: bool,
    ) -> (r: Self)
        ensures
            r.frame_info == QueueFrameInfo::spec_new(channel_id, QueueMethodID::Declare),
            r.reserved_1 == RESERVED16,
            r.queue@ == queue@,
            r.bits@ == seq![passive, durable, exclusive, auto_delete, no_wait],
            r.arguments@ == Seq::<(Seq<char>, FieldModel)>::empty(),
    {
        Declare {
            frame_info: QueueFrameInfo::new(channel_id, QueueMethodID::Declare),
            reserved_1: RESERVED16,
            queue: ShortString::from(queue),
            bits: Bits::from((passive, durable, exclusive, auto_delete, no_wait)),
            arguments: Table::default(),
        }
    }
}

impl Encode for Declare {
    open spec fn spec_encode(&self) -> Result<Seq<u8>, EncodeError> {
        then(
            then(
                then(
                    then(
                        self.frame_info.spec_encode(),
                        Ok(spec_u16_bytes(self.reserved_1)),
                    ),
                    self.queue.spec_encode(),
                ),
                self.bits.spec_encode(),
            ),
            self.arguments.spec_encode(),
        )
    }

    fn encode(&self) -> (r: Result<Vec<u8>, EncodeError>) {
        let mut out = self.frame_info.encode()?;
        put_u16(&mut out, self.reserved_1);
        put_bytes(&mut out, self.queue.encode()?);
        put_bytes(&mut out, self.bits.encode()?);
        put_bytes(&mut out, self.arguments.encode()?);
        Ok(out)
    }
}

/// `queue.declare-ok`: the queue is there, with so many messages and consumers.
#[derive(Debug, Clone, PartialEq, Eq)]
pub struct DeclareOk {
    pub frame_info: QueueFrameInfo,
    pub queue_name: ShortString,
    pub message_count: u32,
    pub consumer_count: u32,
}

impl View for DeclareOk {
    type V = (QueueFrameInfo, Seq<char>, u32, u32);

    open spec fn view(&self) -> (QueueFrameInfo, Seq<char>, u32, u32) {
        (self.frame_info, self.queue_name@, self.message_count, self.consumer_count)
    }
}

impl Decode for DeclareOk {
    open spec fn spec_decode(b: Seq<u8>, pos: int) -> Result<
        ((QueueFrameInfo, Seq<char>, u32, u32), int),
        DecodeError,
    > {
        match QueueFrameInfo::spec_decode_expecting(b, pos, QueueMethodID::DeclareOk) {
            Err(e) => Err(e),
            Ok((frame_info, at0)) => match ShortString::spec_decode(b, at0) {
                Err(e) => Err(e),
                Ok((queue_name, at1)) => match spec_decode_u32(b, at1) {
                    Err(e) => Err(e),
                    Ok((message_count, at2)) => match spec_decode_u32(b, at2) {
                        Err(e) => Err(e),
                        Ok((consumer_count, next)) => Ok(
                            ((frame_info, queue_name, message_count, consumer_count), next),
                        ),
                    },
                },
            },
        }
    }

    fn decode(buf: &[u8], pos: usize) -> (r: Result<(Self, usize), DecodeError>) {
        let (frame_info, at) = QueueFrameInfo::decode_expecting(
            buf,
            pos,
            QueueMethodID::DeclareOk,
        )?;
        let (queue_name, at) = ShortString::decode(buf, at)?;
        let (message_count, at) = decode_u32(buf, at)?;
        let (consumer_count, at) = decode_u32(buf, at)?;
        Ok((DeclareOk { frame_info, queue_name, message_count, consumer_count }, at))
    }
}

/// `queue.bind`: binds a queue to an exchange.
#[derive(Debug, Clone, PartialEq, Eq)]
pub struct Bind {
    pub frame_info: QueueFrameInfo,
    pub reserved_1: u16,
    pub queue: ShortString,
    pub exchange: ShortString,
    pub routing_key: ShortString,
    pub no_wait: Bits,
    pub arguments: Table,
}

impl Bind {
    /// A `queue.bind` on channel 1, with no arguments.
    pub fn new(queue: &str, exchange: &str, routing_key: &str, no_wait: bool) -> (r: Self)
        ensures
            r.frame_info == QueueFrameInfo::spec_new(1, QueueMethodID::Bind),
            r.reserved_1 == RESERVED16,
            r.queue@ == queue@,
            r.exchange@ == exchange@,
            r.routing_key@ == routing_key@,
            r.no_wait@ == seq![no_wait],
            r.arguments@ == Seq::<(Seq<char>, FieldModel)>::empty(),
    {
        Bind {
            frame_info: QueueFrameInfo::new(1, QueueMethodID::Bind),
            reserved_1: RESERVED16,
            queue: ShortString::from(queue),
            exchange: ShortString::from(exchange),
            routing_key: ShortString::from(routing_key),
            no_wait: Bits::from((no_wait,)),
            arguments: Table::default(),
        }
    }
}

impl Encode for Bind {
    open spec fn spec_encode(&self) -> Result<Seq<u8>, EncodeError> {
        then(
            then(
                then(
                    then(
                        then(
                            then(
                                self.frame_info.spec_encode(),
                                Ok(spec_u16_bytes(self.reserved_1)),
                            ),
                            self.queue.spec_encode(),
                        ),
                        self.exchange.spec_encode(),
                    ),
                    self.routing_key.spec_encode(),
                ),
                self.no_wait.spec_encode(),
            ),
            self.arguments.spec_encode(),
        )
    }

    fn encode(&self) -> (r: Result<Vec<u8>, EncodeError>) {
        let mut out = self.frame_info.encode()?;
        put_u16(&mut out, self.reserved_1);
        put_bytes(&mut out, self.queue.encode()?);
        put_bytes(&mut out, self.exchange.encode()?);
        put_bytes(&mut out, self.routing_key.encode()?);
        put_bytes(&mut out, self.no_wait.encode()?);
        put_bytes(&mut out, self.arguments.encode()?);
        Ok(out)
    }
}

/// `queue.bind-ok`: the binding is made.
#[derive(Debug, Clone, PartialEq, Eq)]
pub struct BindOk {
    pub frame_info: QueueFrameInfo,
}

impl View for BindOk {
    type V = (QueueFrameInfo,);

    open spec fn view(&self) -> (QueueFrameInfo,) {
        (self.frame_info,)
    }
}

impl Decode for BindOk {
    open spec fn spec_decode(b: Seq<u8>, pos: int) -> Result<
        ((QueueFrameInfo,), int),
        DecodeError,
    > {
        match QueueFrameInfo::spec_decode_expecting(b, pos, QueueMethodID::BindOk) {
            Err(e) => Err(e),
            Ok((frame_info, next)) => Ok(((frame_info,), next)),
        }
    }

    fn decode(buf: &[u8], pos: usize) -> (r: Result<(Self, usize), DecodeError>) {
        let (frame_info, at) = QueueFrameInfo::decode_expecting(buf, pos, QueueMethodID::BindOk)?;
        Ok((BindOk { frame_info }, at))
    }
}

/// `queue.unbind`: removes a binding.
#[derive(Debug, Clone, PartialEq, Eq)]
pub struct Unbind {
    pub frame_info: QueueFrameInfo,
    pub reserved_1: u16,
    pub queue: ShortString,
    pub exchange: ShortString,
    pub routing_key: ShortString,
    pub arguments: Table,
}

impl Unbind {
    /// A `queue.unbind` on channel 1, with no arguments.
    pub fn new(queue: &str, exchange: &str, routing_key: &str) -> (r: Self)
        ensures
            r.frame_info == QueueFrameInfo::spec_new(1, QueueMethodID::Unbind),
            r.reserved_1 == RESERVED16,
            r.queue@ == queue@,
            r.exchange@ == exchange@,
            r.routing_key@ == routing_key@,
            r.arguments@ == Seq::<(Seq<char>, FieldModel)>::empty(),
    {
        Unbind {
            frame_info: QueueFrameInfo::new(1, QueueMethodID::Unbind),
            reserved_1: RESERVED16,
            queue: ShortString::from(queue),
            exchange: ShortString::from(exchange),
            routing_key: ShortString::from(routing_key),
            arguments: Table::default(),
        }
    }
}

impl Encode for Unbind {
    open spec fn spec_encode(&self) -> Result<Seq<u8>, EncodeError> {
        then(
            then(
                then(
                    then(
                        then(
                            self.frame_info.spec_encode(),
                            Ok(spec_u16_bytes(self.reserved_1)),
                        ),
                        self.queue.spec_encode(),
                    ),
                    self.exchange.spec_encode(),
                ),
                self.routing_key.spec_encode(),
            ),
            self.arguments.spec_encode(),
        )
    }

    fn encode(&self) -> (r: Result<Vec<u8>, EncodeError>) {
        let mut out = self.frame_info.encode()?;
        put_u16(&mut out, self.reserved_1);
        put_bytes(&mut out, self.queue.encode()?);
        put_bytes(&mut out, self.exchange.encode()?);
        put_bytes(&mut out, self.routing_key.encode()?);
        put_bytes(&mut out, self.arguments.encode()?);
        Ok(out)
    }
}

/// `queue.unbind-ok`: the binding is gone.
#[derive(Debug, Clone, PartialEq, Eq)]
pub struct UnbindOk {
    pub frame_info: QueueFrameInfo,
}

impl View for UnbindOk {
    type V = (QueueFrameInfo,);

    open spec fn view(&self) -> (QueueFrameInfo,) {
        (self.frame_info,)
    }
}

impl Decode for UnbindOk {
    open spec fn spec_decode(b: Seq<u8>, pos: int) -> Result<
        ((QueueFrameInfo,), int),
        DecodeError,
    > {
        match QueueFrameInfo::spec_decode_expecting(b, pos, QueueMethodID::UnbindOk) {
            Err(e) => Err(e),
            Ok((frame_info, next)) => Ok(((frame_info,), next)),
        }
    }

    fn decode(buf: &[u8], pos: usize) -> (r: Result<(Self, usize), DecodeError>) {
        let (frame_info, at) = QueueFrameInfo::decode_expecting(buf, pos, QueueMethodID::UnbindOk)?;
        Ok((UnbindOk { frame_info }, at))
    }
}

/// `queue.purge`: empties a queue.
#[derive(Debug, Clone, PartialEq, Eq)]
pub struct Purge {
    pub frame_info: QueueFrameInfo,
    pub reserved_1: u16,
    pub queue: ShortString,
    pub no_wait: Bits,
}

impl Purge {
    /// A `queue.purge` on channel 1.
    pub fn new(queue: &str, no_wait: bool) -> (r: Self)
        ensures
            r.frame_info == QueueFrameInfo::spec_new(1, QueueMethodID::Purge),
            r.reserved_1 == RESERVED16,
            r.queue@ == queue@,
            r.no_wait@ == seq![no_wait],
    {
        Purge {
            frame_info: QueueFrameInfo::new(1, QueueMethodID::Purge),
            reserved_1: RESERVED16,
            queue: ShortString::from(queue),
            no_wait: Bits::from((no_wait,)),
        }
    }
}

impl Encode for Purge {
    open spec fn spec_encode(&self) -> Result<Seq<u8>, EncodeError> {
        then(
            then(
                then(
                    self.frame_info.spec_encode(),
                    Ok(spec_u16_bytes(self.reserved_1)),
                ),
                self.queue.spec_encode(),
            ),
            self.no_wait.spec_encode(),
        )
    }

    fn encode(&self) -> (r: Result<Vec<u8>, EncodeError>) {
        let mut out = self.frame_info.encode()?;
        put_u16(&mut out, self.reserved_1);
        put_bytes(&mut out, self.queue.encode()?);
        put_bytes(&mut out, self.no_wait.encode()?);
        Ok(out)
    }
}

/// `queue.purge-ok`: so many messages were removed.
#[derive(Debug, Clone, PartialEq, Eq)]
pub struct PurgeOk {
    pub frame_info: QueueFrameInfo,
    pub message_count: u32,
}

impl View for PurgeOk {
    type V = (QueueFrameInfo, u32);

    open spec fn view(&self) -> (QueueFrameInfo, u32) {
        (self.frame_info, self.message_count)
    }
}

impl Decode for PurgeOk {
    open spec fn spec_decode(b: Seq<u8>, pos: int) -> Result<
        ((QueueFrameInfo, u32), int),
        DecodeError,
    > {
        match QueueFrameInfo::spec_decode_expecting(b, pos, QueueMethodID::PurgeOk) {
            Err(e) => Err(e),
            Ok((frame_info, at0)) => match spec_decode_u32(b, at0) {
                Err(e) => Err(e),
                Ok((message_count, next)) => Ok(((frame_info, message_count), next)),
            },
        }
    }

    fn decode(buf: &[u8], pos: usize) -> (r: Result<(Self, usize), DecodeError>) {
        let (frame_info, at) = QueueFrameInfo::decode_expecting(buf, pos, QueueMethodID::PurgeOk)?;
        let (message_count, at) = decode_u32(buf, at)?;
        Ok((PurgeOk { frame_info, message_count }, at))
    }
}

/// `queue.delete`: removes a queue. The flags are `if_unused`, `if_empty` and `no_wait`.
#[derive(Debug, Clone, PartialEq, Eq)]
pub struct Delete {
    pub frame_info: QueueFrameInfo,
    pub reserved_1: u16,
    pub queue: ShortString,
    pub ifunused_ifempty_nowait: Bits,
}

impl Delete {
    /// A `queue.delete` on channel 1.
    pub fn new(queue: &str, if_unused: bool, if_empty: bool, no_wait: bool) -> (r: Self)
        ensures
            r.frame_info == QueueFrameInfo::spec_new(1, QueueMethodID::Delete),
            r.reserved_1 == RESERVED16,
            r.queue@ == queue@,
            r.ifunused_ifempty_nowait@ == seq![if_unused, if_empty, no_wait],
    {
        Delete {
            frame_info: QueueFrameInfo::new(1, QueueMethodID::Delete),
            reserved_1: RESERVED16,
            queue: ShortString::from(queue),
            ifunused_ifempty_nowait: Bits::from((if_unused, if_empty, no_wait)),
        }
    }
}

impl Encode for Delete {
    open spec fn spec_encode(&self) -> Result<Seq<u8>, EncodeError> {
        then(
            then(
                then(
                    self.frame_info.spec_encode(),
                    Ok(spec_u16_bytes(self.reserved_1)),
                ),
                self.queue.spec_encode(),
            ),
            self.ifunused_ifempty_nowait.spec_encode(),
        )
    }

    fn encode(&self) -> (r: Result<Vec<u8>, EncodeError>) {
        let mut out = self.frame_info.encode()?;
        put_u16(&mut out, self.reserved_1);
        put_bytes(&mut out, self.queue.encode()?);
        put_bytes(&mut out, self.ifunused_ifempty_nowait.encode()?);
        Ok(out)
    }
}

/// `queue.delete-ok`: the queue is gone, and so many messages with it.
#[derive(Debug, Clone, PartialEq, Eq)]
pub struct DeleteOk {
    pub frame_info: QueueFrameInfo,
    pub message_count: u32,
}

impl View for DeleteOk {
    type V = (QueueFrameInfo, u32);

    open spec fn view(&self) -> (QueueFrameInfo, u32) {
        (self.frame_info, self.message_count)
    }
}

impl Decode for DeleteOk {
    open spec fn spec_decode(b: Seq<u8>, pos: int) -> Result<
        ((QueueFrameInfo, u32), int),
        DecodeError,
    > {
        match QueueFrameInfo::spec_decode_expecting(b, pos, QueueMethodID::DeleteOk) {
            Err(e) => Err(e),
            Ok((frame_info, at0)) => match spec_decode_u32(b, at0) {
                Err(e) => Err(e),
                Ok((message_count, next)) => Ok(((frame_info, message_count), next)),
            },
        }
    }

    fn decode(buf: &[u8], pos: usize) -> (r: Result<(Self, usize), DecodeError>) {
        let (frame_info, at) = QueueFrameInfo::decode_expecting(buf, pos, QueueMethodID::DeleteOk)?;
        let (message_count, at) = decode_u32(buf, at)?;
        Ok((DeleteOk { frame_info, message_count }, at))
    }
}
impl Declare {
    /// The `queue.declare` that asks for what a definition describes.
    pub fn from_definition(channel_id: u16, definition: &QueueDefinition) -> (r: Self)
        ensures
            r.frame_info == QueueFrameInfo::spec_new(channel_id, QueueMethodID::Declare),
            r.reserved_1 == RESERVED16,
            r.queue@ == definition.queue_name@,
            r.bits@ == seq![
                definition.passive,
                definition.durable,
                definition.exclusive,
                definition.auto_delete,
                definition.no_wait,
            ],
            r.arguments@ == Seq::<(Seq<char>, FieldModel)>::empty(),
    {
        Declare::new(
            channel_id,
            definition.queue_name.as_str(),
            definition.passive,
            definition.durable,
            definition.exclusive,
            definition.auto_delete,
            definition.no_wait,
        )
    }
}

} // verus!
