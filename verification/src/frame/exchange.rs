//! Methods of the exchange class.
use vstd::prelude::*;

use crate::encde::bits::Bits;
use crate::encde::class::ClassID;
use crate::encde::exchange_type::ExchangeType;
use crate::encde::header::{FrameType, Header};
use crate::encde::integers::{decode_u16, put_bytes, put_u16, spec_decode_u16, spec_u16_bytes};
use crate::encde::method::ExchangeMethodID;
use crate::encde::short_string::ShortString;
use crate::encde::table::{FieldModel, Table};
use crate::encde::{decodes_as, then, Decode, Encode, RESERVED16};
use crate::errors::{DecodeError, EncodeError};

verus! {

/// What every method frame of the exchange class begins with.
#[derive(Debug, Clone, Copy, PartialEq, Eq, Structural)]
pub struct ExchangeFrameInfo {
    pub header: Header,
    pub class_id: ClassID,
    pub method_id: ExchangeMethodID,
}

impl View for ExchangeFrameInfo {
    type V = ExchangeFrameInfo;

    open spec fn view(&self) -> ExchangeFrameInfo {
        *self
    }
}

impl ExchangeFrameInfo {
    /// The start of a method frame of this class on `channel_id`, its size not yet set.
    pub open spec fn spec_new(channel_id: u16, method_id: ExchangeMethodID) -> ExchangeFrameInfo {
        ExchangeFrameInfo {
            header: Header { frame_type: FrameType::Method, channel_id, size: 0 },
            class_id: ClassID::Exchange,
            method_id,
        }
    }

    /// The start of a method frame of this class on `channel_id`, its size not yet set.
    pub fn new(channel_id: u16, method_id: ExchangeMethodID) -> (r: Self)
        ensures
            r == Self::spec_new(channel_id, method_id),
    {
        ExchangeFrameInfo {
            header: Header { frame_type: FrameType::Method, channel_id, size: 0 },
            class_id: ClassID::Exchange,
            method_id,
        }
    }

    /// The start of the method frame that stands in `b` at `pos`, which must be a method
    /// frame of this class and carry the method that is expected.
    pub open spec fn spec_decode_expecting(
        b: Seq<u8>,
        pos: int,
        method_id: ExchangeMethodID,
    ) -> Result<
        (ExchangeFrameInfo, int),
        DecodeError,
    > {
        match Header::spec_decode(b, pos) {
            Err(e) => Err(e),
            Ok((header, at0)) => if header.frame_type != FrameType::Method {
                Err(DecodeError::UnexpectedFrame)
            } else {
                match ClassID::spec_decode(b, at0) {
                    Err(e) => Err(e),
                    Ok((class_id, at1)) => if class_id != ClassID::Exchange {
                        Err(DecodeError::UnexpectedMethod)
                    } else {
                        match ExchangeMethodID::spec_decode(b, at1) {
                            Err(e) => Err(e),
                            Ok((found, next)) => if found != method_id {
                                Err(DecodeError::UnexpectedMethod)
                            } else {
                                Ok(((ExchangeFrameInfo { header, class_id, method_id }), next))
                            },
                        }
                    },
                }
            },
        }
    }

    /// Reads the start of a method frame, and checks that it carries the method that is
    /// expected.
    pub fn decode_expecting(buf: &[u8], pos: usize, method_id: ExchangeMethodID) -> (r: Result<
        (Self, usize),
        DecodeError,
    >)
        ensures
            decodes_as(r, Self::spec_decode_expecting(buf@, pos as int, method_id)),
    {
        let (header, at) = Header::decode(buf, pos)?;
        if header.frame_type != FrameType::Method {
            return Err(DecodeError::UnexpectedFrame);
        }
        let (class_id, at) = ClassID::decode(buf, at)?;
        if class_id != ClassID::Exchange {
            return Err(DecodeError::UnexpectedMethod);
        }
        let (found, at) = ExchangeMethodID::decode(buf, at)?;
        if found != method_id {
            return Err(DecodeError::UnexpectedMethod);
        }
        Ok((ExchangeFrameInfo { header, class_id, method_id }, at))
    }
}

impl Encode for ExchangeFrameInfo {
    open spec fn spec_encode(&self) -> Result<Seq<u8>, EncodeError> {
        then(
            then(self.header.spec_encode(), self.class_id.spec_encode()),
            self.method_id.spec_encode(),
        )
    }

    fn encode(&self) -> (r: Result<Vec<u8>, EncodeError>) {
        let mut out = self.header.encode()?;
        put_bytes(&mut out, self.class_id.encode()?);
        put_bytes(&mut out, self.method_id.encode()?);
        Ok(out)
    }
}

impl Decode for ExchangeFrameInfo {
    open spec fn spec_decode(b: Seq<u8>, pos: int) -> Result<
        (ExchangeFrameInfo, int),
        DecodeError,
    > {
        match Header::spec_decode(b, pos) {
            Err(e) => Err(e),
            Ok((header, at0)) => match ClassID::spec_decode(b, at0) {
                Err(e) => Err(e),
                Ok((class_id, at1)) => match ExchangeMethodID::spec_decode(b, at1) {
                    Err(e) => Err(e),
                    Ok((method_id, next)) => Ok(
                        ((ExchangeFrameInfo { header, class_id, method_id }), next),
                    ),
                },
            },
        }
    }

    fn decode(buf: &[u8], pos: usize) -> (r: Result<(Self, usize), DecodeError>) {
        let (header, at) = Header::decode(buf, pos)?;
        let (class_id, at) = ClassID::decode(buf, at)?;
        let (method_id, at) = ExchangeMethodID::decode(buf, at)?;
        Ok((ExchangeFrameInfo { header, class_id, method_id }, at))
    }
}

/// `exchange.declare`: makes sure that an exchange exists.
#[derive(Debug, Clone, PartialEq, Eq)]
pub struct Declare {
    pub frame_info: ExchangeFrameInfo,
    pub reserved_1: u16,
    pub exchange: ShortString,
    pub exchange_type: ExchangeType,
    pub passive_durable: Bits,
    pub arguments: Table,
}

impl Declare {
    /// An `exchange.declare` on channel 1, with no flags and no arguments.
    pub fn new(exchange: String, exchange_type: ExchangeType) -> (r: Self)
        ensures
            r.frame_info == ExchangeFrameInfo::spec_new(1, ExchangeMethodID::Declare),
            r.reserved_1 == RESERVED16,
            r.exchange@ == exchange@,
            r.exchange_type == exchange_type,
            r.passive_durable@ == Seq::<bool>::empty(),
            r.arguments@ == Seq::<(Seq<char>, FieldModel)>::empty(),
    {
        Declare {
            frame_info: ExchangeFrameInfo::new(1, ExchangeMethodID::Declare),
            reserved_1: RESERVED16,
            exchange: ShortString(exchange),
            exchange_type,
            passive_durable: Bits::default(),
            arguments: Table::default(),
        }
    }
}

impl Encode for Declare {
    open spec fn spec_encode(&self) -> Result<Seq<u8>, EncodeError> {
        then(
            then(
                then(
                    then(
                        then(
                            self.frame_info.spec_encode(),
                            Ok(spec_u16_bytes(self.reserved_1)),
                        ),
                        self.exchange.spec_encode(),
                    ),
                    self.exchange_type.spec_encode(),
                ),
                self.passive_durable.spec_encode(),
            ),
            self.arguments.spec_encode(),
        )
    }

    fn encode(&self) -> (r: Result<Vec<u8>, EncodeError>) {
        let mut out = self.frame_info.encode()?;
        put_u16(&mut out, self.reserved_1);
        put_bytes(&mut out, self.exchange.encode()?);
        put_bytes(&mut out, self.exchange_type.encode()?);
        put_bytes(&mut out, self.passive_durable.encode()?);
        put_bytes(&mut out, self.arguments.encode()?);
        Ok(out)
    }
}

/// `exchange.declare-ok`: the exchange is there.
#[derive(Debug, Clone, PartialEq, Eq)]
pub struct DeclareOk {
    pub frame_info: ExchangeFrameInfo,
}

impl Encode for DeclareOk {
    open spec fn spec_encode(&self) -> Result<Seq<u8>, EncodeError> {
        self.frame_info.spec_encode()
    }

    fn encode(&self) -> (r: Result<Vec<u8>, EncodeError>) {
        self.frame_info.encode()
    }
}

impl View for DeclareOk {
    type V = (ExchangeFrameInfo,);

    open spec fn view(&self) -> (ExchangeFrameInfo,) {
        (self.frame_info,)
    }
}

impl Decode for DeclareOk {
    open spec fn spec_decode(b: Seq<u8>, pos: int) -> Result<
        ((ExchangeFrameInfo,), int),
        DecodeError,
    > {
        match ExchangeFrameInfo::spec_decode_expecting(b, pos, ExchangeMethodID::DeclareOk) {
            Err(e) => Err(e),
            Ok((frame_info, next)) => Ok(((frame_info,), next)),
        }
    }

    fn decode(buf: &[u8], pos: usize) -> (r: Result<(Self, usize), DecodeError>) {
        let (frame_info, at) = ExchangeFrameInfo::decode_expecting(
            buf,
            pos,
            ExchangeMethodID::DeclareOk,
        )?;
        Ok((DeclareOk { frame_info }, at))
    }
}

/// `exchange.delete`: removes an exchange.
#[derive(Debug, Clone, PartialEq, Eq)]
pub struct Delete {
    pub frame_info: ExchangeFrameInfo,
    pub reserved_1: u16,
    pub exchange: ShortString,
    pub ifunused_nowait: Bits,
}

impl Delete {
    /// An `exchange.delete` on channel 1, with no flags.
    pub fn new(exchange: String) -> (r: Self)
        ensures
            r.frame_info == ExchangeFrameInfo::spec_new(1, ExchangeMethodID::Delete),
            r.reserved_1 == RESERVED16,
            r.exchange@ == exchange@,
            r.ifunused_nowait@ == Seq::<bool>::empty(),
    {
        Delete {
            frame_info: ExchangeFrameInfo::new(1, ExchangeMethodID::Delete),
            reserved_1: RESERVED16,
            exchange: ShortString(exchange),
            ifunused_nowait: Bits::default(),
        }
    }
}

impl Encode for Delete {
    open spec fn spec_encode(&self) -> Result<Seq<u8>, EncodeError> {
        then(
            then(
                then(
                    self.frame_info.spec_encode(),
                    Ok(spec_u16_bytes(self.reserved_1)),
                ),
                self.exchange.spec_encode(),
            ),
            self.ifunused_nowait.spec_encode(),
        )
    }

    fn encode(&self) -> (r: Result<Vec<u8>, EncodeError>) {
        let mut out = self.frame_info.encode()?;
        put_u16(&mut out, self.reserved_1);
        put_bytes(&mut out, self.exchange.encode()?);
        put_bytes(&mut out, self.ifunused_nowait.encode()?);
        Ok(out)
    }
}

impl View for Delete {
    type V = (ExchangeFrameInfo, u16, Seq<char>, Seq<bool>);

    open spec fn view(&self) -> (ExchangeFrameInfo, u16, Seq<char>, Seq<bool>) {
        (self.frame_info, self.reserved_1, self.exchange@, self.ifunused_nowait@)
    }
}

impl Decode for Delete {
    open spec fn spec_decode(b: Seq<u8>, pos: int) -> Result<
        ((ExchangeFrameInfo, u16, Seq<char>, Seq<bool>), int),
        DecodeError,
    > {
        match ExchangeFrameInfo::spec_decode_expecting(b, pos, ExchangeMethodID::Delete) {
            Err(e) => Err(e),
            Ok((frame_info, at0)) => match spec_decode_u16(b, at0) {
                Err(e) => Err(e),
                Ok((reserved_1, at1)) => match ShortString::spec_decode(b, at1) {
                    Err(e) => Err(e),
                    Ok((exchange, at2)) => match Bits::spec_decode(b, at2) {
                        Err(e) => Err(e),
                        Ok((ifunused_nowait, next)) => Ok(
                            ((frame_info, reserved_1, exchange, ifunused_nowait), next),
                        ),
                    },
                },
            },
        }
    }

    fn decode(buf: &[u8], pos: usize) -> (r: Result<(Self, usize), DecodeError>) {
        let (frame_info, at) = ExchangeFrameInfo::decode_expecting(
            buf,
            pos,
            ExchangeMethodID::Delete,
        )?;
        let (reserved_1, at) = decode_u16(buf, at)?;
        let (exchange, at) = ShortString::decode(buf, at)?;
        let (ifunused_nowait, at) = Bits::decode(buf, at)?;
        Ok((Delete { frame_info, reserved_1, exchange, ifunused_nowait }, at))
    }
}

/// `exchange.delete-ok`: the exchange is gone.
#[derive(Debug, Clone, PartialEq, Eq)]
pub struct DeleteOk {
    pub frame_info: ExchangeFrameInfo,
}

impl Encode for DeleteOk {
    open spec fn spec_encode(&self) -> Result<Seq<u8>, EncodeError> {
        self.frame_info.spec_encode()
    }

    fn encode(&self) -> (r: Result<Vec<u8>, EncodeError>) {
        self.frame_info.encode()
    }
}

impl View for DeleteOk {
    type V = (ExchangeFrameInfo,);

    open spec fn view(&self) -> (ExchangeFrameInfo,) {
        (self.frame_info,)
    }
}

impl Decode for DeleteOk {
    open spec fn spec_decode(b: Seq<u8>, pos: int) -> Result<
        ((ExchangeFrameInfo,), int),
        DecodeError,
    > {
        match ExchangeFrameInfo::spec_decode_expecting(b, pos, ExchangeMethodID::DeleteOk) {
            Err(e) => Err(e),
            Ok((frame_info, next)) => Ok(((frame_info,), next)),
        }
    }

    fn decode(buf: &[u8], pos: usize) -> (r: Result<(Self, usize), DecodeError>) {
        let (frame_info, at) = ExchangeFrameInfo::decode_expecting(
            buf,
            pos,
            ExchangeMethodID::DeleteOk,
        )?;
        Ok((DeleteOk { frame_info }, at))
    }
}

/// `exchange.bind`: binds an exchange to an exchange.
#[derive(Debug, Clone, PartialEq, Eq)]
pub struct Bind {
    pub frame_info: ExchangeFrameInfo,
    pub reserved_1: u16,
    pub destination: ShortString,
    pub source: ShortString,
    pub routing_key: ShortString,
    pub no_wait: Bits,
    pub arguments: Table,
}

impl Bind {
    /// An `exchange.bind` on channel 1, with no arguments.
    pub fn new(destination: &str, source: &str, routing_key: &str, no_wait: bool) -> (r: Self)
        ensures
            r.frame_info == ExchangeFrameInfo::spec_new(1, ExchangeMethodID::Bind),
            r.reserved_1 == RESERVED16,
            r.destination@ == destination@,
            r.source@ == source@,
            r.routing_key@ == routing_key@,
            r.no_wait@ == seq![no_wait],
            r.arguments@ == Seq::<(Seq<char>, FieldModel)>::empty(),
    {
        Bind {
            frame_info: ExchangeFrameInfo::new(1, ExchangeMethodID::Bind),
            reserved_1: RESERVED16,
            destination: ShortString::from(destination),
            source: ShortString::from(source),
            routing_key: ShortString::from(routing_key),
            no_wait: Bits::from((no_wait,)),
            arguments: Table::default(),
        }
    }
}

impl Encode for Bind {
    open spec fn spec_encode(&self) -> Result<Seq<u8>, EncodeError> {
        then(
            then(
                then(
                    then(
                        then(
                            then(
                                self.frame_info.spec_encode(),
                                Ok(spec_u16_bytes(self.reserved_1)),
                            ),
                            self.destination.spec_encode(),
                        ),
                        self.source.spec_encode(),
                    ),
                    self.routing_key.spec_encode(),
                ),
                self.no_wait.spec_encode(),
            ),
            self.arguments.spec_encode(),
        )
    }

    fn encode(&self) -> (r: Result<Vec<u8>, EncodeError>) {
        let mut out = self.frame_info.encode()?;
        put_u16(&mut out, self.reserved_1);
        put_bytes(&mut out, self.destination.encode()?);
        put_bytes(&mut out, self.source.encode()?);
        put_bytes(&mut out, self.routing_key.encode()?);
        put_bytes(&mut out, self.no_wait.encode()?);
        put_bytes(&mut out, self.arguments.encode()?);
        Ok(out)
    }
}

/// `exchange.bind-ok`: the binding is made.
#[derive(Debug, Clone, PartialEq, Eq)]
pub struct BindOk {
    pub frame_info: ExchangeFrameInfo,
}

impl Encode for BindOk {
    open spec fn spec_encode(&self) -> Result<Seq<u8>, EncodeError> {
        self.frame_info.spec_encode()
    }

    fn encode(&self) -> (r: Result<Vec<u8>, EncodeError>) {
        self.frame_info.encode()
    }
}

impl View for BindOk {
    type V = (ExchangeFrameInfo,);

    open spec fn view(&self) -> (ExchangeFrameInfo,) {
        (self.frame_info,)
    }
}

impl Decode for BindOk {
    open spec fn spec_decode(b: Seq<u8>, pos: int) -> Result<
        ((ExchangeFrameInfo,), int),
        DecodeError,
    > {
        match ExchangeFrameInfo::spec_decode_expecting(b, pos, ExchangeMethodID::BindOk) {
            Err(e) => Err(e),
            Ok((frame_info, next)) => Ok(((frame_info,), next)),
        }
    }

    fn decode(buf: &[u8], pos: usize) -> (r: Result<(Self, usize), DecodeError>) {
        let (frame_info, at) = ExchangeFrameInfo::decode_expecting(
            buf,
            pos,
            ExchangeMethodID::BindOk,
        )?;
        Ok((BindOk { frame_info }, at))
    }
}

/// `exchange.unbind`: removes a binding between exchanges.
#[derive(Debug, Clone, PartialEq, Eq)]
pub struct Unbind {
    pub frame_info: ExchangeFrameInfo,
    pub reserved_1: u16,
    pub destination: ShortString,
    pub source: ShortString,
    pub routing_key: ShortString,
    pub no_wait: Bits,
    pub arguments: Table,
}

impl Unbind {
    /// An `exchange.unbind` on channel 1, with no arguments.
    pub fn new(destination: &str, source: &str, routing_key: &str, no_wait: bool) -> (r: Self)
        ensures
            r.frame_info == ExchangeFrameInfo::spec_new(1, ExchangeMethodID::Unbind),
            r.reserved_1 == RESERVED16,
            r.destination@ == destination@,
            r.source@ == source@,
            r.routing_key@ == routing_key@,
            r.no_wait@ == seq![no_wait],
            r.arguments@ == Seq::<(Seq<char>, FieldModel)>::empty(),
    {
        Unbind {
            frame_info: ExchangeFrameInfo::new(1, ExchangeMethodID::Unbind),
            reserved_1: RESERVED16,
            destination: ShortString::from(destination),
            source: ShortString::from(source),
            routing_key: ShortString::from(routing_key),
            no_wait: Bits::from((no_wait,)),
            arguments: Table::default(),
        }
    }
}

impl Encode for Unbind {
    open spec fn spec_encode(&self) -> Result<Seq<u8>, EncodeError> {
        then(
            then(
                then(
                    then(
                        then(
                            then(
                                self.frame_info.spec_encode(),
                                Ok(spec_u16_bytes(self.reserved_1)),
                            ),
                            self.destination.spec_encode(),
                        ),
                        self.source.spec_encode(),
                    ),
                    self.routing_key.spec_encode(),
                ),
                self.no_wait.spec_encode(),
            ),
            self.arguments.spec_encode(),
        )
    }

    fn encode(&self) -> (r: Result<Vec<u8>, EncodeError>) {
        let mut out = self.frame_info.encode()?;
        put_u16(&mut out, self.reserved_1);
        put_bytes(&mut out, self.destination.encode()?);
        put_bytes(&mut out, self.source.encode()?);
        put_bytes(&mut out, self.routing_key.encode()?);
        put_bytes(&mut out, self.no_wait.encode()?);
        put_bytes(&mut out, self.arguments.encode()?);
        Ok(out)
    }
}

/// `exchange.unbind-ok`: the binding is gone.
#[derive(Debug, Clone, PartialEq, Eq)]
pub struct UnbindOk {
    pub frame_info: ExchangeFrameInfo,
}

impl Encode for UnbindOk {
    open spec fn spec_encode(&self) -> Result<Seq<u8>, EncodeError> {
        self.frame_info.spec_encode()
    }

    fn encode(&self) -> (r: Result<Vec<u8>, EncodeError>) {
        self.frame_info.encode()
    }
}

impl View for UnbindOk {
    type V = (ExchangeFrameInfo,);

    open spec fn view(&self) -> (ExchangeFrameInfo,) {
        (self.frame_info,)
    }
}

impl Decode for UnbindOk {
    open spec fn spec_decode(b: Seq<u8>, pos: int) -> Result<
        ((ExchangeFrameInfo,), int),
        DecodeError,
    > {
        match ExchangeFrameInfo::spec_decode_expecting(b, pos, ExchangeMethodID::UnbindOk) {
            Err(e) => Err(e),
            Ok((frame_info, next)) => Ok(((frame_info,), next)),
        }
    }

    fn decode(buf: &[u8], pos: usize) -> (r: Result<(Self, usize), DecodeError>) {
        let (frame_info, at) = ExchangeFrameInfo::decode_expecting(
            buf,
            pos,
            ExchangeMethodID::UnbindOk,
        )?;
        Ok((UnbindOk { frame_info }, at))
    }
}
} // verus!
