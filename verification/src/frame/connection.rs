//! Methods of the connection class, and the protocol header that goes before them.
use vstd::prelude::*;

use crate::encde::class::ClassID;
use crate::encde::header::{FrameType, Header};
use crate::encde::integers::{
    decode_u16, decode_u32, decode_u8, put_bytes, put_u16, put_u32, put_u8, spec_decode_u16,
    spec_decode_u32, spec_decode_u8, spec_u16_bytes, spec_u32_bytes,
};
use crate::encde::long_string::LongString;
use crate::encde::method::ConnectionMethodID;
use crate::encde::short_string::ShortString;
use crate::encde::table::{Field, FieldModel, Table};
use crate::encde::{decodes_as, then, Decode, Encode, RESERVED8};
use crate::errors::{DecodeError, EncodeError};

verus! {

/// The channel of the connection itself.
pub const GLOBAL_CHANNEL: u16 = 0;

/// What every method frame of the connection class begins with.
#[derive(Debug, Clone, Copy, PartialEq, Eq, Structural)]
pub struct ConnectionFrameInfo {
    pub header: Header,
    pub class_id: ClassID,
    pub method_id: ConnectionMethodID,
}

impl View for ConnectionFrameInfo {
    type V = ConnectionFrameInfo;

    open spec fn view(&self) -> ConnectionFrameInfo {
        *self
    }
}

impl ConnectionFrameInfo {
    /// The start of a method frame of this class on `channel_id`, its size not yet set.
    pub open spec fn spec_new(
        channel_id: u16,
        method_id: ConnectionMethodID,
    ) -> ConnectionFrameInfo {
        ConnectionFrameInfo {
            header: Header { frame_type: FrameType::Method, channel_id, size: 0 },
            class_id: ClassID::Connection,
            method_id,
        }
    }

    /// The start of a method frame of this class on `channel_id`, its size not yet set.
    pub fn new(channel_id: u16, method_id: ConnectionMethodID) -> (r: Self)
        ensures
            r == Self::spec_new(channel_id, method_id),
    {
        ConnectionFrameInfo {
            header: Header { frame_type: FrameType::Method, channel_id, size: 0 },
            class_id: ClassID::Connection,
            method_id,
        }
    }

    /// The start of the method frame that stands in `b` at `pos`, which must be a method
    /// frame of this class and carry the method that is expected.
    pub open spec fn spec_decode_expecting(
        b: Seq<u8>,
        pos: int,
        method_id: ConnectionMethodID,
    ) -> Result<
        (ConnectionFrameInfo, int),
        DecodeError,
    > {
        match Header::spec_decode(b, pos) {
            Err(e) => Err(e),
            Ok((header, at0)) => if header.frame_type != FrameType::Method {
                Err(DecodeError::UnexpectedFrame)
            } else {
                match ClassID::spec_decode(b, at0) {
                    Err(e) => Err(e),
                    Ok((class_id, at1)) => if class_id != ClassID::Connection {
                        Err(DecodeError::UnexpectedMethod)
                    } else {
                        match ConnectionMethodID::spec_decode(b, at1) {
                            Err(e) => Err(e),
                            Ok((found, next)) => if found != method_id {
                                Err(DecodeError::UnexpectedMethod)
                            } else {
                                Ok(((ConnectionFrameInfo { header, class_id, method_id }), next))
                            },
                        }
                    },
                }
            },
        }
    }

    /// Reads the start of a method frame, and checks that it carries the method that is
    /// expected.
    pub fn decode_expecting(buf: &[u8], pos: usize, method_id: ConnectionMethodID) -> (r: Result<
        (Self, usize),
        DecodeError,
    >)
        ensures
            decodes_as(r, Self::spec_decode_expecting(buf@, pos as int, method_id)),
    {
        let (header, at) = Header::decode(buf, pos)?;
        if header.frame_type != FrameType::Method {
            return Err(DecodeError::UnexpectedFrame);
        }
        let (class_id, at) = ClassID::decode(buf, at)?;
        if class_id != ClassID::Connection {
            return Err(DecodeError::UnexpectedMethod);
        }
        let (found, at) = ConnectionMethodID::decode(buf, at)?;
        if found != method_id {
            return Err(DecodeError::UnexpectedMethod);
        }
        Ok((ConnectionFrameInfo { header, class_id, method_id }, at))
    }
}

impl Encode for ConnectionFrameInfo {
    open spec fn spec_encode(&self) -> Result<Seq<u8>, EncodeError> {
        then(
            then(self.header.spec_encode(), self.class_id.spec_encode()),
            self.method_id.spec_encode(),
        )
    }

    fn encode(&self) -> (r: Result<Vec<u8>, EncodeError>) {
        let mut out = self.header.encode()?;
        put_bytes(&mut out, self.class_id.encode()?);
        put_bytes(&mut out, self.method_id.encode()?);
        Ok(out)
    }
}

impl Decode for ConnectionFrameInfo {
    open spec fn spec_decode(b: Seq<u8>, pos: int) -> Result<
        (ConnectionFrameInfo, int),
        DecodeError,
    > {
        match Header::spec_decode(b, pos) {
            Err(e) => Err(e),
            Ok((header, at0)) => match ClassID::spec_decode(b, at0) {
                Err(e) => Err(e),
                Ok((class_id, at1)) => match ConnectionMethodID::spec_decode(b, at1) {
                    Err(e) => Err(e),
                    Ok((method_id, next)) => Ok(
                        ((ConnectionFrameInfo { header, class_id, method_id }), next),
                    ),
                },
            },
        }
    }

    fn decode(buf: &[u8], pos: usize) -> (r: Result<(Self, usize), DecodeError>) {
        let (header, at) = Header::decode(buf, pos)?;
        let (class_id, at) = ClassID::decode(buf, at)?;
        let (method_id, at) = ConnectionMethodID::decode(buf, at)?;
        Ok((ConnectionFrameInfo { header, class_id, method_id }, at))
    }
}

/// The eight octets that open every connection: `AMQP`, a zero, and the version 0-9-1.
#[derive(Debug, Clone, Copy, PartialEq, Eq, Structural)]
pub struct ProtocolHeader {
    pub a: u8,
    pub m: u8,
    pub q: u8,
    pub p: u8,
    pub zero: u8,
    pub major: u8,
    pub minor: u8,
    pub revision: u8,
}

/// The protocol header on the wire.
pub open spec fn spec_protocol_header_bytes() -> Seq<u8> {
    seq![0x41u8, 0x4du8, 0x51u8, 0x50u8, 0u8, 0u8, 9u8, 1u8]
}

impl ProtocolHeader {
    /// The header of protocol version 0-9-1.
    pub fn new() -> (r: Self)
        ensures
            r.spec_encode() == Ok::<Seq<u8>, EncodeError>(spec_protocol_header_bytes()),
    {
        let r = ProtocolHeader {
            a: 0x41,
            m: 0x4d,
            q: 0x51,
            p: 0x50,
            zero: 0,
            major: 0,
            minor: 9,
            revision: 1,
        };
        assert(r.spec_encode()->Ok_0 =~= spec_protocol_header_bytes());
        r
    }
}

impl Encode for ProtocolHeader {
    open spec fn spec_encode(&self) -> Result<Seq<u8>, EncodeError> {
        Ok(
            seq![
                self.a,
                self.m,
                self.q,
                self.p,
                self.zero,
                self.major,
                self.minor,
                self.revision,
            ],
        )
    }

    fn encode(&self) -> (r: Result<Vec<u8>, EncodeError>) {
        let mut out: Vec<u8> = Vec::new();
        out.push(self.a);
        out.push(self.m);
        out.push(self.q);
        out.push(self.p);
        out.push(self.zero);
        out.push(self.major);
        out.push(self.minor);
        out.push(self.revision);
        assert(out@ =~= self.spec_encode()->Ok_0);
        Ok(out)
    }
}

/// What the client can do, as it tells the broker.
pub open spec fn spec_capabilities() -> Seq<(Seq<char>, FieldModel)> {
    seq![
        ("authentication_failure_close"@, FieldModel::Bool(true)),
        ("basic.nack"@, FieldModel::Bool(true)),
        ("connection.blocked"@, FieldModel::Bool(true)),
        ("consumer_cancel_notify"@, FieldModel::Bool(true)),
        ("publisher_confirms"@, FieldModel::Bool(true)),
    ]
}

/// What the client says of itself in `connection.start-ok`.
pub open spec fn spec_client_properties() -> Seq<(Seq<char>, FieldModel)> {
    seq![
        ("product"@, FieldModel::LongStr("Pika Python Client Library"@)),
        ("platform"@, FieldModel::LongStr("Python 3.11.6"@)),
        ("capabilities"@, FieldModel::Table(spec_capabilities())),
        ("information"@, FieldModel::LongStr("See http://pika.rtfd.org"@)),
        ("version"@, FieldModel::LongStr("2.0.0a0"@)),
    ]
}

fn flag_entry(key: &str) -> (r: (String, Field))
    ensures
        r.0@ == key@,
        r.1@ == FieldModel::Bool(true),
{
    (key.to_owned(), Field::Bool(true))
}

fn text_entry(key: &str, value: &str) -> (r: (String, Field))
    ensures
        r.0@ == key@,
        r.1@ == FieldModel::LongStr(value@),
{
    (key.to_owned(), Field::LS(LongString::from(value)))
}

/// `connection.start-ok`: the client's answer to what the broker offers.
#[derive(Debug, Clone, PartialEq, Eq)]
pub struct StartOk {
    pub frame_info: ConnectionFrameInfo,
    pub client_properties: Table,
    pub mechanism: ShortString,
    pub response: LongString,
    pub locale: ShortString,
}

impl StartOk {
    /// A `connection.start-ok` that names the mechanism, gives the response that the
    /// mechanism asks for, and takes the locale. The client properties are always the
    /// same.
    pub fn new(mechanism: &str, response: &str, locale: &str) -> (r: Self)
        ensures
            r.frame_info == ConnectionFrameInfo::spec_new(
                GLOBAL_CHANNEL,
                ConnectionMethodID::StartOk,
            ),
            r.client_properties@ == spec_client_properties(),
            r.mechanism@ == mechanism@,
            r.response@ == response@,
            r.locale@ == locale@,
    {
        let mut capabilities: Vec<(String, Field)> = Vec::new();
        capabilities.push(flag_entry("authentication_failure_close"));
        capabilities.push(flag_entry("basic.nack"));
        capabilities.push(flag_entry("connection.blocked"));
        capabilities.push(flag_entry("consumer_cancel_notify"));
        capabilities.push(flag_entry("publisher_confirms"));
        let capabilities = Table(capabilities);
        assert(capabilities@ =~= spec_capabilities());

        let mut client_properties: Vec<(String, Field)> = Vec::new();
        client_properties.push(text_entry("product", "Pika Python Client Library"));
        client_properties.push(text_entry("platform", "Python 3.11.6"));
        client_properties.push(("capabilities".to_owned(), Field::T(capabilities)));
        client_properties.push(text_entry("information", "See http://pika.rtfd.org"));
        client_properties.push(text_entry("version", "2.0.0a0"));
        let client_properties = Table(client_properties);
        assert(client_properties@ =~= spec_client_properties());

        StartOk {
            frame_info: ConnectionFrameInfo::new(GLOBAL_CHANNEL, ConnectionMethodID::StartOk),
            client_properties,
            mechanism: ShortString::from(mechanism),
            response: LongString::from(response),
            locale: ShortString::from(locale),
        }
    }
}

impl Encode for StartOk {
    open spec fn spec_encode(&self) -> Result<Seq<u8>, EncodeError> {
        then(
            then(
                then(
                    then(self.frame_info.spec_encode(), self.client_properties.spec_encode()),
                    self.mechanism.spec_encode(),
                ),
                self.response.spec_encode(),
            ),
            self.locale.spec_encode(),
        )
    }

    fn encode(&self) -> (r: Result<Vec<u8>, EncodeError>) {
        let mut out = self.frame_info.encode()?;
        put_bytes(&mut out, self.client_properties.encode()?);
        put_bytes(&mut out, self.mechanism.encode()?);
        put_bytes(&mut out, self.response.encode()?);
        put_bytes(&mut out, self.locale.encode()?);
        Ok(out)
    }
}

/// `connection.start`: the broker opens the negotiation with what it offers.
#[derive(Debug, Clone, PartialEq, Eq)]
pub struct Start {
    pub frame_info: ConnectionFrameInfo,
    pub version_major: u8,
    pub version_minor: u8,
    pub server_properties: Table,
    pub mechanisms: LongString,
    pub locales: LongString,
}

impl View for Start {
    type V = (ConnectionFrameInfo, u8, u8, Seq<(Seq<char>, FieldModel)>, Seq<char>, Seq<char>);

    open spec fn view(
        &self,
    ) -> (ConnectionFrameInfo, u8, u8, Seq<(Seq<char>, FieldModel)>, Seq<char>, Seq<char>) {
        (
            self.frame_info,
            self.version_major,
            self.version_minor,
            self.server_properties@,
            self.mechanisms@,
            self.locales@,
        )
    }
}

impl Decode for Start {
    open spec fn spec_decode(b: Seq<u8>, pos: int) -> Result<
        ((ConnectionFrameInfo, u8, u8, Seq<(Seq<char>, FieldModel)>, Seq<char>, Seq<char>), int),
        DecodeError,
    > {
        match ConnectionFrameInfo::spec_decode_expecting(b, pos, ConnectionMethodID::Start) {
            Err(e) => Err(e),
            Ok((frame_info, at0)) => match spec_decode_u8(b, at0) {
                Err(e) => Err(e),
                Ok((version_major, at1)) => match spec_decode_u8(b, at1) {
                    Err(e) => Err(e),
                    Ok((version_minor, at2)) => match Table::spec_decode(b, at2) {
                        Err(e) => Err(e),
                        Ok((server_properties, at3)) => match LongString::spec_decode(b, at3) {
                            Err(e) => Err(e),
                            Ok((mechanisms, at4)) => match LongString::spec_decode(b, at4) {
                                Err(e) => Err(e),
                                Ok((locales, next)) => Ok(
                                    (
                                        (
                                            frame_info,
                                            version_major,
                                            version_minor,
                                            server_properties,
                                            mechanisms,
                                            locales,
                                        ),
                                        next,
                                    ),
                                ),
                            },
                        },
                    },
                },
            },
        }
    }

    fn decode(buf: &[u8], pos: usize) -> (r: Result<(Self, usize), DecodeError>) {
        let (frame_info, at) = ConnectionFrameInfo::decode_expecting(
            buf,
            pos,
            ConnectionMethodID::Start,
        )?;
        let (version_major, at) = decode_u8(buf, at)?;
        let (version_minor, at) = decode_u8(buf, at)?;
        let (server_properties, at) = Table::decode(buf, at)?;
        let (mechanisms, at) = LongString::decode(buf, at)?;
        let (locales, at) = LongString::decode(buf, at)?;
        Ok(
            (
                Start {
                    frame_info,
                    version_major,
                    version_minor,
                    server_properties,
                    mechanisms,
                    locales,
                },
                at,
            ),
        )
    }
}

/// `connection.secure`: a challenge of the security mechanism.
#[derive(Debug, Clone, PartialEq, Eq)]
pub struct Secure {
    pub frame_info: ConnectionFrameInfo,
    pub challenge: LongString,
}

impl Encode for Secure {
    open spec fn spec_encode(&self) -> Result<Seq<u8>, EncodeError> {
        then(
            self.frame_info.spec_encode(),
            self.challenge.spec_encode(),
        )
    }

    fn encode(&self) -> (r: Result<Vec<u8>, EncodeError>) {
        let mut out = self.frame_info.encode()?;
        put_bytes(&mut out, self.challenge.encode()?);
        Ok(out)
    }
}

impl View for Secure {
    type V = (ConnectionFrameInfo, Seq<char>);

    open spec fn view(&self) -> (ConnectionFrameInfo, Seq<char>) {
        (self.frame_info, self.challenge@)
    }
}

impl Decode for Secure {
    open spec fn spec_decode(b: Seq<u8>, pos: int) -> Result<
        ((ConnectionFrameInfo, Seq<char>), int),
        DecodeError,
    > {
        match ConnectionFrameInfo::spec_decode_expecting(b, pos, ConnectionMethodID::Secure) {
            Err(e) => Err(e),
            Ok((frame_info, at0)) => match LongString::spec_decode(b, at0) {
                Err(e) => Err(e),
                Ok((challenge, next)) => Ok(((frame_info, challenge), next)),
            },
        }
    }

    fn decode(buf: &[u8], pos: usize) -> (r: Result<(Self, usize), DecodeError>) {
        let (frame_info, at) = ConnectionFrameInfo::decode_expecting(
            buf,
            pos,
            ConnectionMethodID::Secure,
        )?;
        let (challenge, at) = LongString::decode(buf, at)?;
        Ok((Secure { frame_info, challenge }, at))
    }
}

/// `connection.secure-ok`: the answer to a challenge.
#[derive(Debug, Clone, PartialEq, Eq)]
pub struct SecureOk {
    pub frame_info: ConnectionFrameInfo,
    pub response: LongString,
}

impl Encode for SecureOk {
    open spec fn spec_encode(&self) -> Result<Seq<u8>, EncodeError> {
        then(
            self.frame_info.spec_encode(),
            self.response.spec_encode(),
        )
    }

    fn encode(&self) -> (r: Result<Vec<u8>, EncodeError>) {
        let mut out = self.frame_info.encode()?;
        put_bytes(&mut out, self.response.encode()?);
        Ok(out)
    }
}

impl View for SecureOk {
    type V = (ConnectionFrameInfo, Seq<char>);

    open spec fn view(&self) -> (ConnectionFrameInfo, Seq<char>) {
        (self.frame_info, self.response@)
    }
}

impl Decode for SecureOk {
    open spec fn spec_decode(b: Seq<u8>, pos: int) -> Result<
        ((ConnectionFrameInfo, Seq<char>), int),
        DecodeError,
    > {
        match ConnectionFrameInfo::spec_decode_expecting(b, pos, ConnectionMethodID::SecureOk) {
            Err(e) => Err(e),
            Ok((frame_info, at0)) => match LongString::spec_decode(b, at0) {
                Err(e) => Err(e),
                Ok((response, next)) => Ok(((frame_info, response), next)),
            },
        }
    }

    fn decode(buf: &[u8], pos: usize) -> (r: Result<(Self, usize), DecodeError>) {
        let (frame_info, at) = ConnectionFrameInfo::decode_expecting(
            buf,
            pos,
            ConnectionMethodID::SecureOk,
        )?;
        let (response, at) = LongString::decode(buf, at)?;
        Ok((SecureOk { frame_info, response }, at))
    }
}

/// `connection.tune`: the limits that the broker proposes.
#[derive(Debug, Clone, PartialEq, Eq)]
pub struct Tune {
    pub frame_info: ConnectionFrameInfo,
    pub channel_max: u16,
    pub frame_max: u32,
    pub heartbeat: u16,
}

impl View for Tune {
    type V = (ConnectionFrameInfo, u16, u32, u16);

    open spec fn view(&self) -> (ConnectionFrameInfo, u16, u32, u16) {
        (self.frame_info, self.channel_max, self.frame_max, self.heartbeat)
    }
}

impl Decode for Tune {
    open spec fn spec_decode(b: Seq<u8>, pos: int) -> Result<
        ((ConnectionFrameInfo, u16, u32, u16), int),
        DecodeError,
    > {
        match ConnectionFrameInfo::spec_decode_expecting(b, pos, ConnectionMethodID::Tune) {
            Err(e) => Err(e),
            Ok((frame_info, at0)) => match spec_decode_u16(b, at0) {
                Err(e) => Err(e),
                Ok((channel_max, at1)) => match spec_decode_u32(b, at1) {
                    Err(e) => Err(e),
                    Ok((frame_max, at2)) => match spec_decode_u16(b, at2) {
                        Err(e) => Err(e),
                        Ok((heartbeat, next)) => Ok(
                            ((frame_info, channel_max, frame_max, heartbeat), next),
                        ),
                    },
                },
            },
        }
    }

    fn decode(buf: &[u8], pos: usize) -> (r: Result<(Self, usize), DecodeError>) {
        let (frame_info, at) = ConnectionFrameInfo::decode_expecting(
            buf,
            pos,
            ConnectionMethodID::Tune,
        )?;
        let (channel_max, at) = decode_u16(buf, at)?;
        let (frame_max, at) = decode_u32(buf, at)?;
        let (heartbeat, at) = decode_u16(buf, at)?;
        Ok((Tune { frame_info, channel_max, frame_max, heartbeat }, at))
    }
}

/// `connection.tune-ok`: the limits that the client accepts.
#[derive(Debug, Clone, PartialEq, Eq)]
pub struct TuneOk {
    pub frame_info: ConnectionFrameInfo,
    pub channel_max: u16,
    pub frame_max: u32,
    pub heartbeat: u16,
}

impl TuneOk {
    /// A `connection.tune-ok` with these limits.
    pub fn new(channel_max: u16, frame_max: u32, heartbeat: u16) -> (r: Self)
        ensures
            r.frame_info
                == ConnectionFrameInfo::spec_new(GLOBAL_CHANNEL, ConnectionMethodID::TuneOk),
            r.channel_max == channel_max,
            r.frame_max == frame_max,
            r.heartbeat == heartbeat,
    {
        TuneOk {
            frame_info: ConnectionFrameInfo::new(GLOBAL_CHANNEL, ConnectionMethodID::TuneOk),
            channel_max,
            frame_max,
            heartbeat,
        }
    }
}

impl Encode for TuneOk {
    open spec fn spec_encode(&self) -> Result<Seq<u8>, EncodeError> {
        then(
            then(
                then(
                    self.frame_info.spec_encode(),
                    Ok(spec_u16_bytes(self.channel_max)),
                ),
                Ok(spec_u32_bytes(self.frame_max)),
            ),
            Ok(spec_u16_bytes(self.heartbeat)),
        )
    }

    fn encode(&self) -> (r: Result<Vec<u8>, EncodeError>) {
        let mut out = self.frame_info.encode()?;
        put_u16(&mut out, self.channel_max);
        put_u32(&mut out, self.frame_max);
        put_u16(&mut out, self.heartbeat);
        Ok(out)
    }
}

/// `connection.open`: opens a virtual host.
#[derive(Debug, Clone, PartialEq, Eq)]
pub struct Open {
    pub frame_info: ConnectionFrameInfo,
    pub virtual_host: ShortString,
    pub reserved_1: u8,
    pub reserved_2: u8,
}

impl Open {
    /// A `connection.open` for `virtual_host`.
    pub fn new(virtual_host: &str) -> (r: Self)
        ensures
            r.frame_info == ConnectionFrameInfo::spec_new(GLOBAL_CHANNEL, ConnectionMethodID::Open),
            r.virtual_host@ == virtual_host@,
            r.reserved_1 == RESERVED8,
            r.reserved_2 == RESERVED8,
    {
        Open {
            frame_info: ConnectionFrameInfo::new(GLOBAL_CHANNEL, ConnectionMethodID::Open),
            virtual_host: ShortString::from(virtual_host),
            reserved_1: RESERVED8,
            reserved_2: RESERVED8,
        }
    }
}

impl Encode for Open {
    open spec fn spec_encode(&self) -> Result<Seq<u8>, EncodeError> {
        then(
            then(
                then(
                    self.frame_info.spec_encode(),
                    self.virtual_host.spec_encode(),
                ),
                Ok(seq![self.reserved_1]),
            ),
            Ok(seq![self.reserved_2]),
        )
    }

    fn encode(&self) -> (r: Result<Vec<u8>, EncodeError>) {
        let mut out = self.frame_info.encode()?;
        put_bytes(&mut out, self.virtual_host.encode()?);
        put_u8(&mut out, self.reserved_1);
        put_u8(&mut out, self.reserved_2);
        Ok(out)
    }
}

/// `connection.open-ok`: the virtual host is open.
#[derive(Debug, Clone, PartialEq, Eq)]
pub struct OpenOk {
    pub frame_info: ConnectionFrameInfo,
    pub reserved_1: ShortString,
}

impl View for OpenOk {
    type V = (ConnectionFrameInfo, Seq<char>);

    open spec fn view(&self) -> (ConnectionFrameInfo, Seq<char>) {
        (self.frame_info, self.reserved_1@)
    }
}

impl Decode for OpenOk {
    open spec fn spec_decode(b: Seq<u8>, pos: int) -> Result<
        ((ConnectionFrameInfo, Seq<char>), int),
        DecodeError,
    > {
        match ConnectionFrameInfo::spec_decode_expecting(b, pos, ConnectionMethodID::OpenOk) {
            Err(e) => Err(e),
            Ok((frame_info, at0)) => match ShortString::spec_decode(b, at0) {
                Err(e) => Err(e),
                Ok((reserved_1, next)) => Ok(((frame_info, reserved_1), next)),
            },
        }
    }

    fn decode(buf: &[u8], pos: usize) -> (r: Result<(Self, usize), DecodeError>) {
        let (frame_info, at) = ConnectionFrameInfo::decode_expecting(
            buf,
            pos,
            ConnectionMethodID::OpenOk,
        )?;
        let (reserved_1, at) = ShortString::decode(buf, at)?;
        Ok((OpenOk { frame_info, reserved_1 }, at))
    }
}

/// `connection.close`: closes the connection, with the reason.
#[derive(Debug, Clone, PartialEq, Eq)]
pub struct Close {
    pub frame_info: ConnectionFrameInfo,
    pub reply_code: u16,
    pub reply_text: ShortString,
    pub closing_class_id: u16,
    pub closing_method_id: u16,
}

impl Close {
    /// A `connection.close` with this reason.
    pub fn new(
        reply_code: u16,
        reply_text: &str,
        closing_class_id: u16,
        closing_method_id: u16,
    ) -> (r: Self)
        ensures
            r.frame_info
                == ConnectionFrameInfo::spec_new(GLOBAL_CHANNEL, ConnectionMethodID::Close),
            r.reply_code == reply_code,
            r.reply_text@ == reply_text@,
            r.closing_class_id == closing_class_id,
            r.closing_method_id == closing_method_id,
    {
        Close {
            frame_info: ConnectionFrameInfo::new(GLOBAL_CHANNEL, ConnectionMethodID::Close),
            reply_code,
            reply_text: ShortString::from(reply_text),
            closing_class_id,
            closing_method_id,
        }
    }
}

impl Encode for Close {
    open spec fn spec_encode(&self) -> Result<Seq<u8>, EncodeError> {
        then(
            then(
                then(
                    then(
                        self.frame_info.spec_encode(),
                        Ok(spec_u16_bytes(self.reply_code)),
                    ),
                    self.reply_text.spec_encode(),
                ),
                Ok(spec_u16_bytes(self.closing_class_id)),
            ),
            Ok(spec_u16_bytes(self.closing_method_id)),
        )
    }

    fn encode(&self) -> (r: Result<Vec<u8>, EncodeError>) {
        let mut out = self.frame_info.encode()?;
        put_u16(&mut out, self.reply_code);
        put_bytes(&mut out, self.reply_text.encode()?);
        put_u16(&mut out, self.closing_class_id);
        put_u16(&mut out, self.closing_method_id);
        Ok(out)
    }
}

impl View for Close {
    type V = (ConnectionFrameInfo, u16, Seq<char>, u16, u16);

    open spec fn view(&self) -> (ConnectionFrameInfo, u16, Seq<char>, u16, u16) {
        (
            self.frame_info,
            self.reply_code,
            self.reply_text@,
            self.closing_class_id,
            self.closing_method_id,
        )
    }
}

impl Decode for Close {
    open spec fn spec_decode(b: Seq<u8>, pos: int) -> Result<
        ((ConnectionFrameInfo, u16, Seq<char>, u16, u16), int),
        DecodeError,
    > {
        match ConnectionFrameInfo::spec_decode_expecting(b, pos, ConnectionMethodID::Close) {
            Err(e) => Err(e),
            Ok((frame_info, at0)) => match spec_decode_u16(b, at0) {
                Err(e) => Err(e),
                Ok((reply_code, at1)) => match ShortString::spec_decode(b, at1) {
                    Err(e) => Err(e),
                    Ok((reply_text, at2)) => match spec_decode_u16(b, at2) {
                        Err(e) => Err(e),
                        Ok((closing_class_id, at3)) => match spec_decode_u16(b, at3) {
                            Err(e) => Err(e),
                            Ok((closing_method_id, next)) => Ok(
                                (
                                    (
                                        frame_info,
                                        reply_code,
                                        reply_text,
                                        closing_class_id,
                                        closing_method_id,
                                    ),
                                    next,
                                ),
                            ),
                        },
                    },
                },
            },
        }
    }

    fn decode(buf: &[u8], pos: usize) -> (r: Result<(Self, usize), DecodeError>) {
        let (frame_info, at) = ConnectionFrameInfo::decode_expecting(
            buf,
            pos,
            ConnectionMethodID::Close,
        )?;
        let (reply_code, at) = decode_u16(buf, at)?;
        let (reply_text, at) = ShortString::decode(buf, at)?;
        let (closing_class_id, at) = decode_u16(buf, at)?;
        let (closing_method_id, at) = decode_u16(buf, at)?;
        Ok((Close { frame_info, reply_code, reply_text, closing_class_id, closing_method_id }, at))
    }
}

/// `connection.close-ok`: confirms that the connection is closed.
#[derive(Debug, Clone, PartialEq, Eq)]
pub struct CloseOk {
    pub frame_info: ConnectionFrameInfo,
}

impl Encode for CloseOk {
    open spec fn spec_encode(&self) -> Result<Seq<u8>, EncodeError> {
        self.frame_info.spec_encode()
    }

    fn encode(&self) -> (r: Result<Vec<u8>, EncodeError>) {
        self.frame_info.encode()
    }
}

impl View for CloseOk {
    type V = (ConnectionFrameInfo,);

    open spec fn view(&self) -> (ConnectionFrameInfo,) {
        (self.frame_info,)
    }
}

impl Decode for CloseOk {
    open spec fn spec_decode(b: Seq<u8>, pos: int) -> Result<
        ((ConnectionFrameInfo,), int),
        DecodeError,
    > {
        match ConnectionFrameInfo::spec_decode_expecting(b, pos, ConnectionMethodID::CloseOk) {
            Err(e) => Err(e),
            Ok((frame_info, next)) => Ok(((frame_info,), next)),
        }
    }

    fn decode(buf: &[u8], pos: usize) -> (r: Result<(Self, usize), DecodeError>) {
        let (frame_info, at) = ConnectionFrameInfo::decode_expecting(
            buf,
            pos,
            ConnectionMethodID::CloseOk,
        )?;
        Ok((CloseOk { frame_info }, at))
    }
}
} // verus!
