//! Messages on the wire: a publish goes out as three frames, and a delivery comes in as
//! three or more, which are put together here.
use vstd::prelude::*;
use vstd::slice::{slice_subrange, slice_to_vec};

use crate::encde::bits::spec_encode_bits;
use crate::encde::class::ClassID;
use crate::encde::header::{FrameType, Header};
use crate::encde::integers::{
    lemma_holds_at_split, lemma_u16_round_trip, lemma_u64_round_trip, put_bytes, spec_u16_bytes,
    spec_u64_bytes,
};
use crate::encde::method::BasicMethodID;
use crate::encde::properties::{
    lemma_properties_round_trip, spec_encode_properties, Properties, PropertiesModel,
};
use crate::encde::raw_bytes::RawBytes;
use crate::encde::short_string::spec_encode_short_string;
use crate::encde::table::{spec_entries_fit, MAX_TABLE_DEPTH};
use crate::encde::{
    decode_frame, encode_frame, encodes_as, frame_length, holds_at, lemma_decode_frame,
    lemma_frame_found, spec_decode_frame, spec_encode_frame, spec_frame_length, then, Decode,
    Encode, RESERVED16,
};
use crate::errors::{DecodeError, EncodeError};
use crate::frame::basic::{Ack, BasicFrameInfo, Deliver, Publish};
use crate::frame::body::Body;
use crate::frame::content::Content;
use crate::types::message::{AdditionalInfo, Message};

verus! {

/// The heartbeat frame: type 8 on channel 0, with no payload.
pub open spec fn spec_heartbeat_frame() -> Seq<u8> {
    seq![8u8, 0u8, 0u8, 0u8, 0u8, 0u8, 0u8, 0xCEu8]
}

/// The frame by which a heartbeat is answered.
pub fn heartbeat_frame() -> (r: Vec<u8>)
    ensures
        r@ == spec_heartbeat_frame(),
{
    let mut frame: Vec<u8> = Vec::new();
    frame.push(8);
    frame.push(0);
    frame.push(0);
    frame.push(0);
    frame.push(0);
    frame.push(0);
    frame.push(0);
    frame.push(0xCE);
    assert(frame@ =~= spec_heartbeat_frame());
    frame
}

/// A `basic.publish` before it is framed.
pub open spec fn spec_publish_method(
    channel_id: u16,
    exchange: Seq<char>,
    routing_key: Seq<char>,
    mandatory: bool,
    immediate: bool,
) -> Result<Seq<u8>, EncodeError> {
    then(
        then(
            then(
                then(
                    BasicFrameInfo::spec_new(channel_id, BasicMethodID::Publish).spec_encode(),
                    Ok(spec_u16_bytes(RESERVED16)),
                ),
                spec_encode_short_string(exchange),
            ),
            spec_encode_short_string(routing_key),
        ),
        spec_encode_bits(seq![mandatory, immediate]),
    )
}

/// A content header of the basic class before it is framed.
#[verifier::opaque]
pub open spec fn spec_content_header(
    channel_id: u16,
    size: u64,
    properties: PropertiesModel,
) -> Result<
    Seq<u8>,
    EncodeError,
> {
    then(
        then(
            then(
                then(
                    (Header { frame_type: FrameType::Header, channel_id, size: 0 }).spec_encode(),
                    ClassID::Basic.spec_encode(),
                ),
                Ok(spec_u16_bytes(0)),
            ),
            Ok(spec_u64_bytes(size)),
        ),
        spec_encode_properties(properties),
    )
}

/// A body frame before it is framed.
#[verifier::opaque]
pub open spec fn spec_body(channel_id: u16, body: Seq<u8>) -> Result<Seq<u8>, EncodeError> {
    then((Header { frame_type: FrameType::Body, channel_id, size: 0 }).spec_encode(), Ok(body))
}

/// How many body bytes go in one frame where frames may be `frame_max` bytes long, the
/// seven octets of the header and the terminator included; 0 for as many as there are,
/// where `frame_max` sets no limit or leaves no room for any.
pub open spec fn spec_chunk(frame_max: u32) -> nat {
    if frame_max > 8 {
        (frame_max - 8) as nat
    } else {
        0
    }
}

/// The body frames of a message: one frame where the body fits in a chunk, and
/// otherwise a frame for each chunk in turn, each with a run of the body. A body with
/// no bytes still goes out as one frame.
pub open spec fn spec_body_frames(channel_id: u16, body: Seq<u8>, chunk: nat) -> Result<
    Seq<u8>,
    EncodeError,
>
    decreases body.len(),
{
    if chunk == 0 || body.len() <= chunk {
        spec_encode_frame(spec_body(channel_id, body))
    } else {
        then(
            spec_encode_frame(spec_body(channel_id, body.subrange(0, chunk as int))),
            spec_body_frames(channel_id, body.subrange(chunk as int, body.len() as int), chunk),
        )
    }
}

/// A message on its way to the broker: the `basic.publish`, the content header, which
/// gives the length of the whole body, and the body, each in a frame of its own, back to
/// back on one channel. A body that is too long for one frame goes out in several.
pub open spec fn spec_publish_frames(
    channel_id: u16,
    exchange: Seq<char>,
    routing_key: Seq<char>,
    mandatory: bool,
    immediate: bool,
    properties: PropertiesModel,
    body: Seq<u8>,
    frame_max: u32,
) -> Result<Seq<u8>, EncodeError> {
    then(
        then(
            spec_encode_frame(
                spec_publish_method(channel_id, exchange, routing_key, mandatory, immediate),
            ),
            spec_encode_frame(spec_content_header(channel_id, body.len() as u64, properties)),
        ),
        spec_body_frames(channel_id, body, spec_chunk(frame_max)),
    )
}

/// Writes the body frames of a message.
pub fn body_frames(channel_id: u16, body: &[u8], frame_max: u32) -> (r: Result<
    Vec<u8>,
    EncodeError,
>)
    ensures
        encodes_as(r, spec_body_frames(channel_id, body@, spec_chunk(frame_max))),
{
    let chunk: usize = if frame_max > 8 {
        (frame_max - 8) as usize
    } else {
        0
    };
    let mut out: Vec<u8> = Vec::new();
    let mut from: usize = 0;
    assert(body@.subrange(0, body@.len() as int) =~= body@);
    while chunk != 0 && body.len() - from > chunk
        invariant
            from <= body@.len(),
            chunk as nat == spec_chunk(frame_max),
            spec_body_frames(channel_id, body@, chunk as nat) == then(
                Ok(out@),
                spec_body_frames(
                    channel_id,
                    body@.subrange(from as int, body@.len() as int),
                    chunk as nat,
                ),
            ),
        decreases body@.len() - from,
    {
        let ghost rest = body@.subrange(from as int, body@.len() as int);
        let ghost before = out@;
        let piece = slice_subrange(body, from, from + chunk);
        assert(piece@ =~= rest.subrange(0, chunk as int));
        assert(body@.subrange(from + chunk, body@.len() as int) =~= rest.subrange(
            chunk as int,
            rest.len() as int,
        ));
        proof {
            crate::encde::table::lemma_then_assoc(
                Ok(before),
                spec_encode_frame(spec_body(channel_id, piece@)),
                spec_body_frames(
                    channel_id,
                    rest.subrange(chunk as int, rest.len() as int),
                    chunk as nat,
                ),
            );
        }
        let frame = Body::new(channel_id, RawBytes(slice_to_vec(piece)));
        proof {
            reveal(spec_body);
        }
        put_bytes(&mut out, encode_frame(&frame)?);
        from = from + chunk;
    }
    let last = slice_subrange(body, from, body.len());
    let frame = Body::new(channel_id, RawBytes(slice_to_vec(last)));
    proof {
        reveal(spec_body);
    }
    put_bytes(&mut out, encode_frame(&frame)?);
    Ok(out)
}

/// Writes the frames of a message for the broker, none of them longer than `frame_max`
/// where that sets a limit.
pub fn publish_frames(
    channel_id: u16,
    exchange: &str,
    routing_key: &str,
    mandatory: bool,
    immediate: bool,
    properties: Properties,
    body: &[u8],
    frame_max: u32,
) -> (r: Result<Vec<u8>, EncodeError>)
    ensures
        encodes_as(
            r,
            spec_publish_frames(
                channel_id,
                exchange@,
                routing_key@,
                mandatory,
                immediate,
                properties@,
                body@,
                frame_max,
            ),
        ),
{
    reveal(spec_content_header);
    let publish = Publish::new(channel_id, exchange, routing_key, mandatory, immediate);
    let mut out = encode_frame(&publish)?;
    let content = Content::new(channel_id, body.len() as u64, properties);
    put_bytes(&mut out, encode_frame(&content)?);
    put_bytes(&mut out, body_frames(channel_id, body, frame_max)?);
    Ok(out)
}

/// The frame of the `basic.ack` for one delivery, which goes out on channel 1.
pub open spec fn spec_ack_frame(delivery_tag: u64) -> Result<Seq<u8>, EncodeError> {
    spec_encode_frame(
        then(
            then(
                BasicFrameInfo::spec_new(1, BasicMethodID::Ack).spec_encode(),
                Ok(spec_u64_bytes(delivery_tag)),
            ),
            Ok(seq![0u8]),
        ),
    )
}

/// Writes the acknowledgment of a message: a `basic.ack` that echoes its delivery tag.
pub fn acknowledge(message: &Message) -> (r: Result<Vec<u8>, EncodeError>)
    ensures
        encodes_as(r, spec_ack_frame(message.additional_info.delivery_tag)),
{
    let ack = Ack::new(message.additional_info.delivery_tag);
    encode_frame(&ack)
}

/// The frames of an answer to a message: published with no properties on the default
/// exchange, to the queue that the message names in `reply_to`. A message that names
/// none gets no answer.
pub open spec fn spec_reply_frames(
    channel_id: u16,
    asked: PropertiesModel,
    response: Seq<u8>,
    frame_max: u32,
) -> Result<Option<Seq<u8>>, EncodeError> {
    match asked.reply_to {
        None => Ok(None),
        Some(queue) => match spec_publish_frames(
            channel_id,
            Seq::empty(),
            queue,
            false,
            false,
            PropertiesModel::empty(),
            response,
            frame_max,
        ) {
            Ok(frames) => Ok(Some(frames)),
            Err(e) => Err(e),
        },
    }
}

/// Writes the frames of an answer to a message, if the message asks for one.
pub fn reply_frames(
    channel_id: u16,
    asked: &Properties,
    response: &[u8],
    frame_max: u32,
) -> (r: Result<Option<Vec<u8>>, EncodeError>)
    ensures
        match spec_reply_frames(channel_id, asked@, response@, frame_max) {
            Ok(Some(frames)) => r matches Ok(Some(v)) && v@ == frames,
            Ok(None) => r matches Ok(None),
            Err(e) => r matches Err(e2) && e2 == e,
        },
{
    match &asked.reply_to {
        None => Ok(None),
        Some(queue) => {
            proof {
                reveal_strlit("");
                assert(""@ =~= Seq::<char>::empty());
            }
            let frames = publish_frames(
                channel_id,
                "",
                queue.as_str(),
                false,
                false,
                Properties::default(),
                response,
                frame_max,
            )?;
            Ok(Some(frames))
        },
    }
}

/// How far a delivery has come.
#[derive(Debug, Clone, PartialEq, Eq)]
pub enum AssemblyState {
    /// No delivery is under way.
    Idle,
    /// The `basic.deliver` came; the content header is due.
    AwaitingHeader { delivery_tag: u64 },
    /// The content header came; body frames are due until `expected` bytes are there.
    AwaitingBody { delivery_tag: u64, properties: Properties, expected: u64, received: Vec<u8> },
}

/// How far a delivery has come, apart from how it is held in memory.
pub enum AssemblyModel {
    Idle,
    AwaitingHeader { delivery_tag: u64 },
    AwaitingBody {
        delivery_tag: u64,
        properties: PropertiesModel,
        expected: u64,
        received: Seq<u8>,
    },
}

impl View for AssemblyState {
    type V = AssemblyModel;

    open spec fn view(&self) -> AssemblyModel {
        match self {
            AssemblyState::Idle => AssemblyModel::Idle,
            AssemblyState::AwaitingHeader { delivery_tag } => AssemblyModel::AwaitingHeader {
                delivery_tag: *delivery_tag,
            },
            AssemblyState::AwaitingBody {
                delivery_tag,
                properties,
                expected,
                received,
            } => AssemblyModel::AwaitingBody {
                delivery_tag: *delivery_tag,
                properties: properties@,
                expected: *expected,
                received: received@,
            },
        }
    }
}

/// What a frame brought.
#[derive(Debug, Clone, PartialEq, Eq)]
pub enum Assembled {
    /// The delivery is not complete: more frames are due.
    Pending,
    /// A heartbeat came: the answer, a heartbeat frame, is to be sent at once.
    Heartbeat { answer: Vec<u8> },
    /// The frame completed this message.
    Message(Message),
}

/// What a frame brought, apart from how it is held in memory.
pub enum AssembledModel {
    Pending,
    Heartbeat { answer: Seq<u8> },
    Message { bytes: Seq<u8>, properties: PropertiesModel, delivery_tag: u64 },
}

impl View for Assembled {
    type V = AssembledModel;

    open spec fn view(&self) -> AssembledModel {
        match self {
            Assembled::Pending => AssembledModel::Pending,
            Assembled::Heartbeat { answer } => AssembledModel::Heartbeat { answer: answer@ },
            Assembled::Message(message) => AssembledModel::Message {
                bytes: message.bytes@,
                properties: message.properties@,
                delivery_tag: message.additional_info.delivery_tag,
            },
        }
    }
}

/// A body frame came while `expected` bytes are due and `received` are there: the
/// message is complete when the lengths meet, and the delivery fails when the body
/// overruns.
pub open spec fn spec_accept_body(
    delivery_tag: u64,
    properties: PropertiesModel,
    expected: u64,
    received: Seq<u8>,
    content: Seq<u8>,
) -> (AssemblyModel, Result<AssembledModel, DecodeError>) {
    let all = received + content;
    if all.len() > expected {
        (AssemblyModel::Idle, Err(DecodeError::SizeMismatch))
    } else if all.len() == expected {
        (
            AssemblyModel::Idle,
            Ok(AssembledModel::Message { bytes: all, properties, delivery_tag }),
        )
    } else {
        (
            AssemblyModel::AwaitingBody { delivery_tag, properties, expected, received: all },
            Ok(AssembledModel::Pending),
        )
    }
}

/// What one frame does to a delivery. A heartbeat may come at any time: it changes
/// nothing and is answered with a heartbeat. Otherwise a `basic.deliver` opens a delivery, the content header says how
/// long the body is, and body frames are gathered until that many bytes are there,
/// however many frames it takes. A frame that is not the one that is due ends the
/// delivery with the error.
pub open spec fn spec_accept(state: AssemblyModel, frame: Seq<u8>) -> (
    AssemblyModel,
    Result<AssembledModel, DecodeError>,
) {
    match spec_frame_length(frame) {
        Err(e) => (AssemblyModel::Idle, Err(e)),
        Ok(_) => if FrameType::spec_from_octet(frame[0]) == FrameType::Heartbeat {
            (state, Ok(AssembledModel::Heartbeat { answer: spec_heartbeat_frame() }))
        } else {
            match state {
                AssemblyModel::Idle => match spec_decode_frame::<Deliver>(frame) {
                    Err(e) => (AssemblyModel::Idle, Err(e)),
                    Ok(deliver) => (
                        AssemblyModel::AwaitingHeader { delivery_tag: deliver.2 },
                        Ok(AssembledModel::Pending),
                    ),
                },
                AssemblyModel::AwaitingHeader { delivery_tag } => match spec_decode_frame::<
                    Content,
                >(frame) {
                    Err(e) => (AssemblyModel::Idle, Err(e)),
                    Ok(content) => spec_accept_body(
                        delivery_tag,
                        content.4,
                        content.3,
                        Seq::empty(),
                        Seq::empty(),
                    ),
                },
                AssemblyModel::AwaitingBody {
                    delivery_tag,
                    properties,
                    expected,
                    received,
                } => match spec_decode_frame::<Body>(frame) {
                    Err(e) => (AssemblyModel::Idle, Err(e)),
                    Ok(body) => spec_accept_body(
                        delivery_tag,
                        properties,
                        expected,
                        received,
                        body.1,
                    ),
                },
            }
        },
    }
}

/// Puts deliveries together, frame by frame.
#[derive(Debug, Clone, PartialEq, Eq)]
pub struct Assembler {
    pub state: AssemblyState,
}

fn accept_body(
    delivery_tag: u64,
    properties: Properties,
    expected: u64,
    received: Vec<u8>,
    content: Vec<u8>,
) -> (r: (AssemblyState, Result<Assembled, DecodeError>))
    ensures
        ({
            let s = spec_accept_body(delivery_tag, properties@, expected, received@, content@);
            &&& r.0@ == s.0
            &&& match s.1 {
                Ok(m) => r.1 matches Ok(v) && v@ == m,
                Err(e) => r.1 matches Err(e2) && e2 == e,
            }
        }),
{
    if content.len() as u64 > expected || received.len() as u64 > expected - content.len() as u64 {
        return (AssemblyState::Idle, Err(DecodeError::SizeMismatch));
    }
    let mut all = received;
    put_bytes(&mut all, content);
    if all.len() as u64 == expected {
        let message = Message::new(all, properties, AdditionalInfo::new(delivery_tag));
        (AssemblyState::Idle, Ok(Assembled::Message(message)))
    } else {
        (
            AssemblyState::AwaitingBody { delivery_tag, properties, expected, received: all },
            Ok(Assembled::Pending),
        )
    }
}

impl Assembler {
    /// An assembler with no delivery under way.
    pub fn new() -> (r: Self)
        ensures
            r.state@ == AssemblyModel::Idle,
    {
        Assembler { state: AssemblyState::Idle }
    }

    /// Takes one whole frame, and says what it brought.
    pub fn accept(&mut self, frame: &[u8]) -> (r: Result<Assembled, DecodeError>)
        ensures
            ({
                let s = spec_accept(old(self).state@, frame@);
                &&& final(self).state@ == s.0
                &&& match s.1 {
                    Ok(m) => r matches Ok(v) && v@ == m,
                    Err(e) => r matches Err(e2) && e2 == e,
                }
            }),
    {
        let mut state = AssemblyState::Idle;
        core::mem::swap(&mut self.state, &mut state);
        match frame_length(frame) {
            Err(e) => {
                return Err(e);
            },
            Ok(_) => {},
        }
        if FrameType::from_octet(frame[0]) == FrameType::Heartbeat {
            self.state = state;
            return Ok(Assembled::Heartbeat { answer: heartbeat_frame() });
        }
        match state {
            AssemblyState::Idle => {
                let deliver = decode_frame::<Deliver>(frame)?;
                self.state = AssemblyState::AwaitingHeader { delivery_tag: deliver.delivery_tag };
                Ok(Assembled::Pending)
            },
            AssemblyState::AwaitingHeader { delivery_tag } => {
                let content = decode_frame::<Content>(frame)?;
                let (next, r) = accept_body(
                    delivery_tag,
                    content.properties,
                    content.size,
                    Vec::new(),
                    Vec::new(),
                );
                self.state = next;
                r
            },
            AssemblyState::AwaitingBody { delivery_tag, properties, expected, received } => {
                let body = decode_frame::<Body>(frame)?;
                let (next, r) = accept_body(
                    delivery_tag,
                    properties,
                    expected,
                    received,
                    body.content.0,
                );
                self.state = next;
                r
            },
        }
    }
}

/// Bytes as they come from the transport, cut into frames by the lengths that the
/// frames declare, however the transport happened to hand the bytes over.
#[derive(Debug, Clone, PartialEq, Eq)]
pub struct FrameBuffer {
    pub bytes: Vec<u8>,
}

/// What stands at the front of the buffered bytes: a whole frame, with what follows
/// it; nothing yet, where the frame is not all there; or an error that no further
/// bytes can mend.
pub open spec fn spec_next_frame(bytes: Seq<u8>) -> Result<
    Option<(Seq<u8>, Seq<u8>)>,
    DecodeError,
> {
    match spec_frame_length(bytes) {
        Ok(n) => Ok(Some((bytes.subrange(0, n), bytes.subrange(n, bytes.len() as int)))),
        Err(e) => if e == DecodeError::Truncated || e == DecodeError::SizeMismatch {
            Ok(None)
        } else {
            Err(e)
        },
    }
}

impl FrameBuffer {
    /// A buffer with nothing in it.
    pub fn new() -> (r: Self)
        ensures
            r.bytes@ == Seq::<u8>::empty(),
    {
        FrameBuffer { bytes: Vec::new() }
    }

    /// Adds bytes that came in.
    pub fn push(&mut self, bytes: &[u8])
        ensures
            final(self).bytes@ == old(self).bytes@ + bytes@,
    {
        put_bytes(&mut self.bytes, slice_to_vec(bytes));
    }

    /// Takes the first frame out of the buffer, if it is all there. Otherwise the buffer
    /// stays as it is.
    pub fn next_frame(&mut self) -> (r: Result<Option<Vec<u8>>, DecodeError>)
        ensures
            match spec_next_frame(old(self).bytes@) {
                Ok(Some((frame, rest))) => r matches Ok(Some(v)) && v@ == frame
                    && final(self).bytes@ == rest,
                Ok(None) => r matches Ok(None) && final(self).bytes@ == old(self).bytes@,
                Err(e) => r matches Err(e2) && e2 == e && final(self).bytes@ == old(self).bytes@,
            },
    {
        match frame_length(self.bytes.as_slice()) {
            Ok(n) => {
                let mut rest = self.bytes.split_off(n);
                core::mem::swap(&mut self.bytes, &mut rest);
                Ok(Some(rest))
            },
            Err(DecodeError::Truncated) => Ok(None),
            Err(DecodeError::SizeMismatch) => Ok(None),
            Err(e) => Err(e),
        }
    }
}

proof fn lemma_content_window(
    w: Seq<u8>,
    header: Header,
    size: u64,
    properties: PropertiesModel,
)
    requires
        Header::spec_decode(w, 0) == Ok::<(Header, int), DecodeError>((header, 7)),
        header.frame_type == FrameType::Header,
        spec_encode_properties(properties) is Ok,
        properties.headers matches Some(t) ==> spec_entries_fit(t, 0, MAX_TABLE_DEPTH as nat),
        holds_at(
            w,
            7,
            spec_u16_bytes(60) + spec_u16_bytes(0) + spec_u64_bytes(size) + spec_encode_properties(
                properties,
            )->Ok_0,
        ),
    ensures
        Content::spec_decode(w, 0) matches Ok((content, _)) && content.3 == size && content.4
            == properties,
{
    let class = spec_u16_bytes(60);
    let weight = spec_u16_bytes(0);
    let length = spec_u64_bytes(size);
    let fields = spec_encode_properties(properties)->Ok_0;
    lemma_holds_at_split(w, 7, class + weight + length, fields);
    lemma_holds_at_split(w, 7, class + weight, length);
    lemma_holds_at_split(w, 7, class, weight);
    lemma_u16_round_trip(60, w, 7);
    assert(ClassID::spec_decode(w, 7) == Ok::<(ClassID, int), DecodeError>((ClassID::Basic, 9)));
    lemma_u16_round_trip(0, w, 9);
    lemma_u64_round_trip(size, w, 11);
    lemma_properties_round_trip(properties, w, 19);
    assert(Properties::spec_decode(w, 19) == Ok::<(PropertiesModel, int), DecodeError>(
        (properties, 19 + fields.len() as int),
    ));
}

proof fn lemma_content_unframed(channel_id: u16, size: u64, properties: PropertiesModel)
    requires
        spec_content_header(channel_id, size, properties) is Ok,
    ensures
        ({
            let unframed = spec_content_header(channel_id, size, properties)->Ok_0;
            &&& spec_encode_properties(properties) is Ok
            &&& unframed.len() >= 7
            &&& unframed[0] == 2
            &&& unframed.subrange(7, unframed.len() as int) == spec_u16_bytes(60)
                + spec_u16_bytes(0) + spec_u64_bytes(size) + spec_encode_properties(
                properties,
            )->Ok_0
        }),
{
    reveal(spec_content_header);
    let unframed = spec_content_header(channel_id, size, properties)->Ok_0;
    let fields = spec_encode_properties(properties)->Ok_0;
    assert(unframed.subrange(7, unframed.len() as int) =~= spec_u16_bytes(60) + spec_u16_bytes(0)
        + spec_u64_bytes(size) + fields);
}

/// The frame of a content header is a whole frame of type `Header`, and is read back as
/// the size and the properties that went into it.
pub proof fn lemma_content_frame(channel_id: u16, size: u64, properties: PropertiesModel)
    requires
        spec_encode_frame(spec_content_header(channel_id, size, properties)) is Ok,
        properties.headers matches Some(t) ==> spec_entries_fit(t, 0, MAX_TABLE_DEPTH as nat),
    ensures
        ({
            let frame = spec_encode_frame(spec_content_header(channel_id, size, properties))->Ok_0;
            &&& spec_frame_length(frame) is Ok
            &&& FrameType::spec_from_octet(frame[0]) == FrameType::Header
            &&& spec_decode_frame::<Content>(frame) matches Ok(content) && content.3 == size
                && content.4 == properties
        }),
{
    let unframed = spec_content_header(channel_id, size, properties)->Ok_0;
    let frame = spec_encode_frame(Ok(unframed))->Ok_0;
    let w = frame.subrange(0, frame.len() - 1);
    lemma_content_unframed(channel_id, size, properties);
    lemma_frame_found(unframed);
    lemma_content_window(w, Header::spec_decode(w, 0)->Ok_0.0, size, properties);
    lemma_decode_frame::<Content>(frame);
}

proof fn lemma_body_unframed(channel_id: u16, body: Seq<u8>)
    ensures
        ({
            let unframed = spec_body(channel_id, body)->Ok_0;
            &&& spec_body(channel_id, body) is Ok
            &&& unframed.len() == 7 + body.len()
            &&& unframed[0] == 3
            &&& unframed.subrange(7, unframed.len() as int) == body
        }),
{
    reveal(spec_body);
    let unframed = spec_body(channel_id, body)->Ok_0;
    assert(unframed.subrange(7, unframed.len() as int) =~= body);
}

/// The frame of a body is a whole frame of type `Body`, eight octets longer than the
/// bytes that went into it, and is read back as those bytes. So no body frame that goes
/// out under a limit is longer than the limit.
pub proof fn lemma_body_frame(channel_id: u16, body: Seq<u8>)
    requires
        spec_encode_frame(spec_body(channel_id, body)) is Ok,
    ensures
        ({
            let frame = spec_encode_frame(spec_body(channel_id, body))->Ok_0;
            &&& frame.len() == body.len() + 8
            &&& spec_frame_length(frame) == Ok::<int, DecodeError>(frame.len() as int)
            &&& FrameType::spec_from_octet(frame[0]) == FrameType::Body
            &&& spec_decode_frame::<Body>(frame) matches Ok(read) && read.1 == body
        }),
{
    let unframed = spec_body(channel_id, body)->Ok_0;
    let frame = spec_encode_frame(Ok(unframed))->Ok_0;
    lemma_body_unframed(channel_id, body);
    lemma_frame_found(unframed);
    lemma_decode_frame::<Body>(frame);
    crate::encde::lemma_frame_size(unframed);
}

/// What goes out comes back. Where a delivery is under way and its content header is
/// due, the content header frame and the body frame of a publish whose body goes in one
/// frame, fed to the assembler one after the other, give the message with the body and
/// the properties that were published. A message with no body is complete at the
/// content header.
pub proof fn lemma_publish_then_deliver(
    channel_id: u16,
    properties: PropertiesModel,
    body: Seq<u8>,
    delivery_tag: u64,
)
    requires
        body.len() <= u64::MAX,
        spec_encode_frame(spec_content_header(channel_id, body.len() as u64, properties)) is Ok,
        spec_encode_frame(spec_body(channel_id, body)) is Ok,
        properties.headers matches Some(t) ==> spec_entries_fit(t, 0, MAX_TABLE_DEPTH as nat),
    ensures
        ({
            let header_frame = spec_encode_frame(
                spec_content_header(channel_id, body.len() as u64, properties),
            )->Ok_0;
            let body_frame = spec_encode_frame(spec_body(channel_id, body))->Ok_0;
            let message = AssembledModel::Message { bytes: body, properties, delivery_tag };
            let at_header = spec_accept(
                AssemblyModel::AwaitingHeader { delivery_tag },
                header_frame,
            );
            if body.len() == 0 {
                at_header == (AssemblyModel::Idle, Ok::<AssembledModel, DecodeError>(message))
            } else {
                &&& at_header.1 == Ok::<AssembledModel, DecodeError>(AssembledModel::Pending)
                &&& spec_accept(at_header.0, body_frame) == (
                    AssemblyModel::Idle,
                    Ok::<AssembledModel, DecodeError>(message),
                )
            }
        }),
{
    let size = body.len() as u64;
    let header_frame = spec_encode_frame(spec_content_header(channel_id, size, properties))->Ok_0;
    let body_frame = spec_encode_frame(spec_body(channel_id, body))->Ok_0;
    let nothing = Seq::<u8>::empty();
    lemma_accept_header(channel_id, size, properties, delivery_tag);
    assert(nothing + nothing =~= nothing);
    let at_header = spec_accept(AssemblyModel::AwaitingHeader { delivery_tag }, header_frame);
    assert(at_header == spec_accept_body(delivery_tag, properties, size, nothing, nothing));
    if body.len() == 0 {
        assert(body =~= nothing);
    } else {
        let waiting = AssemblyModel::AwaitingBody {
            delivery_tag,
            properties,
            expected: size,
            received: nothing,
        };
        assert(at_header.0 == waiting);
        lemma_accept_body(channel_id, body, delivery_tag, properties, size, nothing);
        assert(nothing + body =~= body);
        assert(spec_accept(waiting, body_frame) == spec_accept_body(
            delivery_tag,
            properties,
            size,
            nothing,
            body,
        ));
    }
}

/// The content header frame of a publish tells the assembler the size and the properties
/// that were published.
pub proof fn lemma_accept_header(
    channel_id: u16,
    size: u64,
    properties: PropertiesModel,
    delivery_tag: u64,
)
    requires
        spec_encode_frame(spec_content_header(channel_id, size, properties)) is Ok,
        properties.headers matches Some(t) ==> spec_entries_fit(t, 0, MAX_TABLE_DEPTH as nat),
    ensures
        spec_accept(
            AssemblyModel::AwaitingHeader { delivery_tag },
            spec_encode_frame(spec_content_header(channel_id, size, properties))->Ok_0,
        ) == spec_accept_body(delivery_tag, properties, size, Seq::empty(), Seq::empty()),
{
    lemma_content_frame(channel_id, size, properties);
}

/// A body frame of a publish adds its run of bytes to what the assembler has gathered,
/// whichever run of the body it carries.
pub proof fn lemma_accept_body(
    channel_id: u16,
    body: Seq<u8>,
    delivery_tag: u64,
    properties: PropertiesModel,
    expected: u64,
    received: Seq<u8>,
)
    requires
        spec_encode_frame(spec_body(channel_id, body)) is Ok,
    ensures
        spec_accept(
            AssemblyModel::AwaitingBody { delivery_tag, properties, expected, received },
            spec_encode_frame(spec_body(channel_id, body))->Ok_0,
        ) == spec_accept_body(delivery_tag, properties, expected, received, body),
{
    lemma_body_frame(channel_id, body);
}

} // verus!
