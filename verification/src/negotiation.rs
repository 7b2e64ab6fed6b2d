//! The negotiation of a connection and of its channel, as a state machine: it is told
//! what happened, and says what to do next. It does no input or output of its own.
use vstd::prelude::*;
use vstd::string::StringExecFns;

use crate::connection_parameters::{ConnectionParameters, Mechanism};
use crate::encde::long_string::spec_encode_long_string;
use crate::encde::method::{ChannelMethodID, ConnectionMethodID};
use crate::encde::short_string::spec_encode_short_string;
use crate::encde::table::spec_encode_table;
use crate::encde::{
    decode_frame, encode_frame, encode_frame_static, spec_decode_frame, spec_encode_frame, then,
    Encode,
};
use crate::encde::integers::{spec_u16_bytes, spec_u32_bytes};
use crate::errors::{EncodeError, FlowError};
use crate::frame::channel::ChannelFrameInfo;
use crate::frame::connection::{
    spec_client_properties, spec_protocol_header_bytes, Close, CloseOk, ConnectionFrameInfo, Open,
    OpenOk, ProtocolHeader, Start, StartOk, Tune, TuneOk, GLOBAL_CHANNEL,
};

verus! {

/// The reply code of a close that nothing went wrong before.
pub const REPLY_SUCCESS: u16 = 200;

/// Where a connection stands.
#[derive(Debug, Clone, Copy, PartialEq, Eq, Structural)]
pub enum ConnectionState {
    /// Nothing was sent yet, or the connection failed and must start over.
    Disconnected,
    /// The protocol header is out; the broker's `start` is due.
    AwaitingStart,
    /// `start-ok` is out; the broker's `tune` is due.
    AwaitingTune,
    /// `tune-ok` is out; `open` is to be sent next.
    AwaitingOpen,
    /// `open` is out; the broker's `open-ok` is due.
    AwaitingOpenOk,
    /// The connection is open.
    Open,
    /// `channel.open` is out; the broker's `open-ok` for the channel is due.
    AwaitingChannelOpenOk,
    /// The channel is open. Further channels may be opened from here.
    ChannelReady,
    /// `close` is out; the broker's `close-ok` is due.
    AwaitingCloseOk,
    /// The connection is closed, as both sides agreed.
    Closed,
}

/// What happened.
#[derive(Debug, Clone, PartialEq, Eq)]
pub enum Event {
    /// The transport is up, and the negotiation may begin.
    Connect,
    /// One whole frame came in.
    Received(Vec<u8>),
    /// The frame that was to be sent has gone out.
    Sent,
    /// The application asks for a channel.
    OpenChannel,
    /// The application asks to close the connection.
    Close,
}

/// What happened, with frames as plain bytes.
pub enum EventModel {
    Connect,
    Received(Seq<u8>),
    Sent,
    OpenChannel,
    Close,
}

impl View for Event {
    type V = EventModel;

    open spec fn view(&self) -> EventModel {
        match self {
            Event::Connect => EventModel::Connect,
            Event::Received(frame) => EventModel::Received(frame@),
            Event::Sent => EventModel::Sent,
            Event::OpenChannel => EventModel::OpenChannel,
            Event::Close => EventModel::Close,
        }
    }
}

/// What to do next.
#[derive(Debug, Clone, PartialEq, Eq)]
pub enum Action {
    /// Send these bytes, then report `Sent`.
    Send(Vec<u8>),
    /// Wait for the next frame, then report it as `Received`.
    Receive,
    /// Nothing is due: the step that was asked for is complete.
    Ready,
    /// Give up the connection.
    Fail(FlowError),
}

/// What to do next, with frames as plain bytes.
pub enum ActionModel {
    Send(Seq<u8>),
    Receive,
    Ready,
    Fail(FlowError),
}

impl View for Action {
    type V = ActionModel;

    open spec fn view(&self) -> ActionModel {
        match self {
            Action::Send(frame) => ActionModel::Send(frame@),
            Action::Receive => ActionModel::Receive,
            Action::Ready => ActionModel::Ready,
            Action::Fail(error) => ActionModel::Fail(*error),
        }
    }
}

/// Hands out channel ids, each one once, in rising order from 1.
#[derive(Debug, Clone, Copy, PartialEq, Eq, Structural)]
pub struct ChannelAllocator {
    /// The id that goes out next; beyond 65535 none is left.
    pub next: u32,
}

impl ChannelAllocator {
    /// An allocator that has handed out nothing yet.
    pub fn new() -> (r: Self)
        ensures
            r.next == 1,
    {
        ChannelAllocator { next: 1 }
    }

    /// The id that `allocate` gives next, if one is left.
    pub open spec fn spec_peek(self) -> Option<u16> {
        if 1 <= self.next <= 0xffff {
            Some(self.next as u16)
        } else {
            None
        }
    }

    /// The allocator after `allocate`.
    pub open spec fn spec_advance(self) -> ChannelAllocator {
        if 1 <= self.next <= 0xffff {
            ChannelAllocator { next: (self.next + 1) as u32 }
        } else {
            self
        }
    }

    /// Hands out the next id. Every id that it hands out later is greater.
    pub fn allocate(&mut self) -> (r: Option<u16>)
        ensures
            r == old(self).spec_peek(),
            *final(self) == old(self).spec_advance(),
            r matches Some(id) ==> final(self).next == id + 1,
    {
        if 1 <= self.next && self.next <= 0xffff {
            let id = self.next as u16;
            self.next = self.next + 1;
            Some(id)
        } else {
            None
        }
    }
}

/// The negotiation of one connection: its state, and what it needs to answer the broker.
#[derive(Debug, Clone, PartialEq, Eq)]
pub struct Negotiation {
    pub state: ConnectionState,
    pub username: String,
    pub password: String,
    pub virtual_host: String,
    pub mechanism: Mechanism,
    pub channels: ChannelAllocator,
    /// The channel that was opened last; 0 before any was.
    pub channel_id: u16,
    /// The largest frame that the broker takes, as it said in `tune`; 0 for no limit, and
    /// before it said anything.
    pub frame_max: u32,
}

/// A negotiation, with texts as plain sequences.
pub struct NegotiationModel {
    pub state: ConnectionState,
    pub username: Seq<char>,
    pub password: Seq<char>,
    pub virtual_host: Seq<char>,
    pub mechanism: Mechanism,
    pub channels: ChannelAllocator,
    pub channel_id: u16,
    pub frame_max: u32,
}

impl View for Negotiation {
    type V = NegotiationModel;

    open spec fn view(&self) -> NegotiationModel {
        NegotiationModel {
            state: self.state,
            username: self.username@,
            password: self.password@,
            virtual_host: self.virtual_host@,
            mechanism: self.mechanism,
            channels: self.channels,
            channel_id: self.channel_id,
            frame_max: self.frame_max,
        }
    }
}

/// The response of the PLAIN mechanism: a zero, the user name, a zero, the password.
pub open spec fn spec_plain_response(username: Seq<char>, password: Seq<char>) -> Seq<char> {
    seq!['\0'] + username + seq!['\0'] + password
}

/// The frame of the `connection.start-ok` that answers a `start`.
pub open spec fn spec_start_ok_frame(
    mechanism: Seq<char>,
    response: Seq<char>,
    locale: Seq<char>,
) -> Result<Seq<u8>, EncodeError> {
    spec_encode_frame(
        then(
            then(
                then(
                    then(
                        ConnectionFrameInfo::spec_new(
                            GLOBAL_CHANNEL,
                            ConnectionMethodID::StartOk,
                        ).spec_encode(),
                        spec_encode_table(spec_client_properties()),
                    ),
                    spec_encode_short_string(mechanism),
                ),
                spec_encode_long_string(response),
            ),
            spec_encode_short_string(locale),
        ),
    )
}

/// The frame of the `connection.tune-ok` that accepts these limits.
pub open spec fn spec_tune_ok_frame(channel_max: u16, frame_max: u32, heartbeat: u16) -> Result<
    Seq<u8>,
    EncodeError,
> {
    spec_encode_frame(
        then(
            then(
                then(
                    ConnectionFrameInfo::spec_new(
                        GLOBAL_CHANNEL,
                        ConnectionMethodID::TuneOk,
                    ).spec_encode(),
                    Ok(spec_u16_bytes(channel_max)),
                ),
                Ok(spec_u32_bytes(frame_max)),
            ),
            Ok(spec_u16_bytes(heartbeat)),
        ),
    )
}

/// The frame of the `connection.open` for a virtual host.
pub open spec fn spec_open_frame(virtual_host: Seq<char>) -> Result<Seq<u8>, EncodeError> {
    spec_encode_frame(
        then(
            then(
                then(
                    ConnectionFrameInfo::spec_new(
                        GLOBAL_CHANNEL,
                        ConnectionMethodID::Open,
                    ).spec_encode(),
                    spec_encode_short_string(virtual_host),
                ),
                Ok(seq![0u8]),
            ),
            Ok(seq![0u8]),
        ),
    )
}

/// The frame of the `channel.open` for a channel.
pub open spec fn spec_channel_open_frame(channel_id: u16) -> Result<Seq<u8>, EncodeError> {
    spec_encode_frame(
        then(
            ChannelFrameInfo::spec_new(channel_id, ChannelMethodID::Open).spec_encode(),
            spec_encode_short_string(Seq::empty()),
        ),
    )
}

/// The frame of the `connection.close` that the client sends when all went well.
pub open spec fn spec_close_frame() -> Result<Seq<u8>, EncodeError> {
    spec_encode_frame(
        then(
            then(
                then(
                    then(
                        ConnectionFrameInfo::spec_new(
                            GLOBAL_CHANNEL,
                            ConnectionMethodID::Close,
                        ).spec_encode(),
                        Ok(spec_u16_bytes(REPLY_SUCCESS)),
                    ),
                    spec_encode_short_string(Seq::empty()),
                ),
                Ok(spec_u16_bytes(0)),
            ),
            Ok(spec_u16_bytes(0)),
        ),
    )
}

/// The frame of the `connection.close-ok` that answers a `close` of the broker.
pub open spec fn spec_close_ok_frame() -> Result<Seq<u8>, EncodeError> {
    spec_encode_frame(
        ConnectionFrameInfo::spec_new(GLOBAL_CHANNEL, ConnectionMethodID::CloseOk).spec_encode(),
    )
}

/// The connection is given up: it is back at `Disconnected`, and the failure is handed
/// on.
pub open spec fn spec_fail(
    m: NegotiationModel,
    error: FlowError,
) -> (NegotiationModel, ActionModel) {
    (NegotiationModel { state: ConnectionState::Disconnected, ..m }, ActionModel::Fail(error))
}

/// A frame is sent and the state moves on; a frame that cannot be written gives the
/// connection up.
pub open spec fn spec_send(
    m: NegotiationModel,
    next: ConnectionState,
    frame: Result<Seq<u8>, EncodeError>,
) -> (NegotiationModel, ActionModel) {
    match frame {
        Ok(bytes) => (NegotiationModel { state: next, ..m }, ActionModel::Send(bytes)),
        Err(e) => spec_fail(m, FlowError::Encode(e)),
    }
}

/// The broker's `start` came in: the answer takes the mechanism of the connection, the
/// PLAIN response, and the locales that the broker offered.
pub open spec fn spec_on_start(
    m: NegotiationModel,
    frame: Seq<u8>,
) -> (NegotiationModel, ActionModel) {
    match spec_decode_frame::<Start>(frame) {
        Err(e) => spec_fail(m, FlowError::spec_from_decode(e)),
        Ok(start) => spec_send(
            m,
            ConnectionState::AwaitingTune,
            spec_start_ok_frame(
                m.mechanism.spec_name(),
                spec_plain_response(m.username, m.password),
                start.5,
            ),
        ),
    }
}

/// The broker's `tune` came in: the answer accepts the limits as they are, and the
/// largest frame is kept for later.
pub open spec fn spec_on_tune(
    m: NegotiationModel,
    frame: Seq<u8>,
) -> (NegotiationModel, ActionModel) {
    match spec_decode_frame::<Tune>(frame) {
        Err(e) => spec_fail(m, FlowError::spec_from_decode(e)),
        Ok(tune) => spec_send(
            NegotiationModel { frame_max: tune.2, ..m },
            ConnectionState::AwaitingOpen,
            spec_tune_ok_frame(tune.1, tune.2, tune.3),
        ),
    }
}

/// The broker's `open-ok` came in: the connection is open.
pub open spec fn spec_on_open_ok(
    m: NegotiationModel,
    frame: Seq<u8>,
) -> (NegotiationModel, ActionModel) {
    match spec_decode_frame::<OpenOk>(frame) {
        Err(e) => spec_fail(m, FlowError::spec_from_decode(e)),
        Ok(_) => (NegotiationModel { state: ConnectionState::Open, ..m }, ActionModel::Ready),
    }
}

/// The broker's `open-ok` for the channel came in: the channel is open.
pub open spec fn spec_on_channel_open_ok(m: NegotiationModel, frame: Seq<u8>) -> (
    NegotiationModel,
    ActionModel,
) {
    match spec_decode_frame::<crate::frame::channel::OpenOk>(frame) {
        Err(e) => spec_fail(m, FlowError::spec_from_decode(e)),
        Ok(_) => (
            NegotiationModel { state: ConnectionState::ChannelReady, ..m },
            ActionModel::Ready,
        ),
    }
}

/// The broker's `close-ok` came in: the connection is closed.
pub open spec fn spec_on_close_ok(
    m: NegotiationModel,
    frame: Seq<u8>,
) -> (NegotiationModel, ActionModel) {
    match spec_decode_frame::<CloseOk>(frame) {
        Err(e) => spec_fail(m, FlowError::spec_from_decode(e)),
        Ok(_) => (NegotiationModel { state: ConnectionState::Closed, ..m }, ActionModel::Ready),
    }
}

/// A frame came in on an open connection that waits for nothing: only the broker's
/// `close` is allowed, and is answered with `close-ok`.
pub open spec fn spec_on_peer_close(m: NegotiationModel, frame: Seq<u8>) -> (
    NegotiationModel,
    ActionModel,
) {
    match spec_decode_frame::<Close>(frame) {
        Err(e) => spec_fail(m, FlowError::spec_from_decode(e)),
        Ok(_) => spec_send(m, ConnectionState::Closed, spec_close_ok_frame()),
    }
}

/// The application asks for a channel: the next id is taken, and `channel.open` goes out
/// for it. When no id is left the connection is given up.
pub open spec fn spec_on_open_channel(m: NegotiationModel) -> (NegotiationModel, ActionModel) {
    match m.channels.spec_peek() {
        None => spec_fail(m, FlowError::UnexpectedEvent),
        Some(id) => spec_send(
            NegotiationModel { channels: m.channels.spec_advance(), channel_id: id, ..m },
            ConnectionState::AwaitingChannelOpenOk,
            spec_channel_open_frame(id),
        ),
    }
}

/// What the negotiation does when it is told of an event: the state after it, and what
/// is to be done next. Whatever the protocol does not allow in the state gives the
/// connection up.
pub open spec fn spec_step(
    m: NegotiationModel,
    event: EventModel,
) -> (NegotiationModel, ActionModel) {
    match (m.state, event) {
        (ConnectionState::Disconnected, EventModel::Connect) => spec_send(
            m,
            ConnectionState::AwaitingStart,
            Ok(spec_protocol_header_bytes()),
        ),
        (ConnectionState::AwaitingStart, EventModel::Sent) => (m, ActionModel::Receive),
        (ConnectionState::AwaitingStart, EventModel::Received(frame)) => spec_on_start(m, frame),
        (ConnectionState::AwaitingTune, EventModel::Sent) => (m, ActionModel::Receive),
        (ConnectionState::AwaitingTune, EventModel::Received(frame)) => spec_on_tune(m, frame),
        (ConnectionState::AwaitingOpen, EventModel::Sent) => spec_send(
            m,
            ConnectionState::AwaitingOpenOk,
            spec_open_frame(m.virtual_host),
        ),
        (ConnectionState::AwaitingOpenOk, EventModel::Sent) => (m, ActionModel::Receive),
        (ConnectionState::AwaitingOpenOk, EventModel::Received(frame)) => spec_on_open_ok(
            m,
            frame,
        ),
        (ConnectionState::Open, EventModel::OpenChannel) => spec_on_open_channel(m),
        (ConnectionState::Open, EventModel::Close) => spec_send(
            m,
            ConnectionState::AwaitingCloseOk,
            spec_close_frame(),
        ),
        (ConnectionState::Open, EventModel::Received(frame)) => spec_on_peer_close(m, frame),
        (ConnectionState::AwaitingChannelOpenOk, EventModel::Sent) => (m, ActionModel::Receive),
        (
            ConnectionState::AwaitingChannelOpenOk,
            EventModel::Received(frame),
        ) => spec_on_channel_open_ok(m, frame),
        (ConnectionState::ChannelReady, EventModel::OpenChannel) => spec_on_open_channel(m),
        (ConnectionState::ChannelReady, EventModel::Close) => spec_send(
            m,
            ConnectionState::AwaitingCloseOk,
            spec_close_frame(),
        ),
        (ConnectionState::ChannelReady, EventModel::Received(frame)) => spec_on_peer_close(
            m,
            frame,
        ),
        (ConnectionState::AwaitingCloseOk, EventModel::Sent) => (m, ActionModel::Receive),
        (ConnectionState::AwaitingCloseOk, EventModel::Received(frame)) => spec_on_close_ok(
            m,
            frame,
        ),
        (ConnectionState::Closed, EventModel::Sent) => (m, ActionModel::Ready),
        _ => spec_fail(m, FlowError::UnexpectedEvent),
    }
}

/// The response of the PLAIN mechanism for a user name and a password.
pub fn plain_response(username: &str, password: &str) -> (r: String)
    ensures
        r@ == spec_plain_response(username@, password@),
{
    proof {
        reveal_strlit("\0");
    }
    let mut response = String::from_str("\0");
    response.append(username);
    response.append("\0");
    response.append(password);
    assert(response@ =~= spec_plain_response(username@, password@));
    response
}

impl Negotiation {
    /// A negotiation that has not begun, for these parameters.
    pub fn new(parameters: &ConnectionParameters) -> (r: Self)
        ensures
            r@ == (NegotiationModel {
                state: ConnectionState::Disconnected,
                username: parameters.username@,
                password: parameters.password@,
                virtual_host: parameters.virtual_host@,
                mechanism: parameters.mechanism,
                channels: ChannelAllocator { next: 1 },
                channel_id: 0,
                frame_max: 0,
            }),
    {
        Negotiation {
            state: ConnectionState::Disconnected,
            username: parameters.username.to_owned(),
            password: parameters.password.to_owned(),
            virtual_host: parameters.virtual_host.to_owned(),
            mechanism: parameters.mechanism,
            channels: ChannelAllocator::new(),
            channel_id: 0,
            frame_max: 0,
        }
    }

    fn fail(&mut self, error: FlowError) -> (r: Action)
        ensures
            (final(self)@, r@) == spec_fail(old(self)@, error),
    {
        self.state = ConnectionState::Disconnected;
        Action::Fail(error)
    }

    fn send(&mut self, next: ConnectionState, frame: Result<Vec<u8>, EncodeError>) -> (r: Action)
        ensures
            forall|s: Result<Seq<u8>, EncodeError>| #[trigger]
                crate::encde::encodes_as(frame, s) ==> (final(self)@, r@) == spec_send(
                    old(self)@,
                    next,
                    s,
                ),
    {
        match frame {
            Ok(bytes) => {
                self.state = next;
                Action::Send(bytes)
            },
            Err(e) => self.fail(FlowError::Encode(e)),
        }
    }

    fn on_start(&mut self, frame: &[u8]) -> (r: Action)
        ensures
            (final(self)@, r@) == spec_on_start(old(self)@, frame@),
    {
        match decode_frame::<Start>(frame) {
            Err(e) => self.fail(FlowError::from_decode(e)),
            Ok(start) => {
                let response = plain_response(self.username.as_str(), self.password.as_str());
                let start_ok = StartOk::new(
                    self.mechanism.as_str(),
                    response.as_str(),
                    start.locales.0.as_str(),
                );
                self.send(ConnectionState::AwaitingTune, encode_frame(&start_ok))
            },
        }
    }

    fn on_tune(&mut self, frame: &[u8]) -> (r: Action)
        ensures
            (final(self)@, r@) == spec_on_tune(old(self)@, frame@),
    {
        match decode_frame::<Tune>(frame) {
            Err(e) => self.fail(FlowError::from_decode(e)),
            Ok(tune) => {
                self.frame_max = tune.frame_max;
                let tune_ok = TuneOk::new(tune.channel_max, tune.frame_max, tune.heartbeat);
                self.send(ConnectionState::AwaitingOpen, encode_frame(&tune_ok))
            },
        }
    }

    fn on_open_ok(&mut self, frame: &[u8]) -> (r: Action)
        ensures
            (final(self)@, r@) == spec_on_open_ok(old(self)@, frame@),
    {
        match decode_frame::<OpenOk>(frame) {
            Err(e) => self.fail(FlowError::from_decode(e)),
            Ok(_) => {
                self.state = ConnectionState::Open;
                Action::Ready
            },
        }
    }

    fn on_channel_open_ok(&mut self, frame: &[u8]) -> (r: Action)
        ensures
            (final(self)@, r@) == spec_on_channel_open_ok(old(self)@, frame@),
    {
        match decode_frame::<crate::frame::channel::OpenOk>(frame) {
            Err(e) => self.fail(FlowError::from_decode(e)),
            Ok(_) => {
                self.state = ConnectionState::ChannelReady;
                Action::Ready
            },
        }
    }

    fn on_close_ok(&mut self, frame: &[u8]) -> (r: Action)
        ensures
            (final(self)@, r@) == spec_on_close_ok(old(self)@, frame@),
    {
        match decode_frame::<CloseOk>(frame) {
            Err(e) => self.fail(FlowError::from_decode(e)),
            Ok(_) => {
                self.state = ConnectionState::Closed;
                Action::Ready
            },
        }
    }

    fn on_peer_close(&mut self, frame: &[u8]) -> (r: Action)
        ensures
            (final(self)@, r@) == spec_on_peer_close(old(self)@, frame@),
    {
        match decode_frame::<Close>(frame) {
            Err(e) => self.fail(FlowError::from_decode(e)),
            Ok(_) => {
                let close_ok = CloseOk {
                    frame_info: ConnectionFrameInfo::new(
                        GLOBAL_CHANNEL,
                        ConnectionMethodID::CloseOk,
                    ),
                };
                self.send(ConnectionState::Closed, encode_frame(&close_ok))
            },
        }
    }

    fn on_open_channel(&mut self) -> (r: Action)
        ensures
            (final(self)@, r@) == spec_on_open_channel(old(self)@),
    {
        match self.channels.allocate() {
            None => self.fail(FlowError::UnexpectedEvent),
            Some(id) => {
                self.channel_id = id;
                let open = crate::frame::channel::Open::new(id);
                proof {
                    reveal_strlit("");
                    assert(""@ =~= Seq::<char>::empty());
                }
                self.send(ConnectionState::AwaitingChannelOpenOk, encode_frame(&open))
            },
        }
    }

    fn close(&mut self) -> (r: Action)
        ensures
            (final(self)@, r@) == spec_send(
                old(self)@,
                ConnectionState::AwaitingCloseOk,
                spec_close_frame(),
            ),
    {
        let close = Close::new(REPLY_SUCCESS, "", 0, 0);
        proof {
            reveal_strlit("");
            assert(""@ =~= Seq::<char>::empty());
        }
        self.send(ConnectionState::AwaitingCloseOk, encode_frame(&close))
    }

    /// Tells the negotiation what happened, and learns what to do next.
    pub fn step(&mut self, event: Event) -> (r: Action)
        ensures
            (final(self)@, r@) == spec_step(old(self)@, event@),
    {
        match (self.state, event) {
            (ConnectionState::Disconnected, Event::Connect) => {
                let header = ProtocolHeader::new();
                self.send(ConnectionState::AwaitingStart, encode_frame_static(&header))
            },
            (ConnectionState::AwaitingStart, Event::Sent) => Action::Receive,
            (ConnectionState::AwaitingStart, Event::Received(frame)) => self.on_start(
                frame.as_slice(),
            ),
            (ConnectionState::AwaitingTune, Event::Sent) => Action::Receive,
            (ConnectionState::AwaitingTune, Event::Received(frame)) => self.on_tune(
                frame.as_slice(),
            ),
            (ConnectionState::AwaitingOpen, Event::Sent) => {
                let open = Open::new(self.virtual_host.as_str());
                self.send(ConnectionState::AwaitingOpenOk, encode_frame(&open))
            },
            (ConnectionState::AwaitingOpenOk, Event::Sent) => Action::Receive,
            (ConnectionState::AwaitingOpenOk, Event::Received(frame)) => self.on_open_ok(
                frame.as_slice(),
            ),
            (ConnectionState::Open, Event::OpenChannel) => self.on_open_channel(),
            (ConnectionState::Open, Event::Close) => self.close(),
            (ConnectionState::Open, Event::Received(frame)) => self.on_peer_close(
                frame.as_slice(),
            ),
            (ConnectionState::AwaitingChannelOpenOk, Event::Sent) => Action::Receive,
            (
                ConnectionState::AwaitingChannelOpenOk,
                Event::Received(frame),
            ) => self.on_channel_open_ok(frame.as_slice()),
            (ConnectionState::ChannelReady, Event::OpenChannel) => self.on_open_channel(),
            (ConnectionState::ChannelReady, Event::Close) => self.close(),
            (ConnectionState::ChannelReady, Event::Received(frame)) => self.on_peer_close(
                frame.as_slice(),
            ),
            (ConnectionState::AwaitingCloseOk, Event::Sent) => Action::Receive,
            (ConnectionState::AwaitingCloseOk, Event::Received(frame)) => self.on_close_ok(
                frame.as_slice(),
            ),
            (ConnectionState::Closed, Event::Sent) => Action::Ready,
            _ => self.fail(FlowError::UnexpectedEvent),
        }
    }
}

/// A `connection.tune-ok` always has a wire form.
pub proof fn lemma_tune_ok_frame(channel_max: u16, frame_max: u32, heartbeat: u16)
    ensures
        spec_tune_ok_frame(channel_max, frame_max, heartbeat) is Ok,
{
    let info = ConnectionFrameInfo::spec_new(GLOBAL_CHANNEL, ConnectionMethodID::TuneOk);
    let start = info.spec_encode()->Ok_0;
    assert(start.len() == 11);
}

/// The handshake. From `AwaitingStart`, where the protocol header has gone out, a broker
/// that sends `start`, `tune` and `open-ok` in this order brings the connection to `Open`,
/// and on the way the negotiation sends `start-ok`, `tune-ok` and `open`, in this order,
/// and nothing else. This holds whenever `start-ok` and `open` have a wire form, that is
/// when the locales that the broker offers and the virtual host fit in a short string.
pub proof fn lemma_handshake(m: NegotiationModel, start: Seq<u8>, tune: Seq<u8>, open_ok: Seq<u8>)
    requires
        m.state == ConnectionState::AwaitingStart,
        spec_decode_frame::<Start>(start) is Ok,
        spec_decode_frame::<Tune>(tune) is Ok,
        spec_decode_frame::<OpenOk>(open_ok) is Ok,
        spec_start_ok_frame(
            m.mechanism.spec_name(),
            spec_plain_response(m.username, m.password),
            spec_decode_frame::<Start>(start)->Ok_0.5,
        ) is Ok,
        spec_open_frame(m.virtual_host) is Ok,
    ensures
        ({
            let offered = spec_decode_frame::<Start>(start)->Ok_0;
            let limits = spec_decode_frame::<Tune>(tune)->Ok_0;
            let s1 = spec_step(m, EventModel::Received(start));
            let s2 = spec_step(s1.0, EventModel::Sent);
            let s3 = spec_step(s2.0, EventModel::Received(tune));
            let s4 = spec_step(s3.0, EventModel::Sent);
            let s5 = spec_step(s4.0, EventModel::Sent);
            let s6 = spec_step(s5.0, EventModel::Received(open_ok));
            &&& s1.1 == ActionModel::Send(
                spec_start_ok_frame(
                    m.mechanism.spec_name(),
                    spec_plain_response(m.username, m.password),
                    offered.5,
                )->Ok_0,
            )
            &&& s2.1 == ActionModel::Receive
            &&& s3.1 == ActionModel::Send(
                spec_tune_ok_frame(limits.1, limits.2, limits.3)->Ok_0,
            )
            &&& s4.1 == ActionModel::Send(spec_open_frame(m.virtual_host)->Ok_0)
            &&& s5.1 == ActionModel::Receive
            &&& s6.1 == ActionModel::Ready
            &&& s6.0 == (NegotiationModel {
                state: ConnectionState::Open,
                frame_max: limits.2,
                ..m
            })
        }),
{
    let limits = spec_decode_frame::<Tune>(tune)->Ok_0;
    lemma_tune_ok_frame(limits.1, limits.2, limits.3);
    let m1 = NegotiationModel { state: ConnectionState::AwaitingTune, ..m };
    let m3 = NegotiationModel {
        state: ConnectionState::AwaitingOpen,
        frame_max: limits.2,
        ..m
    };
    let m4 = NegotiationModel { state: ConnectionState::AwaitingOpenOk, ..m3 };
    assert(spec_step(m, EventModel::Received(start)).0 == m1);
    assert(spec_step(m1, EventModel::Sent).0 == m1);
    assert(spec_step(m1, EventModel::Received(tune)).0 == m3);
    assert(spec_step(m3, EventModel::Sent).0 == m4);
    assert(spec_step(m4, EventModel::Sent).0 == m4);
}

} // verus!
