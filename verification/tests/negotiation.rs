use byteflow::encde::raw_bytes::RawBytes;
use byteflow::encde::{encode_frame, encode_frame_static};
use byteflow::errors::{DecodeError, EncodeError, FlowError};
use byteflow::frame::{channel, connection};
use byteflow::negotiation::{
    plain_response, Action, ChannelAllocator, ConnectionState, Event, Negotiation, REPLY_SUCCESS,
};
use byteflow::{ConnectionParameters, ConnectionParametersBuilder, Mechanism};

fn method_frame(channel: u16, class: u16, method: u16, arguments: &[u8]) -> Vec<u8> {
    let mut unframed = vec![1u8];
    unframed.extend_from_slice(&channel.to_be_bytes());
    unframed.extend_from_slice(&[0, 0, 0, 0]);
    unframed.extend_from_slice(&class.to_be_bytes());
    unframed.extend_from_slice(&method.to_be_bytes());
    unframed.extend_from_slice(arguments);
    encode_frame(&RawBytes(unframed)).unwrap()
}

fn start_frame(locales: &str) -> Vec<u8> {
    let mut arguments = vec![0u8, 9, 0, 0, 0, 0];
    arguments.extend([0, 0, 0, 5]);
    arguments.extend(b"PLAIN");
    arguments.extend((locales.len() as u32).to_be_bytes());
    arguments.extend(locales.as_bytes());
    method_frame(0, 10, 10, &arguments)
}

fn tune_frame() -> Vec<u8> {
    method_frame(0, 10, 30, &[0x07, 0xff, 0x00, 0x02, 0x00, 0x00, 0x00, 0x3c])
}

fn open_ok_frame() -> Vec<u8> {
    method_frame(0, 10, 41, &[0])
}

fn parameters<'a>() -> ConnectionParameters<'a> {
    ConnectionParametersBuilder::builder()
        .host("localhost")
        .username("guest")
        .password("secret")
        .virtual_host("/vh")
        .build()
}

fn opened() -> Negotiation {
    let mut negotiation = Negotiation::new(&parameters());
    negotiation.step(Event::Connect);
    negotiation.step(Event::Received(start_frame("en_US")));
    negotiation.step(Event::Received(tune_frame()));
    negotiation.step(Event::Sent);
    negotiation.step(Event::Received(open_ok_frame()));
    assert_eq!(negotiation.state, ConnectionState::Open);
    negotiation
}

#[test]
fn plain_response_has_a_zero_before_each_part() {
    assert_eq!(plain_response("guest", "secret"), "\0guest\0secret");
    assert_eq!(plain_response("", ""), "\0\0");
    assert_eq!(Mechanism::Plain.as_str(), "PLAIN");
}

#[test]
fn handshake_with_a_scripted_broker() {
    let mut negotiation = Negotiation::new(&parameters());
    assert_eq!(negotiation.state, ConnectionState::Disconnected);
    let mut sent: Vec<Vec<u8>> = Vec::new();

    match negotiation.step(Event::Connect) {
        Action::Send(bytes) => assert_eq!(bytes, b"AMQP\x00\x00\x09\x01".to_vec()),
        other => panic!("{:?}", other),
    }
    assert_eq!(negotiation.state, ConnectionState::AwaitingStart);
    assert_eq!(negotiation.step(Event::Sent), Action::Receive);

    match negotiation.step(Event::Received(start_frame("en_US"))) {
        Action::Send(bytes) => sent.push(bytes),
        other => panic!("{:?}", other),
    }
    assert_eq!(negotiation.state, ConnectionState::AwaitingTune);
    assert_eq!(negotiation.step(Event::Sent), Action::Receive);

    match negotiation.step(Event::Received(tune_frame())) {
        Action::Send(bytes) => sent.push(bytes),
        other => panic!("{:?}", other),
    }
    assert_eq!(negotiation.state, ConnectionState::AwaitingOpen);
    assert_eq!(negotiation.frame_max, 131072);

    match negotiation.step(Event::Sent) {
        Action::Send(bytes) => sent.push(bytes),
        other => panic!("{:?}", other),
    }
    assert_eq!(negotiation.state, ConnectionState::AwaitingOpenOk);
    assert_eq!(negotiation.step(Event::Sent), Action::Receive);

    assert_eq!(negotiation.step(Event::Received(open_ok_frame())), Action::Ready);
    assert_eq!(negotiation.state, ConnectionState::Open);

    let start_ok = connection::StartOk::new("PLAIN", "\0guest\0secret", "en_US");
    let tune_ok = connection::TuneOk::new(2047, 131072, 60);
    let open = connection::Open::new("/vh");
    assert_eq!(
        sent,
        vec![
            encode_frame(&start_ok).unwrap(),
            encode_frame(&tune_ok).unwrap(),
            encode_frame(&open).unwrap(),
        ]
    );
}

#[test]
fn start_ok_echoes_the_locales_of_the_broker() {
    let mut negotiation = Negotiation::new(&parameters());
    negotiation.step(Event::Connect);
    let action = negotiation.step(Event::Received(start_frame("de_DE")));
    let expected = connection::StartOk::new("PLAIN", "\0guest\0secret", "de_DE");
    assert_eq!(action, Action::Send(encode_frame(&expected).unwrap()));
}

#[test]
fn frame_out_of_turn_gives_the_connection_up() {
    let mut negotiation = Negotiation::new(&parameters());
    negotiation.step(Event::Connect);
    let action = negotiation.step(Event::Received(tune_frame()));
    assert_eq!(
        action,
        Action::Fail(FlowError::ProtocolViolation(DecodeError::UnexpectedMethod))
    );
    assert_eq!(negotiation.state, ConnectionState::Disconnected);

    let mut negotiation = Negotiation::new(&parameters());
    negotiation.step(Event::Connect);
    negotiation.step(Event::Received(start_frame("en_US")));
    let action = negotiation.step(Event::Received(open_ok_frame()));
    assert_eq!(
        action,
        Action::Fail(FlowError::ProtocolViolation(DecodeError::UnexpectedMethod))
    );
    assert_eq!(negotiation.state, ConnectionState::Disconnected);
}

#[test]
fn failures_are_told_apart() {
    let mut negotiation = Negotiation::new(&parameters());
    negotiation.step(Event::Connect);
    let mut broken = start_frame("en_US");
    let last = broken.len() - 1;
    broken[last] = 0;
    assert_eq!(
        negotiation.step(Event::Received(broken)),
        Action::Fail(FlowError::Decode(DecodeError::MissingFrameEnd))
    );
    assert_eq!(negotiation.state, ConnectionState::Disconnected);

    let mut negotiation = Negotiation::new(&parameters());
    negotiation.step(Event::Connect);
    assert_eq!(
        negotiation.step(Event::Received(vec![9, 0, 0, 0, 0, 0, 0, 0xCE])),
        Action::Fail(FlowError::ProtocolViolation(DecodeError::InvalidFrameType))
    );

    let mut negotiation = Negotiation::new(&parameters());
    negotiation.step(Event::Connect);
    let locales = "x".repeat(300);
    assert_eq!(
        negotiation.step(Event::Received(start_frame(&locales))),
        Action::Fail(FlowError::Encode(EncodeError::ShortStringTooLong))
    );
    assert_eq!(negotiation.state, ConnectionState::Disconnected);

    assert_eq!(FlowError::from_decode(DecodeError::Truncated), FlowError::Decode(DecodeError::Truncated));
    assert!(DecodeError::UnknownClass.is_protocol_violation());
    assert!(DecodeError::UnknownMethod.is_protocol_violation());
    assert!(DecodeError::UnexpectedFrame.is_protocol_violation());
    assert!(!DecodeError::InvalidUtf8.is_protocol_violation());
    assert!(!DecodeError::SizeMismatch.is_protocol_violation());
}

#[test]
fn events_that_the_state_does_not_allow() {
    let mut negotiation = Negotiation::new(&parameters());
    assert_eq!(negotiation.step(Event::Sent), Action::Fail(FlowError::UnexpectedEvent));
    assert_eq!(negotiation.step(Event::OpenChannel), Action::Fail(FlowError::UnexpectedEvent));
    assert_eq!(negotiation.step(Event::Close), Action::Fail(FlowError::UnexpectedEvent));
    assert_eq!(negotiation.state, ConnectionState::Disconnected);
    let mut negotiation = opened();
    assert_eq!(negotiation.step(Event::Connect), Action::Fail(FlowError::UnexpectedEvent));
    assert_eq!(negotiation.state, ConnectionState::Disconnected);
}

#[test]
fn channel_is_opened_after_the_connection() {
    let mut negotiation = opened();
    let action = negotiation.step(Event::OpenChannel);
    assert_eq!(action, Action::Send(encode_frame(&channel::Open::new(1)).unwrap()));
    assert_eq!(negotiation.state, ConnectionState::AwaitingChannelOpenOk);
    assert_eq!(negotiation.channel_id, 1);
    assert_eq!(negotiation.step(Event::Sent), Action::Receive);
    let open_ok = method_frame(1, 20, 11, &[0, 0, 0, 0]);
    assert_eq!(negotiation.step(Event::Received(open_ok)), Action::Ready);
    assert_eq!(negotiation.state, ConnectionState::ChannelReady);
    let action = negotiation.step(Event::OpenChannel);
    assert_eq!(action, Action::Send(encode_frame(&channel::Open::new(2)).unwrap()));
    assert_eq!(negotiation.channel_id, 2);
    let open_ok = method_frame(2, 20, 11, &[0, 0, 0, 0]);
    assert_eq!(negotiation.step(Event::Received(open_ok)), Action::Ready);
    assert_eq!(negotiation.state, ConnectionState::ChannelReady);
}

#[test]
fn connection_is_closed_by_either_side() {
    let mut negotiation = opened();
    let action = negotiation.step(Event::Close);
    let close = connection::Close::new(REPLY_SUCCESS, "", 0, 0);
    assert_eq!(action, Action::Send(encode_frame(&close).unwrap()));
    assert_eq!(negotiation.state, ConnectionState::AwaitingCloseOk);
    assert_eq!(negotiation.step(Event::Sent), Action::Receive);
    assert_eq!(negotiation.step(Event::Received(method_frame(0, 10, 51, &[]))), Action::Ready);
    assert_eq!(negotiation.state, ConnectionState::Closed);
    assert_eq!(negotiation.step(Event::Sent), Action::Ready);

    let mut negotiation = opened();
    let from_broker = encode_frame(&connection::Close::new(320, "shutdown", 0, 0)).unwrap();
    let action = negotiation.step(Event::Received(from_broker));
    assert_eq!(action, Action::Send(method_frame(0, 10, 51, &[])));
    assert_eq!(negotiation.state, ConnectionState::Closed);
}

#[test]
fn channel_ids_rise_and_run_out() {
    let mut channels = ChannelAllocator::new();
    assert_eq!(channels.allocate(), Some(1));
    assert_eq!(channels.allocate(), Some(2));
    assert_eq!(channels.allocate(), Some(3));
    let mut last = 3;
    while let Some(id) = channels.allocate() {
        assert!(id > last);
        last = id;
    }
    assert_eq!(last, u16::MAX);
    assert_eq!(channels.allocate(), None);
    assert_eq!(channels.allocate(), None);
    let mut other = ChannelAllocator::new();
    assert_eq!(other.allocate(), Some(1));
}

#[test]
fn connection_parameters_builder() {
    let builder = ConnectionParametersBuilder::builder();
    assert_eq!(builder.port, 5672);
    assert_eq!(builder.virtual_host, "/");
    assert_eq!(builder.mechanism, Mechanism::Plain);
    assert!(!builder.is_complete());
    let builder = builder.host("broker").username("u").password("p");
    assert!(builder.is_complete());
    let parameters = builder.port(5673).virtual_host("vh").build();
    assert_eq!(parameters.host, "broker");
    assert_eq!(parameters.port, 5673);
    assert_eq!(parameters.username, "u");
    assert_eq!(parameters.password, "p");
    assert_eq!(parameters.virtual_host, "vh");
    assert_eq!(parameters.mechanism, Mechanism::Plain);
    assert_eq!(
        encode_frame_static(&connection::ProtocolHeader::new()).unwrap().len(),
        8
    );
}
