use byteflow::encde::header::{FrameType, Header, HEADER_SIZE};
use byteflow::encde::integers::decode_u32;
use byteflow::encde::method::{
    BasicMethodID, ChannelMethodID, ConnectionMethodID, ExchangeMethodID, QueueMethodID,
    TransactionMethodId,
};
use byteflow::encde::raw_bytes::RawBytes;
use byteflow::encde::short_string::ShortString;
use byteflow::encde::table::Table;
use byteflow::encde::{
    decode_frame, encode_frame, encode_frame_static, frame_length, ClassID, Decode, Encode,
    ExchangeType, FRAME_END, RESERVED16, RESERVED8,
};
use byteflow::errors::{DecodeError, EncodeError};
use byteflow::frame::{basic, body, channel, connection, content, exchange, queue, transaction};
use byteflow::Properties;

fn method_frame(channel: u16, class: u16, method: u16, arguments: &[u8]) -> Vec<u8> {
    let mut unframed = vec![1u8];
    unframed.extend_from_slice(&channel.to_be_bytes());
    unframed.extend_from_slice(&[0, 0, 0, 0]);
    unframed.extend_from_slice(&class.to_be_bytes());
    unframed.extend_from_slice(&method.to_be_bytes());
    unframed.extend_from_slice(arguments);
    encode_frame(&RawBytes(unframed)).unwrap()
}

#[test]
fn constants_of_the_wire() {
    assert_eq!(FRAME_END, 0xCE);
    assert_eq!(RESERVED8, 0);
    assert_eq!(RESERVED16, 0);
    assert_eq!(HEADER_SIZE, 7);
}

#[test]
fn frame_type_octets() {
    assert_eq!(FrameType::Method.octet(), Some(1));
    assert_eq!(FrameType::Header.octet(), Some(2));
    assert_eq!(FrameType::Body.octet(), Some(3));
    assert_eq!(FrameType::Heartbeat.octet(), Some(8));
    assert_eq!(FrameType::Invalid.octet(), None);
    assert_eq!(FrameType::from_octet(1), FrameType::Method);
    assert_eq!(FrameType::from_octet(2), FrameType::Header);
    assert_eq!(FrameType::from_octet(3), FrameType::Body);
    assert_eq!(FrameType::from_octet(8), FrameType::Heartbeat);
    assert_eq!(FrameType::from_octet(4), FrameType::Invalid);
    assert_eq!(FrameType::from_octet(0), FrameType::Invalid);
    assert_eq!(FrameType::Heartbeat.encode(), Ok(vec![8]));
    assert_eq!(FrameType::Invalid.encode(), Err(EncodeError::InvalidFrameType));
}

#[test]
fn class_ids() {
    let all = [
        (ClassID::Connection, 10),
        (ClassID::Channel, 20),
        (ClassID::Exchange, 40),
        (ClassID::Queue, 50),
        (ClassID::Basic, 60),
        (ClassID::Transaction, 90),
    ];
    for (class, id) in all {
        assert_eq!(class.id(), id);
        assert_eq!(ClassID::from_id(id), Some(class));
        assert_eq!(class.encode(), Ok(id.to_be_bytes().to_vec()));
        assert_eq!(ClassID::decode(&id.to_be_bytes(), 0), Ok((class, 2)));
    }
    assert_eq!(ClassID::from_id(30), None);
    assert_eq!(ClassID::decode(&[0, 30], 0), Err(DecodeError::UnknownClass));
    assert_eq!(ClassID::decode(&[0], 0), Err(DecodeError::Truncated));
}

#[test]
fn method_ids() {
    assert_eq!(ConnectionMethodID::Start.id(), 10);
    assert_eq!(ConnectionMethodID::StartOk.id(), 11);
    assert_eq!(ConnectionMethodID::Secure.id(), 20);
    assert_eq!(ConnectionMethodID::SecureOk.id(), 21);
    assert_eq!(ConnectionMethodID::Tune.id(), 30);
    assert_eq!(ConnectionMethodID::TuneOk.id(), 31);
    assert_eq!(ConnectionMethodID::Open.id(), 40);
    assert_eq!(ConnectionMethodID::OpenOk.id(), 41);
    assert_eq!(ConnectionMethodID::Close.id(), 50);
    assert_eq!(ConnectionMethodID::CloseOk.id(), 51);
    assert_eq!(ChannelMethodID::Open.id(), 10);
    assert_eq!(ChannelMethodID::OpenOk.id(), 11);
    assert_eq!(ChannelMethodID::Flow.id(), 20);
    assert_eq!(ChannelMethodID::FlowOk.id(), 21);
    assert_eq!(ChannelMethodID::Close.id(), 40);
    assert_eq!(ChannelMethodID::CloseOk.id(), 41);
    assert_eq!(ExchangeMethodID::Declare.id(), 10);
    assert_eq!(ExchangeMethodID::Bind.id(), 30);
    assert_eq!(ExchangeMethodID::BindOk.id(), 31);
    assert_eq!(ExchangeMethodID::from_id(31), Some(ExchangeMethodID::BindOk));
    assert_eq!(ExchangeMethodID::UnbindOk.id(), 41);
    assert_eq!(QueueMethodID::Declare.id(), 10);
    assert_eq!(QueueMethodID::Purge.id(), 30);
    assert_eq!(QueueMethodID::UnbindOk.id(), 51);
    assert_eq!(BasicMethodID::QualityOfService.id(), 10);
    assert_eq!(BasicMethodID::Publish.id(), 40);
    assert_eq!(BasicMethodID::Return.id(), 50);
    assert_eq!(BasicMethodID::Deliver.id(), 60);
    assert_eq!(BasicMethodID::GetEmpty.id(), 72);
    assert_eq!(BasicMethodID::Ack.id(), 80);
    assert_eq!(BasicMethodID::Reject.id(), 90);
    assert_eq!(BasicMethodID::Recover.id(), 110);
    assert_eq!(BasicMethodID::RecoverOk.id(), 111);
    assert_eq!(TransactionMethodId::Select.id(), 10);
    assert_eq!(TransactionMethodId::RollbackOk.id(), 31);
    for id in 0..200u16 {
        if let Some(method) = BasicMethodID::from_id(id) {
            assert_eq!(method.id(), id);
            assert_eq!(BasicMethodID::decode(&id.to_be_bytes(), 0), Ok((method, 2)));
            assert_eq!(method.encode(), Ok(id.to_be_bytes().to_vec()));
        } else {
            assert_eq!(
                BasicMethodID::decode(&id.to_be_bytes(), 0),
                Err(DecodeError::UnknownMethod)
            );
        }
    }
    assert_eq!(ConnectionMethodID::from_id(12), None);
    assert_eq!(ChannelMethodID::decode(&[0, 30], 0), Err(DecodeError::UnknownMethod));
    assert_eq!(QueueMethodID::decode(&[0, 20], 0), Ok((QueueMethodID::Bind, 2)));
    assert_eq!(TransactionMethodId::decode(&[0, 20], 0), Ok((TransactionMethodId::Commit, 2)));
}

#[test]
fn header_round_trip() {
    let header = Header { frame_type: FrameType::Body, channel_id: 0x0102, size: 0x0a0b0c0d };
    let encoded = header.encode().unwrap();
    assert_eq!(encoded, vec![3, 1, 2, 0x0a, 0x0b, 0x0c, 0x0d]);
    assert_eq!(Header::decode(&encoded, 0), Ok((header, 7)));
    assert_eq!(Header::decode(&encoded[..6], 0), Err(DecodeError::Truncated));
    let invalid = Header { frame_type: FrameType::Invalid, channel_id: 0, size: 0 };
    assert_eq!(invalid.encode(), Err(EncodeError::InvalidFrameType));
    assert_eq!(Header::decode(&[4, 0, 0, 0, 0, 0, 0], 0).unwrap().0.frame_type, FrameType::Invalid);
}

#[test]
fn protocol_header_bytes() {
    let header = connection::ProtocolHeader::new();
    assert_eq!(encode_frame_static(&header), Ok(b"AMQP\x00\x00\x09\x01".to_vec()));
}

#[test]
fn heartbeat_is_octet_eight() {
    let heartbeat = Header { frame_type: FrameType::Heartbeat, channel_id: 0, size: 0 };
    assert_eq!(encode_frame(&heartbeat), Ok(vec![8, 0, 0, 0, 0, 0, 0, 0xCE]));
    assert_eq!(byteflow::assembly::heartbeat_frame(), vec![8, 0, 0, 0, 0, 0, 0, 0xCE]);
    assert_eq!(frame_length(&[8, 0, 0, 0, 0, 0, 0, 0xCE]), Ok(8));
    assert_eq!(frame_length(&[4, 0, 0, 0, 0, 0, 0, 0xCE]), Err(DecodeError::InvalidFrameType));
}

#[test]
fn publish_frame_bytes_are_exact() {
    let publish = basic::Publish::new(1, "", "q", true, false);
    let frame = encode_frame(&publish).unwrap();
    assert_eq!(
        frame,
        vec![
            1, 0, 1, // method frame on channel 1
            0, 0, 0, 10, // size of the payload
            0, 60, 0, 40, // basic.publish
            0, 0, // reserved
            0, // exchange ""
            1, b'q', // routing key "q"
            0b01, // mandatory, not immediate
            0xCE,
        ]
    );
}

#[test]
fn size_field_is_the_length_of_the_payload() {
    let frames = vec![
        encode_frame(&basic::Publish::new(7, "exchange", "some.routing.key", false, true)).unwrap(),
        encode_frame(&connection::StartOk::new("PLAIN", "\0guest\0guest", "en_US")).unwrap(),
        encode_frame(&body::Body::new(3, RawBytes(vec![0xCE; 1000]))).unwrap(),
        encode_frame(&content::Content::new(3, 1000, Properties::default())).unwrap(),
        encode_frame(&transaction::Commit::new(9)).unwrap(),
    ];
    for frame in frames {
        let (size, _) = decode_u32(&frame, 3).unwrap();
        assert_eq!(size as usize, frame.len() - 8);
        assert_eq!(frame[frame.len() - 1], 0xCE);
        assert_eq!(frame_length(&frame), Ok(frame.len()));
    }
}

#[test]
fn frame_that_ends_in_zero_is_refused() {
    let mut frame = encode_frame(&connection::TuneOk::new(10, 4096, 60)).unwrap();
    assert!(decode_frame::<connection::Tune>(&frame).is_err());
    let last = frame.len() - 1;
    frame[last] = 0x00;
    assert_eq!(frame_length(&frame), Err(DecodeError::MissingFrameEnd));
    assert_eq!(
        decode_frame::<connection::CloseOk>(&frame),
        Err(DecodeError::MissingFrameEnd)
    );
    let frame = [1u8, 0, 0, 0, 0, 0, 4, 0, 10, 0, 51, 0x00];
    assert_eq!(decode_frame::<connection::CloseOk>(&frame), Err(DecodeError::MissingFrameEnd));
    let frame = [1u8, 0, 0, 0, 0, 0, 4, 0, 10, 0, 51, 0xCE];
    assert!(decode_frame::<connection::CloseOk>(&frame).is_ok());
}

#[test]
fn frame_errors() {
    // The header is not all there.
    assert_eq!(frame_length(&[1, 0, 0, 0]), Err(DecodeError::Truncated));
    // The declared size runs past the end.
    assert_eq!(frame_length(&[1, 0, 0, 0, 0, 0, 4, 0, 10, 0xCE]), Err(DecodeError::SizeMismatch));
    assert_eq!(frame_length(&[1, 0, 0, 0, 0, 0, 0]), Err(DecodeError::SizeMismatch));
    // The type octet is none of the four.
    assert_eq!(
        decode_frame::<connection::Tune>(&[5, 0, 0, 0, 0, 0, 0, 0xCE]),
        Err(DecodeError::InvalidFrameType)
    );
    // A value that is no frame cannot be framed.
    assert_eq!(encode_frame(&ShortString("abc".to_string())), Err(EncodeError::MissingHeader));
    assert_eq!(
        encode_frame(&basic::Publish::new(1, &"e".repeat(256), "", false, false)),
        Err(EncodeError::ShortStringTooLong)
    );
}

#[test]
fn bytes_after_the_terminator_are_left_alone() {
    let mut bytes = method_frame(0, 10, 30, &[0, 10, 0, 0, 16, 0, 0, 60]);
    let first = bytes.len();
    bytes.extend_from_slice(&[8, 0, 0, 0, 0, 0, 0, 0xCE]);
    assert_eq!(frame_length(&bytes), Ok(first));
    let tune: connection::Tune = decode_frame(&bytes).unwrap();
    assert_eq!((tune.channel_max, tune.frame_max, tune.heartbeat), (10, 4096, 60));
}

#[test]
fn tune_is_read_and_answered() {
    let bytes = method_frame(0, 10, 30, &[0x07, 0xff, 0x00, 0x02, 0x00, 0x00, 0x00, 0x3c]);
    let tune: connection::Tune = decode_frame(&bytes).unwrap();
    assert_eq!(tune.channel_max, 2047);
    assert_eq!(tune.frame_max, 131072);
    assert_eq!(tune.heartbeat, 60);
    assert_eq!(tune.frame_info.header.size, 12);
    let answer = connection::TuneOk::new(tune.channel_max, tune.frame_max, tune.heartbeat);
    assert_eq!(
        encode_frame(&answer).unwrap(),
        vec![1, 0, 0, 0, 0, 0, 12, 0, 10, 0, 31, 0x07, 0xff, 0x00, 0x02, 0x00, 0x00, 0x00, 0x3c, 0xCE]
    );
}

#[test]
fn method_that_was_not_expected_is_refused() {
    let tune = method_frame(0, 10, 30, &[0, 0, 0, 0, 0, 0, 0, 0]);
    assert_eq!(decode_frame::<connection::OpenOk>(&tune), Err(DecodeError::UnexpectedMethod));
    assert_eq!(decode_frame::<channel::OpenOk>(&tune), Err(DecodeError::UnexpectedMethod));
    assert_eq!(decode_frame::<content::Content>(&tune), Err(DecodeError::UnexpectedFrame));
    assert_eq!(decode_frame::<body::Body>(&tune), Err(DecodeError::UnexpectedFrame));
    let unknown_class = method_frame(0, 11, 30, &[]);
    assert_eq!(decode_frame::<connection::Tune>(&unknown_class), Err(DecodeError::UnknownClass));
    let unknown_method = method_frame(0, 10, 99, &[]);
    assert_eq!(decode_frame::<connection::Tune>(&unknown_method), Err(DecodeError::UnknownMethod));
    let body = encode_frame(&body::Body::new(1, RawBytes(vec![1, 2, 3, 4]))).unwrap();
    assert_eq!(decode_frame::<connection::Tune>(&body), Err(DecodeError::UnexpectedFrame));
    let short = method_frame(0, 10, 30, &[0, 0]);
    assert_eq!(decode_frame::<connection::Tune>(&short), Err(DecodeError::Truncated));
}

#[test]
fn start_is_read() {
    let mut arguments = vec![0u8, 9];
    arguments.extend(Table(vec![]).to_bytes().unwrap());
    arguments.extend([0, 0, 0, 14]);
    arguments.extend(b"PLAIN AMQPLAIN");
    arguments.extend([0, 0, 0, 5]);
    arguments.extend(b"en_US");
    let start: connection::Start = decode_frame(&method_frame(0, 10, 10, &arguments)).unwrap();
    assert_eq!(start.version_major, 0);
    assert_eq!(start.version_minor, 9);
    assert_eq!(start.server_properties, Table(vec![]));
    assert_eq!(start.mechanisms.0, "PLAIN AMQPLAIN");
    assert_eq!(start.locales.0, "en_US");
}

#[test]
fn start_ok_carries_the_client_properties() {
    let start_ok = connection::StartOk::new("PLAIN", "\0guest\0guest", "en_US");
    assert_eq!(start_ok.mechanism.0, "PLAIN");
    assert_eq!(start_ok.response.0, "\0guest\0guest");
    assert_eq!(start_ok.locale.0, "en_US");
    let keys: Vec<&str> = start_ok.client_properties.0.iter().map(|(k, _)| k.as_str()).collect();
    assert_eq!(keys, vec!["product", "platform", "capabilities", "information", "version"]);
    let frame = encode_frame(&start_ok).unwrap();
    assert_eq!(&frame[..3], &[1, 0, 0]);
    assert_eq!(&frame[7..11], &[0, 10, 0, 11]);
    let (table, next) = Table::decode(&frame, 11).unwrap();
    assert_eq!(table, start_ok.client_properties);
    assert_eq!(&frame[next..next + 6], &[5, b'P', b'L', b'A', b'I', b'N']);
    assert_eq!(&frame[frame.len() - 7..], &[5, b'e', b'n', b'_', b'U', b'S', 0xCE]);
}

#[test]
fn connection_frames() {
    assert_eq!(
        encode_frame(&connection::Open::new("/")).unwrap(),
        vec![1, 0, 0, 0, 0, 0, 8, 0, 10, 0, 40, 1, b'/', 0, 0, 0xCE]
    );
    assert_eq!(
        encode_frame(&connection::Close::new(200, "ok", 60, 40)).unwrap(),
        vec![1, 0, 0, 0, 0, 0, 13, 0, 10, 0, 50, 0, 200, 2, b'o', b'k', 0, 60, 0, 40, 0xCE]
    );
    let open_ok: connection::OpenOk = decode_frame(&method_frame(0, 10, 41, &[0])).unwrap();
    assert_eq!(open_ok.reserved_1.0, "");
    let close: connection::Close =
        decode_frame(&encode_frame(&connection::Close::new(320, "bye", 0, 0)).unwrap()).unwrap();
    assert_eq!(close.reply_code, 320);
    assert_eq!(close.reply_text.0, "bye");
    let secure: connection::Secure =
        decode_frame(&method_frame(0, 10, 20, &[0, 0, 0, 1, b'?'])).unwrap();
    assert_eq!(secure.challenge.0, "?");
    assert_eq!(encode_frame(&secure).unwrap(), method_frame(0, 10, 20, &[0, 0, 0, 1, b'?']));
    let secure_ok: connection::SecureOk =
        decode_frame(&method_frame(0, 10, 21, &[0, 0, 0, 1, b'!'])).unwrap();
    assert_eq!(secure_ok.response.0, "!");
    assert!(decode_frame::<connection::CloseOk>(&method_frame(0, 10, 51, &[])).is_ok());
}

#[test]
fn channel_frames() {
    assert_eq!(
        encode_frame(&channel::Open::new(3)).unwrap(),
        vec![1, 0, 3, 0, 0, 0, 5, 0, 20, 0, 10, 0, 0xCE]
    );
    let open_ok: channel::OpenOk = decode_frame(&method_frame(3, 20, 11, &[0, 0, 0, 0])).unwrap();
    assert_eq!(open_ok.reserved_1, 0);
    assert_eq!(open_ok.frame_info.header.channel_id, 3);
    let flow = channel::Flow {
        frame_info: channel::ChannelFrameInfo::new(3, ChannelMethodID::Flow),
        active: (true,).into(),
    };
    assert_eq!(encode_frame(&flow).unwrap(), method_frame(3, 20, 20, &[1]));
    let close_ok = channel::CloseOk {
        frame_info: channel::ChannelFrameInfo::new(3, ChannelMethodID::CloseOk),
    };
    assert_eq!(encode_frame(&close_ok).unwrap(), method_frame(3, 20, 41, &[]));
}

#[test]
fn queue_frames() {
    let declare = queue::Declare::new(2, "jobs", false, true, false, true, false);
    assert_eq!(
        encode_frame(&declare).unwrap(),
        method_frame(2, 50, 10, &[0, 0, 4, b'j', b'o', b'b', b's', 0b01010, 0, 0, 0, 0])
    );
    let bind = queue::Bind::new("jobs", "ex", "key", true);
    assert_eq!(
        encode_frame(&bind).unwrap(),
        method_frame(
            1,
            50,
            20,
            &[0, 0, 4, b'j', b'o', b'b', b's', 2, b'e', b'x', 3, b'k', b'e', b'y', 1, 0, 0, 0, 0]
        )
    );
    let unbind = queue::Unbind::new("jobs", "ex", "key");
    assert_eq!(
        encode_frame(&unbind).unwrap(),
        method_frame(
            1,
            50,
            50,
            &[0, 0, 4, b'j', b'o', b'b', b's', 2, b'e', b'x', 3, b'k', b'e', b'y', 0, 0, 0, 0]
        )
    );
    let purge = queue::Purge::new("jobs", false);
    assert_eq!(
        encode_frame(&purge).unwrap(),
        method_frame(1, 50, 30, &[0, 0, 4, b'j', b'o', b'b', b's', 0])
    );
    let delete = queue::Delete::new("jobs", true, false, true);
    assert_eq!(
        encode_frame(&delete).unwrap(),
        method_frame(1, 50, 40, &[0, 0, 4, b'j', b'o', b'b', b's', 0b101])
    );
    let declare_ok: queue::DeclareOk =
        decode_frame(&method_frame(2, 50, 11, &[1, b'q', 0, 0, 0, 5, 0, 0, 0, 2])).unwrap();
    assert_eq!(declare_ok.queue_name.0, "q");
    assert_eq!(declare_ok.message_count, 5);
    assert_eq!(declare_ok.consumer_count, 2);
    let purge_ok: queue::PurgeOk = decode_frame(&method_frame(1, 50, 31, &[0, 0, 0, 9])).unwrap();
    assert_eq!(purge_ok.message_count, 9);
    let delete_ok: queue::DeleteOk = decode_frame(&method_frame(1, 50, 41, &[0, 0, 1, 0])).unwrap();
    assert_eq!(delete_ok.message_count, 256);
    assert!(decode_frame::<queue::BindOk>(&method_frame(1, 50, 21, &[])).is_ok());
    assert!(decode_frame::<queue::UnbindOk>(&method_frame(1, 50, 51, &[])).is_ok());
}

#[test]
fn exchange_frames() {
    let declare = exchange::Declare::new("logs".to_string(), ExchangeType::Fanout);
    assert_eq!(
        encode_frame(&declare).unwrap(),
        method_frame(
            1,
            40,
            10,
            &[0, 0, 4, b'l', b'o', b'g', b's', 6, b'f', b'a', b'n', b'o', b'u', b't', 0, 0, 0, 0, 0]
        )
    );
    assert_eq!(ExchangeType::Direct.name(), "direct");
    assert_eq!(ExchangeType::Headers.encode().unwrap()[0], 7);
    assert_eq!(ExchangeType::Topic.encode().unwrap(), vec![5, b't', b'o', b'p', b'i', b'c']);
    let delete = exchange::Delete::new("logs".to_string());
    let frame = encode_frame(&delete).unwrap();
    assert_eq!(frame, method_frame(1, 40, 20, &[0, 0, 4, b'l', b'o', b'g', b's', 0]));
    let read_back: exchange::Delete = decode_frame(&frame).unwrap();
    assert_eq!(read_back.exchange, delete.exchange);
    let bind = exchange::Bind::new("to", "from", "k", false);
    assert_eq!(
        encode_frame(&bind).unwrap(),
        method_frame(
            1,
            40,
            30,
            &[0, 0, 2, b't', b'o', 4, b'f', b'r', b'o', b'm', 1, b'k', 0, 0, 0, 0, 0]
        )
    );
    let unbind = exchange::Unbind::new("to", "from", "k", true);
    assert_eq!(
        encode_frame(&unbind).unwrap(),
        method_frame(
            1,
            40,
            40,
            &[0, 0, 2, b't', b'o', 4, b'f', b'r', b'o', b'm', 1, b'k', 1, 0, 0, 0, 0]
        )
    );
    assert!(decode_frame::<exchange::DeclareOk>(&method_frame(1, 40, 11, &[])).is_ok());
    assert!(decode_frame::<exchange::DeleteOk>(&method_frame(1, 40, 21, &[])).is_ok());
    assert!(decode_frame::<exchange::BindOk>(&method_frame(1, 40, 31, &[])).is_ok());
    assert!(decode_frame::<exchange::UnbindOk>(&method_frame(1, 40, 41, &[])).is_ok());
}

#[test]
fn basic_frames() {
    assert_eq!(
        encode_frame(&basic::QualityOfService::new(1, 0, 10, true)).unwrap(),
        method_frame(1, 60, 10, &[0, 0, 0, 0, 0, 10, 1])
    );
    assert_eq!(
        encode_frame(&basic::Consume::new(1, "q")).unwrap(),
        method_frame(1, 60, 20, &[0, 0, 1, b'q', 3, b'a', b'b', b'c', 0, 0, 0, 0, 0])
    );
    assert_eq!(
        encode_frame(&basic::Cancel::new(1, "abc", true)).unwrap(),
        method_frame(1, 60, 30, &[3, b'a', b'b', b'c', 1])
    );
    assert_eq!(
        encode_frame(&basic::Get::new(4, "q", true)).unwrap(),
        method_frame(4, 60, 70, &[0, 0, 1, b'q', 1])
    );
    assert_eq!(
        encode_frame(&basic::Ack::new(0x0102)).unwrap(),
        method_frame(1, 60, 80, &[0, 0, 0, 0, 0, 0, 1, 2, 0])
    );
    assert_eq!(
        encode_frame(&basic::Reject::new(2, 5, true)).unwrap(),
        method_frame(2, 60, 90, &[0, 0, 0, 0, 0, 0, 0, 5, 1])
    );
    assert_eq!(
        encode_frame(&basic::Recover::new(2, false)).unwrap(),
        method_frame(2, 60, 110, &[0])
    );
    let consume_ok: basic::ConsumeOk =
        decode_frame(&method_frame(1, 60, 21, &[3, b'a', b'b', b'c'])).unwrap();
    assert_eq!(consume_ok.consumer_tag.0, "abc");
    let cancel_ok: basic::CancelOk =
        decode_frame(&method_frame(1, 60, 31, &[1, b'x'])).unwrap();
    assert_eq!(cancel_ok.consumer_tag.0, "x");
    let returned: basic::Return =
        decode_frame(&method_frame(1, 60, 50, &[1, 56, 2, b'n', b'o', 1, b'e', 1, b'k'])).unwrap();
    assert_eq!(returned.reply_code, 312);
    assert_eq!(returned.reply_text.0, "no");
    assert_eq!(returned.exchange_name.0, "e");
    assert_eq!(returned.routing_key.0, "k");
    let deliver: basic::Deliver = decode_frame(&method_frame(
        1,
        60,
        60,
        &[1, b'c', 0, 0, 0, 0, 0, 0, 0, 42, 1, 0, 1, b'q'],
    ))
    .unwrap();
    assert_eq!(deliver.consumer_tag.0, "c");
    assert_eq!(deliver.delivery_tag, 42);
    assert!(deliver.redelivered);
    assert_eq!(deliver.exchange.0, "");
    assert_eq!(deliver.routing.0, "q");
    let get_ok: basic::GetOk = decode_frame(&method_frame(
        1,
        60,
        71,
        &[1, 0, 0, 0, 0, 0, 0, 0, 9, 1, b'e', 1, b'k', 0, 0, 0, 3],
    ))
    .unwrap();
    assert_eq!(get_ok.redelivered.0[0], true);
    assert_eq!(get_ok.delivery_tag, 9);
    assert_eq!(get_ok.message_count, 3);
    let get_empty: basic::GetEmpty = decode_frame(&method_frame(1, 60, 72, &[0, 0])).unwrap();
    assert_eq!(get_empty.reserved_1, 0);
    assert!(decode_frame::<basic::QualityOfServiceOk>(&method_frame(1, 60, 11, &[])).is_ok());
    assert!(decode_frame::<basic::RecoverOk>(&method_frame(1, 60, 111, &[])).is_ok());
}

#[test]
fn transaction_frames() {
    assert_eq!(encode_frame(&transaction::Select::new(5)).unwrap(), method_frame(5, 90, 10, &[]));
    assert_eq!(encode_frame(&transaction::Commit::new(5)).unwrap(), method_frame(5, 90, 20, &[]));
    assert_eq!(encode_frame(&transaction::Rollback::new(5)).unwrap(), method_frame(5, 90, 30, &[]));
    assert!(decode_frame::<transaction::SelectOk>(&method_frame(5, 90, 11, &[])).is_ok());
    assert!(decode_frame::<transaction::CommitOk>(&method_frame(5, 90, 21, &[])).is_ok());
    assert!(decode_frame::<transaction::RollbackOk>(&method_frame(5, 90, 31, &[])).is_ok());
    let info = transaction::TransactionFrameInfo::new(5, TransactionMethodId::Select);
    assert_eq!(info.class_id, ClassID::Transaction);
    assert_eq!(info.header.channel_id, 5);
    assert_eq!(
        transaction::TransactionFrameInfo::decode(&info.encode().unwrap(), 0),
        Ok((info, 11))
    );
}

#[test]
fn content_and_body_round_trip() {
    let properties = Properties::builder().reply_to("r".to_string()).build();
    let header = content::Content::new(2, 5, properties.clone());
    let frame = encode_frame(&header).unwrap();
    assert_eq!(
        frame,
        vec![
            2, 0, 2, 0, 0, 0, 16, // header frame on channel 2
            0, 60, // class basic
            0, 0, // weight
            0, 0, 0, 0, 0, 0, 0, 5, // body size
            0x02, 0x00, // flags: reply-to
            1, b'r', 0xCE,
        ]
    );
    let read_back: content::Content = decode_frame(&frame).unwrap();
    assert_eq!(read_back.size, 5);
    assert_eq!(read_back.properties, properties);
    assert_eq!(read_back.header.size, 16);
    let body = body::Body::new(2, RawBytes(b"hello".to_vec()));
    let frame = encode_frame(&body).unwrap();
    assert_eq!(frame, vec![3, 0, 2, 0, 0, 0, 5, b'h', b'e', b'l', b'l', b'o', 0xCE]);
    let read_back: body::Body = decode_frame(&frame).unwrap();
    assert_eq!(read_back.content.0, b"hello".to_vec());
    assert_eq!(read_back.header.channel_id, 2);
}
