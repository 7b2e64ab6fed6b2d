use byteflow::assembly::{
    acknowledge, body_frames, heartbeat_frame, publish_frames, reply_frames, Assembled,
    Assembler, AssemblyState, FrameBuffer,
};
use byteflow::encde::raw_bytes::RawBytes;
use byteflow::encde::{encode_frame, frame_length};
use byteflow::errors::{DecodeError, EncodeError};
use byteflow::frame::{basic, body, content, queue};
use byteflow::{
    AdditionalInfo, Message, Properties, QueueDefinition, QueueDefinitionBuilder,
};

fn deliver_frame(channel: u16, delivery_tag: u64, routing_key: &str) -> Vec<u8> {
    let mut unframed = vec![1u8];
    unframed.extend_from_slice(&channel.to_be_bytes());
    unframed.extend_from_slice(&[0, 0, 0, 0]);
    unframed.extend_from_slice(&[0, 60, 0, 60]);
    unframed.extend_from_slice(&[3, b'a', b'b', b'c']);
    unframed.extend_from_slice(&delivery_tag.to_be_bytes());
    unframed.push(0);
    unframed.push(0);
    unframed.push(routing_key.len() as u8);
    unframed.extend_from_slice(routing_key.as_bytes());
    encode_frame(&RawBytes(unframed)).unwrap()
}

fn split(bytes: &[u8]) -> Vec<Vec<u8>> {
    let mut buffer = FrameBuffer::new();
    buffer.push(bytes);
    let mut frames = Vec::new();
    while let Some(frame) = buffer.next_frame().unwrap() {
        frames.push(frame);
    }
    assert!(buffer.bytes.is_empty());
    frames
}

#[test]
fn publish_is_three_frames() {
    let properties = Properties::builder().content_type("text/plain".to_string()).build();
    let bytes = publish_frames(4, "ex", "key", true, false, properties.clone(), b"payload", 0).unwrap();
    let frames = split(&bytes);
    assert_eq!(frames.len(), 3);
    assert_eq!(frames[0], encode_frame(&basic::Publish::new(4, "ex", "key", true, false)).unwrap());
    assert_eq!(frames[1], encode_frame(&content::Content::new(4, 7, properties)).unwrap());
    assert_eq!(
        frames[2],
        encode_frame(&body::Body::new(4, RawBytes(b"payload".to_vec()))).unwrap()
    );
    assert_eq!(frames.concat(), bytes);
}

#[test]
fn publish_that_cannot_be_written_is_refused() {
    let too_long = "k".repeat(256);
    assert_eq!(
        publish_frames(1, "", &too_long, false, false, Properties::default(), b"", 0),
        Err(EncodeError::ShortStringTooLong)
    );
    let properties = Properties::builder().app_id(too_long).build();
    assert_eq!(
        publish_frames(1, "", "q", false, false, properties, b"", 0),
        Err(EncodeError::ShortStringTooLong)
    );
}

#[test]
fn publish_then_deliver_gives_the_message_back() {
    let bytes = publish_frames(1, "", "q", false, false, Properties::default(), b"hi", 0).unwrap();
    let frames = split(&bytes);
    assert_eq!(frames.len(), 3);
    let mut assembler = Assembler::new();
    assert_eq!(assembler.accept(&deliver_frame(1, 7, "q")), Ok(Assembled::Pending));
    assert_eq!(assembler.accept(&frames[1]), Ok(Assembled::Pending));
    match assembler.accept(&frames[2]) {
        Ok(Assembled::Message(message)) => {
            assert_eq!(message.bytes, b"hi".to_vec());
            assert_eq!(message.properties, Properties::default());
            assert_eq!(message.additional_info.delivery_tag, 7);
        },
        other => panic!("{:?}", other),
    }
    assert_eq!(assembler.state, AssemblyState::Idle);
}

#[test]
fn body_may_come_in_several_frames() {
    let properties = Properties::builder().priority(9).build();
    let mut assembler = Assembler::new();
    assert_eq!(assembler.accept(&deliver_frame(2, 99, "q")), Ok(Assembled::Pending));
    let header = encode_frame(&content::Content::new(2, 10, properties.clone())).unwrap();
    assert_eq!(assembler.accept(&header), Ok(Assembled::Pending));
    let first = encode_frame(&body::Body::new(2, RawBytes(b"0123".to_vec()))).unwrap();
    let second = encode_frame(&body::Body::new(2, RawBytes(b"45".to_vec()))).unwrap();
    let third = encode_frame(&body::Body::new(2, RawBytes(b"6789".to_vec()))).unwrap();
    assert_eq!(assembler.accept(&first), Ok(Assembled::Pending));
    assert_eq!(assembler.accept(&second), Ok(Assembled::Pending));
    let expected = Message::new(b"0123456789".to_vec(), properties, AdditionalInfo::new(99));
    assert_eq!(assembler.accept(&third), Ok(Assembled::Message(expected)));
    assert_eq!(assembler.state, AssemblyState::Idle);
}

#[test]
fn long_body_goes_out_in_frames_of_the_agreed_length() {
    let body = b"0123456789";
    // Frames of twelve bytes leave room for four bytes of body each.
    let frames = split(&body_frames(5, body, 12).unwrap());
    assert_eq!(
        frames,
        vec![
            encode_frame(&body::Body::new(5, RawBytes(b"0123".to_vec()))).unwrap(),
            encode_frame(&body::Body::new(5, RawBytes(b"4567".to_vec()))).unwrap(),
            encode_frame(&body::Body::new(5, RawBytes(b"89".to_vec()))).unwrap(),
        ]
    );
    assert!(frames.iter().all(|frame| frame.len() <= 12));
    // A body that fills its frames exactly.
    let frames = split(&body_frames(5, b"01234567", 12).unwrap());
    assert_eq!(frames.len(), 2);
    assert_eq!(frames[1], encode_frame(&body::Body::new(5, RawBytes(b"4567".to_vec()))).unwrap());
    // No limit, or a limit that leaves no room: one frame.
    for frame_max in [0, 1, 8] {
        let frames = split(&body_frames(5, body, frame_max).unwrap());
        assert_eq!(frames, vec![encode_frame(&body::Body::new(5, RawBytes(body.to_vec()))).unwrap()]);
    }
    // A body with no bytes still goes out as one frame.
    assert_eq!(body_frames(5, b"", 12).unwrap(), vec![3, 0, 5, 0, 0, 0, 0, 0xCE]);
}

#[test]
fn long_body_comes_back_whole() {
    let body: Vec<u8> = (0..=255u8).cycle().take(1000).collect();
    let properties = Properties::builder().message_id("m".to_string()).build();
    let bytes = publish_frames(1, "", "q", false, false, properties.clone(), &body, 64).unwrap();
    let frames = split(&bytes);
    assert_eq!(frames.len(), 2 + 18);
    let mut assembler = Assembler::new();
    assert_eq!(assembler.accept(&deliver_frame(1, 11, "q")), Ok(Assembled::Pending));
    for frame in &frames[1..frames.len() - 1] {
        assert_eq!(assembler.accept(frame), Ok(Assembled::Pending));
    }
    let expected = Message::new(body, properties, AdditionalInfo::new(11));
    assert_eq!(assembler.accept(&frames[frames.len() - 1]), Ok(Assembled::Message(expected)));
}

#[test]
fn heartbeat_may_come_at_any_time() {
    let mut assembler = Assembler::new();
    assert_eq!(assembler.accept(&heartbeat_frame()), Ok(Assembled::Heartbeat { answer: heartbeat_frame() }));
    assert_eq!(assembler.state, AssemblyState::Idle);
    assert_eq!(assembler.accept(&deliver_frame(1, 5, "q")), Ok(Assembled::Pending));
    assert_eq!(assembler.accept(&heartbeat_frame()), Ok(Assembled::Heartbeat { answer: heartbeat_frame() }));
    assert_eq!(assembler.state, AssemblyState::AwaitingHeader { delivery_tag: 5 });
    let header = encode_frame(&content::Content::new(1, 2, Properties::default())).unwrap();
    assert_eq!(assembler.accept(&header), Ok(Assembled::Pending));
    assert_eq!(assembler.accept(&heartbeat_frame()), Ok(Assembled::Heartbeat { answer: heartbeat_frame() }));
    let body = encode_frame(&body::Body::new(1, RawBytes(b"ok".to_vec()))).unwrap();
    match assembler.accept(&body) {
        Ok(Assembled::Message(message)) => assert_eq!(message.bytes, b"ok".to_vec()),
        other => panic!("{:?}", other),
    }
}

#[test]
fn message_with_no_body_is_complete_at_the_header() {
    let mut assembler = Assembler::new();
    assembler.accept(&deliver_frame(1, 3, "q")).unwrap();
    let header = encode_frame(&content::Content::new(1, 0, Properties::default())).unwrap();
    let expected = Message::new(Vec::new(), Properties::default(), AdditionalInfo::new(3));
    assert_eq!(assembler.accept(&header), Ok(Assembled::Message(expected)));
}

#[test]
fn frames_out_of_turn_end_the_delivery() {
    let header = encode_frame(&content::Content::new(1, 2, Properties::default())).unwrap();
    let body = encode_frame(&body::Body::new(1, RawBytes(b"abc".to_vec()))).unwrap();
    let mut assembler = Assembler::new();
    assert_eq!(assembler.accept(&header), Err(DecodeError::UnexpectedFrame));
    assert_eq!(assembler.accept(&body), Err(DecodeError::UnexpectedFrame));
    assembler.accept(&deliver_frame(1, 3, "q")).unwrap();
    assert_eq!(assembler.accept(&body), Err(DecodeError::UnexpectedFrame));
    assert_eq!(assembler.state, AssemblyState::Idle);
    // A body that overruns the size that the header gave.
    assembler.accept(&deliver_frame(1, 3, "q")).unwrap();
    assembler.accept(&header).unwrap();
    assert_eq!(assembler.accept(&body), Err(DecodeError::SizeMismatch));
    assert_eq!(assembler.state, AssemblyState::Idle);
    // A frame without its terminator.
    let mut broken = deliver_frame(1, 3, "q");
    let last = broken.len() - 1;
    broken[last] = 0;
    assert_eq!(assembler.accept(&broken), Err(DecodeError::MissingFrameEnd));
    // Another method where a delivery is due.
    let publish = encode_frame(&basic::Publish::new(1, "", "q", false, false)).unwrap();
    assert_eq!(assembler.accept(&publish), Err(DecodeError::UnexpectedMethod));
}

#[test]
fn frames_are_cut_by_their_declared_length() {
    let first = encode_frame(&body::Body::new(1, RawBytes(vec![0xCE, 0xCE, 1, 2]))).unwrap();
    let second = heartbeat_frame();
    let mut stream = first.clone();
    stream.extend_from_slice(&second);
    let mut buffer = FrameBuffer::new();
    assert_eq!(buffer.next_frame(), Ok(None));
    buffer.push(&stream[..3]);
    assert_eq!(buffer.next_frame(), Ok(None));
    buffer.push(&stream[3..9]);
    assert_eq!(buffer.next_frame(), Ok(None));
    assert_eq!(buffer.bytes, stream[..9].to_vec());
    buffer.push(&stream[9..14]);
    assert_eq!(buffer.next_frame(), Ok(Some(first)));
    assert_eq!(buffer.bytes, stream[12..14].to_vec());
    assert_eq!(buffer.next_frame(), Ok(None));
    buffer.push(&stream[14..]);
    assert_eq!(buffer.next_frame(), Ok(Some(second)));
    assert_eq!(buffer.next_frame(), Ok(None));
    assert!(buffer.bytes.is_empty());
}

#[test]
fn buffer_with_a_broken_frame_says_so_and_keeps_it() {
    let mut buffer = FrameBuffer::new();
    buffer.push(&[3, 0, 1, 0, 0, 0, 1, 9, 0x00, 7]);
    assert_eq!(buffer.next_frame(), Err(DecodeError::MissingFrameEnd));
    assert_eq!(buffer.bytes.len(), 10);
    let mut buffer = FrameBuffer::new();
    buffer.push(&[6, 0, 1, 0, 0, 0, 0, 0xCE]);
    assert_eq!(buffer.next_frame(), Err(DecodeError::InvalidFrameType));
    assert_eq!(frame_length(&buffer.bytes), Err(DecodeError::InvalidFrameType));
}

#[test]
fn delivery_is_acknowledged_by_its_tag() {
    let message = Message::new(vec![1], Properties::default(), AdditionalInfo::new(0x0a0b));
    assert_eq!(
        acknowledge(&message).unwrap(),
        vec![1, 0, 1, 0, 0, 0, 13, 0, 60, 0, 80, 0, 0, 0, 0, 0, 0, 0x0a, 0x0b, 0, 0xCE]
    );
    assert_eq!(acknowledge(&message), encode_frame(&basic::Ack::new(0x0a0b)));
}

#[test]
fn answer_goes_to_the_reply_queue() {
    let asked = Properties::builder().reply_to("answers".to_string()).build();
    let frames = reply_frames(3, &asked, b"pong", 4096).unwrap().unwrap();
    assert_eq!(
        frames,
        publish_frames(3, "", "answers", false, false, Properties::default(), b"pong", 4096)
            .unwrap()
    );
    assert_eq!(reply_frames(3, &Properties::default(), b"pong", 4096), Ok(None));
    let asked = Properties::builder().reply_to("r".repeat(256)).build();
    assert_eq!(reply_frames(3, &asked, b"pong", 4096), Err(EncodeError::ShortStringTooLong));
}

#[test]
fn queue_definition_builder() {
    let builder: QueueDefinitionBuilder = QueueDefinition::builder();
    assert_eq!(builder.queue_name, None);
    let definition = builder.build();
    assert_eq!(definition, QueueDefinition::new(String::new(), false, false, false, false, false));
    let definition = QueueDefinition::builder()
        .queue_name("jobs".to_string())
        .passive(true)
        .durable(true)
        .auto_delete(false)
        .exclusive(true)
        .no_wait(true)
        .build();
    assert_eq!(
        definition,
        QueueDefinition::new("jobs".to_string(), true, true, false, true, true)
    );
    let definition = QueueDefinition::builder().auto_delete(true).build();
    assert!(definition.auto_delete);
    assert!(!definition.exclusive);
    let definition = QueueDefinition::new("jobs".to_string(), false, true, true, false, true);
    assert_eq!(
        queue::Declare::from_definition(6, &definition),
        queue::Declare::new(6, "jobs", false, true, false, true, true)
    );
}
