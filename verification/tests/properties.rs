use byteflow::encde::properties::{Properties, PropertiesBuilder};
use byteflow::encde::short_string::ShortString;
use byteflow::encde::table::{Field, Table};
use byteflow::encde::{Decode, Encode};
use byteflow::errors::{DecodeError, EncodeError};

fn headers() -> Vec<(String, Field)> {
    vec![
        ("trace".to_string(), Field::Bool(true)),
        (
            "origin".to_string(),
            Field::T(Table(vec![("host".to_string(), Field::SS(ShortString("a".to_string())))])),
        ),
    ]
}

fn all_fourteen() -> Properties {
    Properties::builder()
        .content_type("text/plain".to_string())
        .content_encoding("utf-8".to_string())
        .headers(headers())
        .delivery_mode(2)
        .priority(5)
        .correlation_id("corr".to_string())
        .reply_to("answers".to_string())
        .expiration("60000".to_string())
        .message_id("m-1".to_string())
        .timestamp(1_700_000_000)
        .message_type("greeting".to_string())
        .user_id("guest".to_string())
        .app_id("tests".to_string())
        .cluster_id("c".to_string())
        .build()
}

#[test]
fn empty_properties_are_one_zero_word() {
    let properties = Properties::default();
    assert_eq!(properties.flags(), 0);
    let encoded = properties.encode().unwrap();
    assert_eq!(encoded, vec![0, 0]);
    assert_eq!(Properties::decode(&encoded, 0), Ok((Properties::default(), 2)));
    assert_eq!(Properties::builder().build(), Properties::default());
}

#[test]
fn flag_bits_run_from_the_top() {
    assert_eq!(Properties::builder().content_type("a".into()).build().flags(), 0x8000);
    assert_eq!(Properties::builder().content_encoding("a".into()).build().flags(), 0x4000);
    assert_eq!(Properties::builder().headers(vec![]).build().flags(), 0x2000);
    assert_eq!(Properties::builder().delivery_mode(1).build().flags(), 0x1000);
    assert_eq!(Properties::builder().priority(1).build().flags(), 0x0800);
    assert_eq!(Properties::builder().correlation_id("a".into()).build().flags(), 0x0400);
    assert_eq!(Properties::builder().reply_to("a".into()).build().flags(), 0x0200);
    assert_eq!(Properties::builder().expiration("a".into()).build().flags(), 0x0100);
    assert_eq!(Properties::builder().message_id("a".into()).build().flags(), 0x0080);
    assert_eq!(Properties::builder().timestamp(1).build().flags(), 0x0040);
    assert_eq!(Properties::builder().message_type("a".into()).build().flags(), 0x0020);
    assert_eq!(Properties::builder().user_id("a".into()).build().flags(), 0x0010);
    assert_eq!(Properties::builder().app_id("a".into()).build().flags(), 0x0008);
    assert_eq!(Properties::builder().cluster_id("a".into()).build().flags(), 0x0004);
    assert_eq!(all_fourteen().flags(), 0xfffc);
}

#[test]
fn present_fields_are_written_in_declared_order_and_absent_ones_skipped() {
    let properties = Properties::builder()
        .reply_to("q".to_string())
        .delivery_mode(2)
        .timestamp(0x0102_0304_0506_0708)
        .content_type("t".to_string())
        .build();
    let encoded = properties.encode().unwrap();
    assert_eq!(
        encoded,
        vec![
            0x92, 0x40, // content type, delivery mode, reply-to, timestamp
            1, b't', // content type
            2, // delivery mode
            1, b'q', // reply-to
            1, 2, 3, 4, 5, 6, 7, 8, // timestamp
        ]
    );
    assert_eq!(Properties::decode(&encoded, 0), Ok((properties, 15)));
}

#[test]
fn all_fourteen_fields_round_trip() {
    let properties = all_fourteen();
    let encoded = properties.encode().unwrap();
    assert_eq!(&encoded[..2], &[0xff, 0xfc]);
    let (decoded, next) = Properties::decode(&encoded, 0).unwrap();
    assert_eq!(decoded, properties);
    assert_eq!(next, encoded.len());
    assert_eq!(decoded.clone(), properties);
}

#[test]
fn all_fourteen_fields_are_read_across_a_continued_flag_word() {
    let properties = all_fourteen();
    let encoded = properties.encode().unwrap();
    // The same fields behind a flag word that announces a further word, which is empty.
    let mut continued = vec![0xff, 0xfd, 0x00, 0x00];
    continued.extend_from_slice(&encoded[2..]);
    let (decoded, next) = Properties::decode(&continued, 0).unwrap();
    assert_eq!(decoded, properties);
    assert_eq!(next, continued.len());
    // Bits of the further word are no field of ours and change nothing.
    let mut continued = vec![0xff, 0xfd, 0xab, 0xcc];
    continued.extend_from_slice(&encoded[2..]);
    assert_eq!(Properties::decode(&continued, 0), Ok((properties, continued.len())));
}

#[test]
fn flag_words_may_continue_three_times_and_no_more() {
    let four_words = [0x00, 0x01, 0x00, 0x01, 0x00, 0x01, 0x00, 0x00];
    assert_eq!(Properties::decode(&four_words, 0), Ok((Properties::default(), 8)));
    let five_words = [0x00, 0x01, 0x00, 0x01, 0x00, 0x01, 0x00, 0x01, 0x00, 0x00];
    assert_eq!(Properties::decode(&five_words, 0), Err(DecodeError::TooManyFlagWords));
    let cut_short = [0x00, 0x01, 0x00];
    assert_eq!(Properties::decode(&cut_short, 0), Err(DecodeError::Truncated));
}

#[test]
fn properties_cut_short_are_refused() {
    assert_eq!(Properties::decode(&[0x80], 0), Err(DecodeError::Truncated));
    assert_eq!(Properties::decode(&[0x80, 0x00], 0), Err(DecodeError::InvalidUtf8));
    assert_eq!(Properties::decode(&[0x80, 0x00, 3, b'a'], 0), Err(DecodeError::InvalidUtf8));
    assert_eq!(Properties::decode(&[0x10, 0x00], 0), Err(DecodeError::Truncated));
    assert_eq!(Properties::decode(&[0x00, 0x40, 1, 2], 0), Err(DecodeError::Truncated));
    assert_eq!(Properties::decode(&[0x20, 0x00, 0, 0], 0), Err(DecodeError::TruncatedTable));
}

#[test]
fn properties_with_a_field_that_is_too_long_are_refused() {
    let properties = Properties::builder().message_id("m".repeat(256)).build();
    assert_eq!(properties.encode(), Err(EncodeError::ShortStringTooLong));
    let properties = Properties::builder()
        .headers(vec![("k".repeat(256), Field::Bool(true))])
        .build();
    assert_eq!(properties.encode(), Err(EncodeError::ShortStringTooLong));
}

#[test]
fn builder_sets_one_field_at_a_time() {
    let builder: PropertiesBuilder = Properties::builder();
    let builder = builder.priority(3);
    assert_eq!(builder.priority, Some(3));
    assert_eq!(builder.delivery_mode, None);
    let builder = builder.headers(headers());
    assert_eq!(builder.headers, Some(Table(headers())));
    let properties = builder.build();
    assert_eq!(properties.priority, Some(3));
    assert_eq!(properties.headers, Some(Table(headers())));
    assert_eq!(properties.content_type, None);
}
