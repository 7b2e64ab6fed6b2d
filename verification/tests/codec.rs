use byteflow::communication::decode::Decoder;
use byteflow::encde::bits::{decode_bits, encode_bits, Bits};
use byteflow::encde::integers::{
    decode_bool, decode_u16, decode_u32, decode_u64, decode_u8, put_bytes, put_u16, put_u32,
    put_u64, put_u8,
};
use byteflow::encde::long_string::{decode_long_string, encode_long_string, LongString};
use byteflow::encde::raw_bytes::{decode_raw_bytes, encode_raw_bytes, RawBytes};
use byteflow::encde::short_string::{decode_short_string, encode_short_string, ShortString};
use byteflow::encde::table::{decode_table, Field, Table, MAX_TABLE_DEPTH};
use byteflow::encde::{Decode, Encode};
use byteflow::errors::{DecodeError, EncodeError};

fn nested_table() -> Table {
    let sub_table = Table(vec![("def".into(), Field::SS(ShortString("def".into())))]);
    Table(vec![("abc".into(), Field::T(sub_table))])
}

#[test]
fn endec_test_table() {
    let original = nested_table();
    let encoded = original.encode().unwrap();
    let (_, _): (Table, usize) = Table::decode(&encoded, 0).unwrap();
}

#[test]
fn table_test_table() {
    let original = nested_table();
    let encoded = original.to_bytes().unwrap();
    let (decoded, consumed): (Table, usize) = Table::decode(&encoded, 0).unwrap();
    assert_eq!(decoded, original);
    assert_eq!(consumed, encoded.len());
}

#[test]
fn integers_are_written_big_endian() {
    let mut buf = Vec::new();
    put_u8(&mut buf, 0xab);
    put_u16(&mut buf, 0x1234);
    put_u32(&mut buf, 0x0102_0304);
    put_u64(&mut buf, 0x1122_3344_5566_7788);
    put_bytes(&mut buf, vec![0xfe, 0xff]);
    assert_eq!(
        buf,
        vec![
            0xab, 0x12, 0x34, 0x01, 0x02, 0x03, 0x04, 0x11, 0x22, 0x33, 0x44, 0x55, 0x66, 0x77,
            0x88, 0xfe, 0xff
        ]
    );
}

#[test]
fn integers_are_read_big_endian() {
    let buf = [0xab, 0x12, 0x34, 0x01, 0x02, 0x03, 0x04, 0x11, 0x22, 0x33, 0x44, 0x55, 0x66, 0x77, 0x88];
    assert_eq!(decode_u8(&buf, 0), Ok((0xab, 1)));
    assert_eq!(decode_u16(&buf, 1), Ok((0x1234, 3)));
    assert_eq!(decode_u32(&buf, 3), Ok((0x0102_0304, 7)));
    assert_eq!(decode_u64(&buf, 7), Ok((0x1122_3344_5566_7788, 15)));
    assert_eq!(decode_bool(&buf, 0), Ok((true, 1)));
    assert_eq!(decode_bool(&[0u8], 0), Ok((false, 1)));
}

#[test]
fn integers_cut_short_are_truncated() {
    let buf = [1u8, 2, 3];
    assert_eq!(decode_u8(&buf, 3), Err(DecodeError::Truncated));
    assert_eq!(decode_u16(&buf, 2), Err(DecodeError::Truncated));
    assert_eq!(decode_u32(&buf, 0), Err(DecodeError::Truncated));
    assert_eq!(decode_u64(&buf, 0), Err(DecodeError::Truncated));
    assert_eq!(decode_u16(&buf, 100), Err(DecodeError::Truncated));
    assert_eq!(decode_bool(&buf, 3), Err(DecodeError::Truncated));
}

#[test]
fn integer_round_trip_at_the_extremes() {
    for v in [0u16, 1, 255, 256, u16::MAX] {
        let mut buf = vec![9u8];
        put_u16(&mut buf, v);
        assert_eq!(decode_u16(&buf, 1), Ok((v, 3)));
    }
    for v in [0u32, 1, 0xffff, 0x1_0000, u32::MAX] {
        let mut buf = Vec::new();
        put_u32(&mut buf, v);
        assert_eq!(decode_u32(&buf, 0), Ok((v, 4)));
    }
    for v in [0u64, 1, 0xffff_ffff, 0x1_0000_0000, u64::MAX] {
        let mut buf = Vec::new();
        put_u64(&mut buf, v);
        assert_eq!(decode_u64(&buf, 0), Ok((v, 8)));
    }
}

#[test]
fn short_string_hello() {
    let encoded = encode_short_string("hello").unwrap();
    assert_eq!(encoded, vec![0x05, b'h', b'e', b'l', b'l', b'o']);
    let (decoded, next) = decode_short_string(&encoded, 0).unwrap();
    assert_eq!(decoded, ShortString("hello".to_string()));
    assert_eq!(next, 6);
}

#[test]
fn short_string_of_255_bytes_fits_and_256_does_not() {
    let fits = "a".repeat(255);
    let encoded = encode_short_string(&fits).unwrap();
    assert_eq!(encoded.len(), 256);
    assert_eq!(encoded[0], 255);
    assert_eq!(decode_short_string(&encoded, 0).unwrap().0 .0, fits);
    let too_long = "a".repeat(256);
    assert_eq!(encode_short_string(&too_long), Err(EncodeError::ShortStringTooLong));
    assert_eq!(ShortString(too_long).encode(), Err(EncodeError::ShortStringTooLong));
}

#[test]
fn short_string_counts_bytes_not_characters() {
    let encoded = encode_short_string("né").unwrap();
    assert_eq!(encoded, vec![3, b'n', 0xc3, 0xa9]);
    let (decoded, next) = decode_short_string(&encoded, 0).unwrap();
    assert_eq!(decoded.0, "né");
    assert_eq!(next, 4);
}

#[test]
fn short_string_that_is_not_utf8_is_refused() {
    assert_eq!(decode_short_string(&[2, 0xff, 0xfe], 0), Err(DecodeError::InvalidUtf8));
    assert_eq!(decode_short_string(&[1, 0xc3], 0), Err(DecodeError::InvalidUtf8));
}

#[test]
fn short_string_cut_short_is_refused() {
    assert_eq!(decode_short_string(&[5, b'h', b'e'], 0), Err(DecodeError::InvalidUtf8));
    assert_eq!(decode_short_string(&[], 0), Err(DecodeError::InvalidUtf8));
    assert_eq!(decode_short_string(&[1, b'a'], 2), Err(DecodeError::InvalidUtf8));
}

#[test]
fn short_string_is_read_at_an_offset() {
    let buf = [0xaa, 0xbb, 2, b'o', b'k', 0xcc];
    let (decoded, next) = ShortString::decode(&buf, 2).unwrap();
    assert_eq!(decoded.0, "ok");
    assert_eq!(next, 5);
}

#[test]
fn long_string_round_trip() {
    let encoded = encode_long_string("hello").unwrap();
    assert_eq!(encoded, vec![0, 0, 0, 5, b'h', b'e', b'l', b'l', b'o']);
    let (decoded, next) = decode_long_string(&encoded, 0).unwrap();
    assert_eq!(decoded, LongString("hello".to_string()));
    assert_eq!(next, 9);
    let long = "x".repeat(70_000);
    let encoded = LongString(long.clone()).encode().unwrap();
    assert_eq!(&encoded[..4], &[0, 1, 0x11, 0x70]);
    assert_eq!(LongString::decode(&encoded, 0).unwrap().0 .0, long);
}

#[test]
fn long_string_errors() {
    assert_eq!(decode_long_string(&[0, 0, 0], 0), Err(DecodeError::InvalidUtf8));
    assert_eq!(decode_long_string(&[0, 0, 0, 2, b'a'], 0), Err(DecodeError::InvalidUtf8));
    assert_eq!(decode_long_string(&[0, 0, 0, 1, 0x80], 0), Err(DecodeError::InvalidUtf8));
}

#[test]
fn empty_strings_round_trip() {
    assert_eq!(encode_short_string("").unwrap(), vec![0]);
    assert_eq!(decode_short_string(&[0], 0).unwrap().0 .0, "");
    assert_eq!(encode_long_string("").unwrap(), vec![0, 0, 0, 0]);
    assert_eq!(decode_long_string(&[0, 0, 0, 0], 0).unwrap().0 .0, "");
}

#[test]
fn bits_are_packed_lowest_first() {
    assert_eq!(encode_bits(&[true]), Ok(0b0000_0001));
    assert_eq!(encode_bits(&[false, true]), Ok(0b0000_0010));
    assert_eq!(encode_bits(&[true, false, true, true, false]), Ok(0b0000_1101));
    assert_eq!(encode_bits(&[false, false, false, false, false, false, false, true]), Ok(0x80));
    assert_eq!(encode_bits(&[]), Ok(0));
    assert_eq!(encode_bits(&[true; 8]), Ok(0xff));
}

#[test]
fn more_than_eight_bits_are_refused() {
    assert_eq!(encode_bits(&[false; 9]), Err(EncodeError::TooManyBits));
    assert_eq!(Bits(vec![true; 9]).encode(), Err(EncodeError::TooManyBits));
}

#[test]
fn decoding_bits_always_gives_eight() {
    assert_eq!(decode_bits(0).0, vec![false; 8]);
    assert_eq!(
        decode_bits(0b0000_0101).0,
        vec![true, false, true, false, false, false, false, false]
    );
    assert_eq!(decode_bits(0xff).0, vec![true; 8]);
    let (bits, next) = Bits::decode(&[0x80], 0).unwrap();
    assert_eq!(bits.0, vec![false, false, false, false, false, false, false, true]);
    assert_eq!(next, 1);
    assert_eq!(Bits::decode(&[], 0), Err(DecodeError::Truncated));
}

#[test]
fn bits_round_trip_pads_to_eight() {
    let flags = vec![true, false, true];
    let byte = encode_bits(&flags).unwrap();
    let decoded = decode_bits(byte);
    assert_eq!(&decoded.0[..3], &flags[..]);
    assert_eq!(&decoded.0[3..], &[false; 5]);
    let eight = vec![true, true, false, false, true, false, true, false];
    assert_eq!(decode_bits(encode_bits(&eight).unwrap()).0, eight);
}

#[test]
fn bits_from_tuples() {
    assert_eq!(Bits::from((true,)).0, vec![true]);
    assert_eq!(Bits::from((true, false)).0, vec![true, false]);
    assert_eq!(Bits::from((false, true, true)).0, vec![false, true, true]);
    assert_eq!(Bits::from((true, true, false, true)).0, vec![true, true, false, true]);
    assert_eq!(
        Bits::from((true, false, false, false, true)).0,
        vec![true, false, false, false, true]
    );
    assert_eq!(Bits::default().0, Vec::<bool>::new());
}

#[test]
fn raw_bytes_pass_through() {
    assert_eq!(encode_raw_bytes(&[1, 2, 0xce, 3]), vec![1, 2, 0xce, 3]);
    let (raw, next) = decode_raw_bytes(&[9, 1, 2, 3, 9], 1, 3).unwrap();
    assert_eq!(raw, RawBytes(vec![1, 2, 3]));
    assert_eq!(next, 4);
    assert_eq!(decode_raw_bytes(&[1, 2], 1, 2), Err(DecodeError::Truncated));
    let (rest, next) = RawBytes::decode(&[1, 2, 3], 1).unwrap();
    assert_eq!(rest.0, vec![2, 3]);
    assert_eq!(next, 3);
    assert_eq!(RawBytes::decode(&[1], 2), Err(DecodeError::Truncated));
}

#[test]
fn table_bytes_are_exact() {
    let table = Table(vec![
        ("b".to_string(), Field::Bool(true)),
        ("s".to_string(), Field::SS(ShortString("hi".to_string()))),
        ("l".to_string(), Field::LS(LongString("yo".to_string()))),
    ]);
    let encoded = table.to_bytes().unwrap();
    assert_eq!(
        encoded,
        vec![
            0, 0, 0, 19, // length of the entries
            1, b'b', b't', 1, // b = true
            1, b's', b's', 2, b'h', b'i', // s = "hi"
            1, b'l', b'S', 0, 0, 0, 2, b'y', b'o', // l = "yo"
        ]
    );
    let (decoded, next) = Table::decode(&encoded, 0).unwrap();
    assert_eq!(decoded, table);
    assert_eq!(next, 23);
}

#[test]
fn empty_table_round_trip() {
    let table = Table::default();
    assert_eq!(table.0.len(), 0);
    let encoded = table.encode().unwrap();
    assert_eq!(encoded, vec![0, 0, 0, 0]);
    assert_eq!(Table::decode(&encoded, 0).unwrap(), (Table(vec![]), 4));
}

#[test]
fn table_in_table_in_table() {
    let innermost = Table(vec![("k".to_string(), Field::Bool(false))]);
    let middle = Table(vec![("in".to_string(), Field::T(innermost.clone()))]);
    let outer = Table(vec![
        ("mid".to_string(), Field::T(middle.clone())),
        ("after".to_string(), Field::SS(ShortString("x".to_string()))),
    ]);
    let innermost_bytes = innermost.to_bytes().unwrap();
    let middle_bytes = middle.to_bytes().unwrap();
    let outer_bytes = outer.to_bytes().unwrap();
    assert_eq!(innermost_bytes, vec![0, 0, 0, 4, 1, b'k', b't', 0]);
    // key "in" (3), tag (1), nested table
    assert_eq!(middle_bytes.len(), 4 + 3 + 1 + innermost_bytes.len());
    assert_eq!(&middle_bytes[..4], &[0, 0, 0, 12]);
    // key "mid" (4), tag (1), nested table, then "after" (6), tag (1), "x" (2)
    let outer_entries = 4 + 1 + middle_bytes.len() + 6 + 1 + 2;
    assert_eq!(outer_bytes.len(), 4 + outer_entries);
    assert_eq!(decode_u32(&outer_bytes, 0), Ok((outer_entries as u32, 4)));
    assert_eq!(&outer_bytes[9..9 + middle_bytes.len()], &middle_bytes[..]);
    let (decoded, next) = Table::decode(&outer_bytes, 0).unwrap();
    assert_eq!(decoded, outer);
    assert_eq!(next, outer_bytes.len());
}

#[test]
fn table_with_unknown_tag_is_refused() {
    let bytes = [0, 0, 0, 4, 1, b'k', b'x', 0];
    assert_eq!(Table::decode(&bytes, 0), Err(DecodeError::UnknownFieldType));
}

#[test]
fn table_that_overruns_its_length_is_truncated() {
    // The length says 3, the entry needs 4.
    let bytes = [0, 0, 0, 3, 1, b'k', b't', 1];
    assert_eq!(Table::decode(&bytes, 0), Err(DecodeError::TruncatedTable));
    // The length says 8, the buffer holds 4.
    let bytes = [0, 0, 0, 8, 1, b'k', b't', 1];
    assert_eq!(Table::decode(&bytes, 0), Err(DecodeError::TruncatedTable));
    // No room for the length itself.
    assert_eq!(Table::decode(&[0, 0], 0), Err(DecodeError::TruncatedTable));
    // A key that runs past the end of the table.
    let bytes = [0, 0, 0, 2, 5, b'k'];
    assert_eq!(Table::decode(&bytes, 0), Err(DecodeError::TruncatedTable));
    // A key with no tag after it.
    let bytes = [0, 0, 0, 2, 1, b'k'];
    assert_eq!(Table::decode(&bytes, 0), Err(DecodeError::TruncatedTable));
    // A long string value cut short.
    let bytes = [0, 0, 0, 8, 1, b'k', b'S', 0, 0, 0, 9, b'a'];
    assert_eq!(Table::decode(&bytes, 0), Err(DecodeError::TruncatedTable));
}

#[test]
fn table_with_bad_text_is_refused() {
    let bytes = [0, 0, 0, 4, 1, 0xff, b't', 1];
    assert_eq!(Table::decode(&bytes, 0), Err(DecodeError::InvalidUtf8));
    let bytes = [0, 0, 0, 5, 1, b'k', b's', 1, 0xff];
    assert_eq!(Table::decode(&bytes, 0), Err(DecodeError::InvalidUtf8));
}

#[test]
fn table_with_a_key_that_is_too_long_is_refused() {
    let table = Table(vec![("k".repeat(256), Field::Bool(true))]);
    assert_eq!(table.to_bytes(), Err(EncodeError::ShortStringTooLong));
    let table = Table(vec![(
        "k".to_string(),
        Field::T(Table(vec![("v".to_string(), Field::SS(ShortString("s".repeat(300))))])),
    )]);
    assert_eq!(table.encode(), Err(EncodeError::ShortStringTooLong));
}

fn nest(levels: usize) -> Table {
    let mut table = Table(vec![("leaf".to_string(), Field::Bool(true))]);
    for _ in 0..levels {
        table = Table(vec![("t".to_string(), Field::T(table))]);
    }
    table
}

#[test]
fn tables_nested_too_deeply_are_refused() {
    let deepest = nest(MAX_TABLE_DEPTH);
    let bytes = deepest.to_bytes().unwrap();
    assert_eq!(Table::decode(&bytes, 0).unwrap().0, deepest);
    let too_deep = nest(MAX_TABLE_DEPTH + 1);
    let bytes = too_deep.to_bytes().unwrap();
    assert_eq!(Table::decode(&bytes, 0), Err(DecodeError::NestingTooDeep));
    assert_eq!(decode_table(&nest(1).to_bytes().unwrap(), 0, 0), Err(DecodeError::NestingTooDeep));
}

#[test]
fn table_booleans_are_set_unless_zero() {
    let bytes = [0, 0, 0, 4, 1, b'k', b't', 7];
    let (table, _) = Table::decode(&bytes, 0).unwrap();
    assert_eq!(table, Table(vec![("k".to_string(), Field::Bool(true))]));
}

#[test]
fn clones_are_equal() {
    let table = nest(3);
    assert_eq!(table.clone(), table);
    let field = Field::T(nest(2));
    assert_eq!(field.clone(), field);
    let s = ShortString("s".to_string());
    assert_eq!(s.clone(), s);
    let l = LongString("l".to_string());
    assert_eq!(l.clone(), l);
    let r = RawBytes(vec![1, 2]);
    assert_eq!(r.clone(), r);
    let b = Bits(vec![true]);
    assert_eq!(b.clone(), b);
    assert_eq!(ShortString::from("abc").0, "abc");
    assert_eq!(LongString::from("abc").0, "abc");
}

#[test]
fn cursor_reads_values_in_turn() {
    let mut bytes = vec![7u8];
    put_u16(&mut bytes, 60);
    put_u16(&mut bytes, 40);
    put_u32(&mut bytes, 99);
    put_u64(&mut bytes, 1 << 40);
    bytes.extend(encode_short_string("key").unwrap());
    bytes.extend(encode_long_string("value").unwrap());
    bytes.push(1);
    bytes.push(0xce);
    let mut decoder = Decoder::new(&bytes);
    assert_eq!(decoder.get_current_offset(), 0);
    assert_eq!(decoder.take_u8(), Ok(7));
    assert_eq!(decoder.take_class_type(), Ok(byteflow::encde::ClassID::Basic));
    assert_eq!(decoder.take_method_type(), Ok(40));
    assert_eq!(decoder.take_u32(), Ok(99));
    assert_eq!(decoder.take_u64(), Ok(1 << 40));
    assert_eq!(decoder.take_short_string(), Ok("key".to_string()));
    assert_eq!(decoder.take_long_string(), Ok("value".to_string()));
    assert_eq!(decoder.take_bool(), Ok(true));
    assert_eq!(decoder.next_frame(), Ok(()));
    assert_eq!(decoder.get_current_offset(), bytes.len());
    assert_eq!(decoder.take_u8(), Err(DecodeError::Truncated));
    assert_eq!(decoder.next_frame(), Err(DecodeError::Truncated));
    assert_eq!(decoder.get_current_offset(), bytes.len());
}

#[test]
fn cursor_stays_where_a_read_fails() {
    let bytes = [0u8, 1, 2];
    let mut decoder = Decoder::new(&bytes);
    decoder.increment_offset_by(1);
    assert_eq!(decoder.take_u32(), Err(DecodeError::Truncated));
    assert_eq!(decoder.get_current_offset(), 1);
    assert_eq!(decoder.next_frame(), Err(DecodeError::MissingFrameEnd));
    assert_eq!(decoder.get_current_offset(), 1);
    assert_eq!(decoder.take_u16(), Ok(0x0102));
    assert_eq!(decoder.get_current_offset(), 3);
}

#[test]
fn cursor_takes_bytes_up_to_the_terminator() {
    let bytes = [1u8, 2, 3, 0xce, 4, 0xce];
    let mut decoder = Decoder::new(&bytes);
    assert_eq!(decoder.take_till_frame_end(), vec![1, 2, 3]);
    assert_eq!(decoder.get_current_offset(), 0);
    decoder.increment_offset_by(3);
    assert_eq!(decoder.take_till_frame_end(), Vec::<u8>::new());
    decoder.increment_offset_by(1);
    assert_eq!(decoder.take_till_frame_end(), vec![4]);
    let unterminated = [5u8, 6];
    assert_eq!(Decoder::new(&unterminated).take_till_frame_end(), vec![5, 6]);
}

#[test]
fn cursor_reads_tables_and_fields() {
    let table = nested_table();
    let mut bytes = table.to_bytes().unwrap();
    bytes.extend([b's', 2, b'o', b'k']);
    bytes.extend([b't', 0]);
    let mut decoder = Decoder::new(&bytes);
    assert_eq!(decoder.take_table(), Ok(table));
    assert_eq!(decoder.take_next_value(), Ok(Field::SS(ShortString("ok".to_string()))));
    assert_eq!(decoder.get_field_type(), Ok(b't'));
    assert_eq!(decoder.take_bool(), Ok(false));
    assert_eq!(decoder.take_next_value(), Err(DecodeError::TruncatedTable));
}

#[test]
fn cursor_reads_a_header() {
    let bytes = [1u8, 0, 5, 0, 0, 0, 9, 0xff];
    let mut decoder = Decoder::new(&bytes);
    let header = decoder.take_header().unwrap();
    assert_eq!(header.frame_type, byteflow::encde::header::FrameType::Method);
    assert_eq!(header.channel_id, 5);
    assert_eq!(header.size, 9);
    assert_eq!(decoder.get_current_offset(), 7);
    assert_eq!(decoder.take_header(), Err(DecodeError::Truncated));
}
