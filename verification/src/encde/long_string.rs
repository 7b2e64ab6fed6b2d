//! Long strings: a four-octet length, then that many bytes of UTF-8.
use vstd::prelude::*;
use vstd::slice::slice_to_vec;
use vstd::std_specs::convert::FromSpecImpl;
use vstd::utf8::{decode_utf8, encode_utf8, valid_utf8};

use crate::encde::integers::{
    decode_u32, lemma_holds_at_split, lemma_u32_round_trip, put_u32, spec_u32_at, spec_u32_bytes,
};
use crate::encde::short_string::decode_text;
use crate::encde::{decodes_as, encodes_as, holds_at, Decode, Encode};
use crate::errors::{DecodeError, EncodeError};

verus! {

/// A string that travels with a four-octet length in front.
#[derive(Debug, PartialEq, Eq)]
pub struct LongString(pub String);

impl Clone for LongString {
    fn clone(&self) -> (r: Self)
        ensures
            r@ == self@,
    {
        LongString(self.0.clone())
    }
}

impl<'a> From<&'a str> for LongString {
    fn from(value: &'a str) -> (r: Self)
        ensures
            r@ == value@,
    {
        LongString(value.to_owned())
    }
}

impl<'a> FromSpecImpl<&'a str> for LongString {
    open spec fn obeys_from_spec() -> bool {
        false
    }

    open spec fn from_spec(v: &'a str) -> Self {
        arbitrary()
    }
}

impl View for LongString {
    type V = Seq<char>;

    open spec fn view(&self) -> Seq<char> {
        self.0@
    }
}

/// The wire form of a long string: the byte length of its UTF-8, then the UTF-8.
pub open spec fn spec_long_string_bytes(s: Seq<char>) -> Seq<u8> {
    spec_u32_bytes(encode_utf8(s).len() as u32) + encode_utf8(s)
}

/// Encoding fails exactly on strings whose byte length does not fit in 32 bits.
pub open spec fn spec_encode_long_string(s: Seq<char>) -> Result<Seq<u8>, EncodeError> {
    if encode_utf8(s).len() > u32::MAX {
        Err(EncodeError::LengthOverflow)
    } else {
        Ok(spec_long_string_bytes(s))
    }
}

/// The long string that stands in `b` at `pos`. Text that is cut short by the end of
/// `b`, or that is not UTF-8, is `InvalidUtf8`.
pub open spec fn spec_decode_long_string(b: Seq<u8>, pos: int) -> Result<
    (Seq<char>, int),
    DecodeError,
> {
    if pos < 0 || pos + 4 > b.len() {
        Err(DecodeError::InvalidUtf8)
    } else {
        let n = spec_u32_at(b, pos) as int;
        if pos + 4 + n > b.len() {
            Err(DecodeError::InvalidUtf8)
        } else if !valid_utf8(b.subrange(pos + 4, pos + 4 + n)) {
            Err(DecodeError::InvalidUtf8)
        } else {
            Ok((decode_utf8(b.subrange(pos + 4, pos + 4 + n)), pos + 4 + n))
        }
    }
}

/// Writes `s` as a long string.
pub fn encode_long_string(s: &str) -> (r: Result<Vec<u8>, EncodeError>)
    ensures
        encodes_as(r, spec_encode_long_string(s@)),
{
    let bytes = s.as_bytes();
    if bytes.len() > u32::MAX as usize {
        return Err(EncodeError::LengthOverflow);
    }
    let mut out: Vec<u8> = Vec::new();
    put_u32(&mut out, bytes.len() as u32);
    let mut text = slice_to_vec(bytes);
    out.append(&mut text);
    Ok(out)
}

/// Reads the long string that stands in `buf` at `offset`, and gives the offset after it.
pub fn decode_long_string(buf: &[u8], offset: usize) -> (r: Result<
    (LongString, usize),
    DecodeError,
>)
    ensures
        decodes_as(r, spec_decode_long_string(buf@, offset as int)),
{
    let (n, start) = match decode_u32(buf, offset) {
        Ok((n, start)) => (n as usize, start),
        Err(_) => {
            return Err(DecodeError::InvalidUtf8);
        },
    };
    if buf.len() - start < n {
        return Err(DecodeError::InvalidUtf8);
    }
    match decode_text(buf, start, n) {
        Some(s) => Ok((LongString(s), start + n)),
        None => Err(DecodeError::InvalidUtf8),
    }
}

impl Encode for LongString {
    open spec fn spec_encode(&self) -> Result<Seq<u8>, EncodeError> {
        spec_encode_long_string(self@)
    }

    fn encode(&self) -> (r: Result<Vec<u8>, EncodeError>) {
        encode_long_string(self.0.as_str())
    }
}

impl Decode for LongString {
    open spec fn spec_decode(b: Seq<u8>, pos: int) -> Result<(Seq<char>, int), DecodeError> {
        spec_decode_long_string(b, pos)
    }

    fn decode(buf: &[u8], pos: usize) -> (r: Result<(Self, usize), DecodeError>) {
        decode_long_string(buf, pos)
    }
}

/// A long string that stands at `pos` is read back as it was written.
pub proof fn lemma_long_string_round_trip(s: Seq<char>, b: Seq<u8>, pos: int)
    requires
        encode_utf8(s).len() <= u32::MAX,
        holds_at(b, pos, spec_long_string_bytes(s)),
    ensures
        spec_decode_long_string(b, pos) == Ok::<(Seq<char>, int), DecodeError>(
            (s, pos + spec_long_string_bytes(s).len()),
        ),
{
    let text = encode_utf8(s);
    let n = text.len() as u32;
    lemma_holds_at_split(b, pos, spec_u32_bytes(n), text);
    lemma_u32_round_trip(n, b, pos);
    vstd::utf8::encode_utf8_valid_utf8(s);
    vstd::utf8::encode_utf8_decode_utf8(s);
}

} // verus!
