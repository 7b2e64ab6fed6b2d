//! Short strings: one length octet, then up to 255 bytes of UTF-8.
use vstd::prelude::*;
use vstd::slice::{slice_subrange, slice_to_vec};
use vstd::std_specs::convert::FromSpecImpl;
use vstd::utf8::{decode_utf8, encode_utf8, valid_utf8};

use crate::encde::{decodes_as, encodes_as, holds_at, Decode, Encode};
use crate::errors::{DecodeError, EncodeError};

verus! {

/// A string that travels with a one-octet length in front.
#[derive(Debug, PartialEq, Eq)]
pub struct ShortString(pub String);

impl Clone for ShortString {
    fn clone(&self) -> (r: Self)
        ensures
            r@ == self@,
    {
        ShortString(self.0.clone())
    }
}

impl<'a> From<&'a str> for ShortString {
    fn from(value: &'a str) -> (r: Self)
        ensures
            r@ == value@,
    {
        ShortString(value.to_owned())
    }
}

impl<'a> FromSpecImpl<&'a str> for ShortString {
    open spec fn obeys_from_spec() -> bool {
        false
    }

    open spec fn from_spec(v: &'a str) -> Self {
        arbitrary()
    }
}

impl View for ShortString {
    type V = Seq<char>;

    open spec fn view(&self) -> Seq<char> {
        self.0@
    }
}

/// The wire form of a short string: the byte length of its UTF-8, then the UTF-8.
pub open spec fn spec_short_string_bytes(s: Seq<char>) -> Seq<u8> {
    seq![encode_utf8(s).len() as u8] + encode_utf8(s)
}

/// Encoding fails exactly on strings of more than 255 bytes.
pub open spec fn spec_encode_short_string(s: Seq<char>) -> Result<Seq<u8>, EncodeError> {
    if encode_utf8(s).len() > 255 {
        Err(EncodeError::ShortStringTooLong)
    } else {
        Ok(spec_short_string_bytes(s))
    }
}

/// The short string that stands in `b` at `pos`. Text that is cut short by the end of
/// `b`, or that is not UTF-8, is `InvalidUtf8`.
pub open spec fn spec_decode_short_string(b: Seq<u8>, pos: int) -> Result<
    (Seq<char>, int),
    DecodeError,
> {
    if pos < 0 || pos >= b.len() {
        Err(DecodeError::InvalidUtf8)
    } else {
        let n = b[pos] as int;
        if pos + 1 + n > b.len() {
            Err(DecodeError::InvalidUtf8)
        } else if !valid_utf8(b.subrange(pos + 1, pos + 1 + n)) {
            Err(DecodeError::InvalidUtf8)
        } else {
            Ok((decode_utf8(b.subrange(pos + 1, pos + 1 + n)), pos + 1 + n))
        }
    }
}

/// `String::from_utf8`: succeeds exactly on valid UTF-8, and the string it gives holds
/// the same bytes.
#[verifier::external_body]
fn string_from_utf8(bytes: Vec<u8>) -> (r: Option<String>)
    ensures
        r is Some <==> valid_utf8(bytes@),
        r matches Some(s) ==> encode_utf8(s@) == bytes@,
{
    String::from_utf8(bytes).ok()
}

/// Reads the text of `n` bytes that stands in `buf` at `start`.
pub(crate) fn decode_text(buf: &[u8], start: usize, n: usize) -> (r: Option<String>)
    requires
        start + n <= buf@.len(),
    ensures
        r is Some <==> valid_utf8(buf@.subrange(start as int, start + n)),
        r matches Some(s) ==> s@ == decode_utf8(buf@.subrange(start as int, start + n)),
{
    let len = buf.len();
    let bytes = slice_to_vec(slice_subrange(buf, start, start + n));
    let r = string_from_utf8(bytes);
    proof {
        if r is Some {
            vstd::utf8::encode_utf8_decode_utf8(r->0@);
        }
    }
    r
}

/// Writes `s` as a short string.
pub fn encode_short_string(s: &str) -> (r: Result<Vec<u8>, EncodeError>)
    ensures
        encodes_as(r, spec_encode_short_string(s@)),
{
    let bytes = s.as_bytes();
    if bytes.len() > 255 {
        return Err(EncodeError::ShortStringTooLong);
    }
    let mut out: Vec<u8> = Vec::new();
    out.push(bytes.len() as u8);
    let mut text = slice_to_vec(bytes);
    out.append(&mut text);
    Ok(out)
}

/// Reads the short string that stands in `buf` at `offset`, and gives the offset after it.
pub fn decode_short_string(buf: &[u8], offset: usize) -> (r: Result<
    (ShortString, usize),
    DecodeError,
>)
    ensures
        decodes_as(r, spec_decode_short_string(buf@, offset as int)),
{
    if offset >= buf.len() {
        return Err(DecodeError::InvalidUtf8);
    }
    let n = buf[offset] as usize;
    if buf.len() - offset - 1 < n {
        return Err(DecodeError::InvalidUtf8);
    }
    match decode_text(buf, offset + 1, n) {
        Some(s) => Ok((ShortString(s), offset + 1 + n)),
        None => Err(DecodeError::InvalidUtf8),
    }
}

impl Encode for ShortString {
    open spec fn spec_encode(&self) -> Result<Seq<u8>, EncodeError> {
        spec_encode_short_string(self@)
    }

    fn encode(&self) -> (r: Result<Vec<u8>, EncodeError>) {
        encode_short_string(self.0.as_str())
    }
}

impl Decode for ShortString {
    open spec fn spec_decode(b: Seq<u8>, pos: int) -> Result<(Seq<char>, int), DecodeError> {
        spec_decode_short_string(b, pos)
    }

    fn decode(buf: &[u8], pos: usize) -> (r: Result<(Self, usize), DecodeError>) {
        decode_short_string(buf, pos)
    }
}

/// A short string that stands at `pos` is read back as it was written.
pub proof fn lemma_short_string_round_trip(s: Seq<char>, b: Seq<u8>, pos: int)
    requires
        encode_utf8(s).len() <= 255,
        holds_at(b, pos, spec_short_string_bytes(s)),
    ensures
        spec_decode_short_string(b, pos) == Ok::<(Seq<char>, int), DecodeError>(
            (s, pos + spec_short_string_bytes(s).len()),
        ),
{
    let e = spec_short_string_bytes(s);
    let text = encode_utf8(s);
    assert(b[pos] == e[0]);
    assert(b.subrange(pos + 1, pos + 1 + text.len()) =~= text) by {
        assert forall|i: int| 0 <= i < text.len() implies b[pos + 1 + i] == text[i] by {
            assert(b.subrange(pos, pos + e.len())[1 + i] == e[1 + i]);
        }
    }
    vstd::utf8::encode_utf8_valid_utf8(s);
    vstd::utf8::encode_utf8_decode_utf8(s);
}

} // verus!
