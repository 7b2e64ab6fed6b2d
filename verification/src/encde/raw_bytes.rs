//! Raw byte blobs: message bodies, written as they are.
use vstd::prelude::*;
use vstd::slice::{slice_subrange, slice_to_vec};

use crate::encde::{decodes_as, Decode, Encode};
use crate::errors::{DecodeError, EncodeError};

verus! {

/// Bytes that travel without a length of their own: the frame around them says how many
/// they are.
#[derive(Debug, PartialEq, Eq)]
pub struct RawBytes(pub Vec<u8>);

impl Clone for RawBytes {
    fn clone(&self) -> (r: Self)
        ensures
            r@ == self@,
    {
        RawBytes(self.0.clone())
    }
}

impl View for RawBytes {
    type V = Seq<u8>;

    open spec fn view(&self) -> Seq<u8> {
        self.0@
    }
}

/// The `len` bytes that stand in `b` at `pos`, or `Truncated` where `b` ends before them.
pub open spec fn spec_decode_raw_bytes(b: Seq<u8>, pos: int, len: int) -> Result<
    (Seq<u8>, int),
    DecodeError,
> {
    if 0 <= pos && 0 <= len && pos + len <= b.len() {
        Ok((b.subrange(pos, pos + len), pos + len))
    } else {
        Err(DecodeError::Truncated)
    }
}

/// Writes `bytes` as they are.
pub fn encode_raw_bytes(bytes: &[u8]) -> (r: Vec<u8>)
    ensures
        r@ == bytes@,
{
    slice_to_vec(bytes)
}

/// Reads the `len` bytes that stand in `buf` at `offset`, and gives the offset after them.
pub fn decode_raw_bytes(buf: &[u8], offset: usize, len: usize) -> (r: Result<
    (RawBytes, usize),
    DecodeError,
>)
    ensures
        decodes_as(r, spec_decode_raw_bytes(buf@, offset as int, len as int)),
{
    if offset > buf.len() || buf.len() - offset < len {
        return Err(DecodeError::Truncated);
    }
    let bytes = slice_to_vec(slice_subrange(buf, offset, offset + len));
    Ok((RawBytes(bytes), offset + len))
}

impl Encode for RawBytes {
    open spec fn spec_encode(&self) -> Result<Seq<u8>, EncodeError> {
        Ok(self@)
    }

    fn encode(&self) -> (r: Result<Vec<u8>, EncodeError>) {
        Ok(encode_raw_bytes(self.0.as_slice()))
    }
}

impl Decode for RawBytes {
    /// Everything from `pos` to the end of `b`.
    open spec fn spec_decode(b: Seq<u8>, pos: int) -> Result<(Seq<u8>, int), DecodeError> {
        spec_decode_raw_bytes(b, pos, b.len() - pos)
    }

    fn decode(buf: &[u8], pos: usize) -> (r: Result<(Self, usize), DecodeError>) {
        if pos > buf.len() {
            return Err(DecodeError::Truncated);
        }
        decode_raw_bytes(buf, pos, buf.len() - pos)
    }
}

} // verus!
