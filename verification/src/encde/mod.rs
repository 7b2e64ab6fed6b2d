//! The binary type codec: integers, strings, packed bits, tables and the frame envelope.
use vstd::prelude::*;

use vstd::slice::slice_subrange;

use crate::encde::header::{FrameType, Header, HEADER_SIZE};
use crate::encde::integers::{put_bytes, put_u32, spec_u32_at, spec_u32_bytes};
use crate::errors::{DecodeError, EncodeError};

pub mod bits;
pub mod class;
pub mod exchange_type;
pub mod header;
pub mod integers;
pub mod long_string;
pub mod method;
pub mod properties;
pub mod raw_bytes;
pub mod short_string;
pub mod table;

pub use bits::Bits;
pub use class::ClassID;
pub use exchange_type::ExchangeType;
pub use long_string::LongString;
pub use method::{
    BasicMethodID, ChannelMethodID, ConnectionMethodID, ExchangeMethodID, QueueMethodID,
    TransactionMethodId,
};
pub use properties::{Properties, PropertiesBuilder};
pub use raw_bytes::RawBytes;
pub use short_string::ShortString;
pub use table::{Field, Table};

verus! {

/// The octet that closes every frame.
pub const FRAME_END: u8 = 0xCE;

/// A reserved one-octet field: still written, always zero.
pub const RESERVED8: u8 = 0;

/// A reserved two-octet field: still written, always zero.
pub const RESERVED16: u16 = 0;

/// `e` stands in `b` at `pos`.
pub open spec fn holds_at(b: Seq<u8>, pos: int, e: Seq<u8>) -> bool {
    &&& 0 <= pos
    &&& pos + e.len() <= b.len()
    &&& b.subrange(pos, pos + e.len()) == e
}

/// What an encoder returned, held against what the wire format asks for.
pub open spec fn encodes_as(
    r: Result<Vec<u8>, EncodeError>,
    s: Result<Seq<u8>, EncodeError>,
) -> bool {
    match s {
        Ok(b) => r matches Ok(v) && v@ == b,
        Err(e) => r matches Err(e2) && e2 == e,
    }
}

/// What a decoder returned, held against what the wire format asks for: the value by its
/// model, and the position after it.
pub open spec fn decodes_as<T: View>(
    r: Result<(T, usize), DecodeError>,
    s: Result<(T::V, int), DecodeError>,
) -> bool {
    match s {
        Ok((m, n)) => r matches Ok((v, k)) && v@ == m && k as int == n,
        Err(e) => r matches Err(e2) && e2 == e,
    }
}

/// The later of two encodings after the earlier, or the first failure.
pub open spec fn then(
    a: Result<Seq<u8>, EncodeError>,
    b: Result<Seq<u8>, EncodeError>,
) -> Result<Seq<u8>, EncodeError> {
    match a {
        Err(e) => Err(e),
        Ok(x) => match b {
            Err(e) => Err(e),
            Ok(y) => Ok(x + y),
        },
    }
}

/// A value with a wire form.
pub trait Encode {
    /// The bytes of the value on the wire, or why it has none.
    spec fn spec_encode(&self) -> Result<Seq<u8>, EncodeError>;

    /// Writes the value in wire form.
    fn encode(&self) -> (r: Result<Vec<u8>, EncodeError>)
        ensures
            encodes_as(r, self.spec_encode()),
    ;
}

/// A value that can be read back from its wire form.
pub trait Decode: Sized + View {
    /// The value that stands in `b` at `pos`, as a model, with the position after it.
    spec fn spec_decode(b: Seq<u8>, pos: int) -> Result<(Self::V, int), DecodeError>;

    /// Reads the value that stands in `buf` at `pos`.
    fn decode(buf: &[u8], pos: usize) -> (r: Result<(Self, usize), DecodeError>)
        ensures
            decodes_as(r, Self::spec_decode(buf@, pos as int)),
    ;
}

/// A value that begins with a frame header, made into a frame: the size field, octets 3
/// to 6, gives way to the length of what follows the header, and the terminator goes to
/// the end.
pub open spec fn spec_frame_bytes(unframed: Seq<u8>) -> Result<Seq<u8>, EncodeError> {
    if unframed.len() < 7 {
        Err(EncodeError::MissingHeader)
    } else if unframed.len() - 7 > u32::MAX {
        Err(EncodeError::LengthOverflow)
    } else {
        Ok(
            unframed.subrange(0, 3) + spec_u32_bytes((unframed.len() - 7) as u32)
                + unframed.subrange(7, unframed.len() as int) + seq![FRAME_END],
        )
    }
}

/// The frame of a value, or why the value or its frame has no wire form.
pub open spec fn spec_encode_frame(unframed: Result<Seq<u8>, EncodeError>) -> Result<
    Seq<u8>,
    EncodeError,
> {
    match unframed {
        Err(e) => Err(e),
        Ok(bytes) => spec_frame_bytes(bytes),
    }
}

/// How many bytes the frame at the start of `b` takes, terminator included, once its
/// header, its length and its terminator are checked: `Truncated` where the header is
/// not all there, `SizeMismatch` where the declared size runs past the end of `b`,
/// `MissingFrameEnd` where the octet after the payload is not the terminator.
pub open spec fn spec_frame_length(b: Seq<u8>) -> Result<int, DecodeError> {
    match Header::spec_decode(b, 0) {
        Err(e) => Err(e),
        Ok((header, _)) => if header.frame_type == FrameType::Invalid {
            Err(DecodeError::InvalidFrameType)
        } else if 7 + header.size + 1 > b.len() {
            Err(DecodeError::SizeMismatch)
        } else if b[7 + header.size] != FRAME_END {
            Err(DecodeError::MissingFrameEnd)
        } else {
            Ok(7 + header.size + 1)
        },
    }
}

/// The value that the frame at the start of `b` holds: the frame is checked first, then
/// header and payload, without the terminator, are read as the value. What the value does
/// not take up of the payload is left unread.
#[verifier::opaque]
pub open spec fn spec_decode_frame<D: Decode>(b: Seq<u8>) -> Result<D::V, DecodeError> {
    match spec_frame_length(b) {
        Err(e) => Err(e),
        Ok(n) => match D::spec_decode(b.subrange(0, n - 1), 0) {
            Err(e) => Err(e),
            Ok((v, _)) => Ok(v),
        },
    }
}

/// Writes `val` as a frame: the value is written first, then its size field is set to
/// the length of the payload, and the terminator is added.
pub fn encode_frame<E: Encode>(val: &E) -> (r: Result<Vec<u8>, EncodeError>)
    ensures
        encodes_as(r, spec_encode_frame(val.spec_encode())),
        r matches Ok(frame) ==> frame@.len() >= 8 && spec_u32_at(frame@, 3) == frame@.len() - 8
            && frame@[frame@.len() - 1] == FRAME_END,
{
    let bytes = val.encode()?;
    if bytes.len() < HEADER_SIZE {
        return Err(EncodeError::MissingHeader);
    }
    let payload_len = bytes.len() - HEADER_SIZE;
    if payload_len > u32::MAX as usize {
        return Err(EncodeError::LengthOverflow);
    }
    let mut frame: Vec<u8> = Vec::new();
    frame.push(bytes[0]);
    frame.push(bytes[1]);
    frame.push(bytes[2]);
    assert(frame@ =~= bytes@.subrange(0, 3));
    put_u32(&mut frame, payload_len as u32);
    let payload = slice_subrange(bytes.as_slice(), HEADER_SIZE, bytes.len());
    put_bytes(&mut frame, vstd::slice::slice_to_vec(payload));
    frame.push(FRAME_END);
    proof {
        assert(frame@ =~= spec_frame_bytes(bytes@)->Ok_0);
        lemma_frame_size(bytes@);
    }
    Ok(frame)
}

/// Writes `val` as it is, with no size to set and no terminator: the form of the protocol
/// header.
pub fn encode_frame_static<E: Encode>(val: &E) -> (r: Result<Vec<u8>, EncodeError>)
    ensures
        encodes_as(r, val.spec_encode()),
{
    val.encode()
}

/// Checks the frame at the start of `src` and gives its length, terminator included.
pub fn frame_length(src: &[u8]) -> (r: Result<usize, DecodeError>)
    ensures
        match spec_frame_length(src@) {
            Ok(n) => r matches Ok(k) && k as int == n && 8 <= k <= src@.len(),
            Err(e) => r matches Err(e2) && e2 == e,
        },
{
    let (header, _) = Header::decode(src, 0)?;
    if header.frame_type == FrameType::Invalid {
        return Err(DecodeError::InvalidFrameType);
    }
    let size = header.size as usize;
    if src.len() - HEADER_SIZE <= size {
        return Err(DecodeError::SizeMismatch);
    }
    if src[HEADER_SIZE + size] != FRAME_END {
        return Err(DecodeError::MissingFrameEnd);
    }
    Ok(HEADER_SIZE + size + 1)
}

/// Reads the frame at the start of `src` as a `D`. Bytes after the frame's terminator
/// belong to later frames and are not looked at.
pub fn decode_frame<D: Decode>(src: &[u8]) -> (r: Result<D, DecodeError>)
    ensures
        match spec_decode_frame::<D>(src@) {
            Ok(m) => r matches Ok(v) && v@ == m,
            Err(e) => r matches Err(e2) && e2 == e,
        },
{
    reveal(spec_decode_frame);
    let n = frame_length(src)?;
    let (v, _) = D::decode(slice_subrange(src, 0, n - 1), 0)?;
    Ok(v)
}

/// In every frame the size field holds the exact length of the payload, which stands
/// between the seven octets of the header and the terminator.
pub proof fn lemma_frame_size(unframed: Seq<u8>)
    requires
        spec_frame_bytes(unframed) is Ok,
    ensures
        ({
            let frame = spec_frame_bytes(unframed)->Ok_0;
            &&& frame.len() == unframed.len() + 1
            &&& spec_u32_at(frame, 3) == frame.len() - 8
            &&& frame.subrange(7, frame.len() - 1) == unframed.subrange(7, unframed.len() as int)
            &&& frame.subrange(0, 3) == unframed.subrange(0, 3)
            &&& frame[frame.len() - 1] == FRAME_END
        }),
{
    let frame = spec_frame_bytes(unframed)->Ok_0;
    let size = (unframed.len() - 7) as u32;
    assert(frame.subrange(3, 7) =~= spec_u32_bytes(size));
    crate::encde::integers::lemma_u32_round_trip(size, frame, 3);
    assert(frame.subrange(7, frame.len() - 1) =~= unframed.subrange(7, unframed.len() as int));
    assert(frame.subrange(0, 3) =~= unframed.subrange(0, 3));
}

/// A frame on its own is found whole by its length, and its header gives the frame type
/// and the channel of the value that was framed, and the length of the payload. Without
/// its terminator, the frame holds behind a header of its own the payload as it was.
pub proof fn lemma_frame_found(unframed: Seq<u8>)
    requires
        spec_frame_bytes(unframed) is Ok,
        FrameType::spec_from_octet(unframed[0]) != FrameType::Invalid,
    ensures
        ({
            let frame = spec_frame_bytes(unframed)->Ok_0;
            let window = frame.subrange(0, frame.len() - 1);
            let header = Header {
                frame_type: FrameType::spec_from_octet(unframed[0]),
                channel_id: crate::encde::integers::spec_u16_at(unframed, 1),
                size: (unframed.len() - 7) as u32,
            };
            &&& frame[0] == unframed[0]
            &&& spec_frame_length(frame) == Ok::<int, DecodeError>(frame.len() as int)
            &&& Header::spec_decode(window, 0) == Ok::<(Header, int), DecodeError>((header, 7))
            &&& window.subrange(7, window.len() as int) == unframed.subrange(
                7,
                unframed.len() as int,
            )
        }),
{
    let frame = spec_frame_bytes(unframed)->Ok_0;
    let window = frame.subrange(0, frame.len() - 1);
    lemma_frame_size(unframed);
    assert(frame[0] == frame.subrange(0, 3)[0]);
    assert(frame[1] == frame.subrange(0, 3)[1]);
    assert(frame[2] == frame.subrange(0, 3)[2]);
    assert(window[0] == frame[0] && window[1] == frame[1] && window[2] == frame[2] && window[3]
        == frame[3] && window[4] == frame[4] && window[5] == frame[5] && window[6] == frame[6]);
    assert(window.subrange(7, window.len() as int) =~= frame.subrange(7, frame.len() - 1));
}

/// What reading a frame as a value amounts to.
pub proof fn lemma_decode_frame<D: Decode>(b: Seq<u8>)
    ensures
        spec_decode_frame::<D>(b) == (match spec_frame_length(b) {
            Err(e) => Err(e),
            Ok(n) => match D::spec_decode(b.subrange(0, n - 1), 0) {
                Err(e) => Err(e),
                Ok((v, _)) => Ok(v),
            },
        }),
{
    reveal(spec_decode_frame);
}

} // verus!
