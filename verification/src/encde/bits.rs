//! Up to eight boolean flags, packed into one octet.
use vstd::prelude::*;
use vstd::std_specs::convert::FromSpecImpl;

use crate::encde::{holds_at, Decode, Encode};
use crate::errors::{DecodeError, EncodeError};

verus! {

/// An ordered list of flags. The first flag is the lowest bit of the octet.
#[derive(Debug, PartialEq, Eq)]
pub struct Bits(pub Vec<bool>);

impl Clone for Bits {
    fn clone(&self) -> (r: Self)
        ensures
            r@ == self@,
    {
        Bits(self.0.clone())
    }
}

impl View for Bits {
    type V = Seq<bool>;

    open spec fn view(&self) -> Seq<bool> {
        self.0@
    }
}

/// One where flag `i` is there and set, zero otherwise.
pub open spec fn spec_bit(flags: Seq<bool>, i: int) -> int {
    if 0 <= i < flags.len() && flags[i] {
        1
    } else {
        0
    }
}

/// The octet that holds the first eight flags, flag `i` as bit `i`.
pub open spec fn spec_pack_bits(flags: Seq<bool>) -> u8 {
    (spec_bit(flags, 0) + 2 * spec_bit(flags, 1) + 4 * spec_bit(flags, 2) + 8 * spec_bit(flags, 3)
        + 16 * spec_bit(flags, 4) + 32 * spec_bit(flags, 5) + 64 * spec_bit(flags, 6) + 128
        * spec_bit(flags, 7)) as u8
}

/// The eight flags that an octet holds, bit `i` as flag `i`.
pub open spec fn spec_unpack_bits(byte: u8) -> Seq<bool> {
    seq![
        byte % 2 == 1,
        (byte / 2) % 2 == 1,
        (byte / 4) % 2 == 1,
        (byte / 8) % 2 == 1,
        (byte / 16) % 2 == 1,
        (byte / 32) % 2 == 1,
        (byte / 64) % 2 == 1,
        (byte / 128) % 2 == 1,
    ]
}

/// The flags, filled up with unset flags to eight.
pub open spec fn spec_pad_bits(flags: Seq<bool>) -> Seq<bool> {
    Seq::new(8, |i: int| 0 <= i < flags.len() && flags[i])
}

/// Encoding fails exactly on more than eight flags.
pub open spec fn spec_encode_bits(flags: Seq<bool>) -> Result<Seq<u8>, EncodeError> {
    if flags.len() > 8 {
        Err(EncodeError::TooManyBits)
    } else {
        Ok(seq![spec_pack_bits(flags)])
    }
}

/// The eight flags of the octet at `pos`, or `Truncated` where `b` has none there.
pub open spec fn spec_decode_bits(b: Seq<u8>, pos: int) -> Result<(Seq<bool>, int), DecodeError> {
    if 0 <= pos && pos + 1 <= b.len() {
        Ok((spec_unpack_bits(b[pos]), pos + 1))
    } else {
        Err(DecodeError::Truncated)
    }
}

/// Packs up to eight flags into one octet.
pub fn encode_bits(flags: &[bool]) -> (r: Result<u8, EncodeError>)
    ensures
        match r {
            Ok(byte) => flags@.len() <= 8 && byte == spec_pack_bits(flags@),
            Err(e) => flags@.len() > 8 && e == EncodeError::TooManyBits,
        },
{
    let n = flags.len();
    if n > 8 {
        return Err(EncodeError::TooManyBits);
    }
    let mut byte: u8 = 0;
    if n > 0 && flags[0] {
        byte = byte + 1;
    }
    if n > 1 && flags[1] {
        byte = byte + 2;
    }
    if n > 2 && flags[2] {
        byte = byte + 4;
    }
    if n > 3 && flags[3] {
        byte = byte + 8;
    }
    if n > 4 && flags[4] {
        byte = byte + 16;
    }
    if n > 5 && flags[5] {
        byte = byte + 32;
    }
    if n > 6 && flags[6] {
        byte = byte + 64;
    }
    if n > 7 && flags[7] {
        byte = byte + 128;
    }
    Ok(byte)
}

/// Unpacks one octet into eight flags, however many of them were meant.
pub fn decode_bits(byte: u8) -> (r: Bits)
    ensures
        r@ == spec_unpack_bits(byte),
{
    let mut flags: Vec<bool> = Vec::new();
    flags.push(byte % 2 == 1);
    flags.push((byte / 2) % 2 == 1);
    flags.push((byte / 4) % 2 == 1);
    flags.push((byte / 8) % 2 == 1);
    flags.push((byte / 16) % 2 == 1);
    flags.push((byte / 32) % 2 == 1);
    flags.push((byte / 64) % 2 == 1);
    flags.push((byte / 128) % 2 == 1);
    Bits(flags)
}

impl Encode for Bits {
    open spec fn spec_encode(&self) -> Result<Seq<u8>, EncodeError> {
        spec_encode_bits(self@)
    }

    fn encode(&self) -> (r: Result<Vec<u8>, EncodeError>) {
        let byte = encode_bits(self.0.as_slice())?;
        let mut out: Vec<u8> = Vec::new();
        out.push(byte);
        Ok(out)
    }
}

impl Decode for Bits {
    open spec fn spec_decode(b: Seq<u8>, pos: int) -> Result<(Seq<bool>, int), DecodeError> {
        spec_decode_bits(b, pos)
    }

    fn decode(buf: &[u8], pos: usize) -> (r: Result<(Self, usize), DecodeError>) {
        if pos >= buf.len() {
            return Err(DecodeError::Truncated);
        }
        Ok((decode_bits(buf[pos]), pos + 1))
    }
}

impl Default for Bits {
    fn default() -> (r: Self)
        ensures
            r@ == Seq::<bool>::empty(),
    {
        Bits(Vec::new())
    }
}

impl From<(bool,)> for Bits {
    fn from(value: (bool,)) -> (r: Self)
        ensures
            r@ == seq![value.0],
    {
        let mut flags: Vec<bool> = Vec::new();
        flags.push(value.0);
        Bits(flags)
    }
}

impl FromSpecImpl<(bool,)> for Bits {
    open spec fn obeys_from_spec() -> bool {
        false
    }

    open spec fn from_spec(v: (bool,)) -> Self {
        arbitrary()
    }
}

impl From<(bool, bool)> for Bits {
    fn from(value: (bool, bool)) -> (r: Self)
        ensures
            r@ == seq![value.0, value.1],
    {
        let mut flags: Vec<bool> = Vec::new();
        flags.push(value.0);
        flags.push(value.1);
        Bits(flags)
    }
}

impl FromSpecImpl<(bool, bool)> for Bits {
    open spec fn obeys_from_spec() -> bool {
        false
    }

    open spec fn from_spec(v: (bool, bool)) -> Self {
        arbitrary()
    }
}

impl From<(bool, bool, bool)> for Bits {
    fn from(value: (bool, bool, bool)) -> (r: Self)
        ensures
            r@ == seq![value.0, value.1, value.2],
    {
        let mut flags: Vec<bool> = Vec::new();
        flags.push(value.0);
        flags.push(value.1);
        flags.push(value.2);
        Bits(flags)
    }
}

impl FromSpecImpl<(bool, bool, bool)> for Bits {
    open spec fn obeys_from_spec() -> bool {
        false
    }

    open spec fn from_spec(v: (bool, bool, bool)) -> Self {
        arbitrary()
    }
}

impl From<(bool, bool, bool, bool)> for Bits {
    fn from(value: (bool, bool, bool, bool)) -> (r: Self)
        ensures
            r@ == seq![value.0, value.1, value.2, value.3],
    {
        let mut flags: Vec<bool> = Vec::new();
        flags.push(value.0);
        flags.push(value.1);
        flags.push(value.2);
        flags.push(value.3);
        Bits(flags)
    }
}

impl FromSpecImpl<(bool, bool, bool, bool)> for Bits {
    open spec fn obeys_from_spec() -> bool {
        false
    }

    open spec fn from_spec(v: (bool, bool, bool, bool)) -> Self {
        arbitrary()
    }
}

impl From<(bool, bool, bool, bool, bool)> for Bits {
    fn from(value: (bool, bool, bool, bool, bool)) -> (r: Self)
        ensures
            r@ == seq![value.0, value.1, value.2, value.3, value.4],
    {
        let mut flags: Vec<bool> = Vec::new();
        flags.push(value.0);
        flags.push(value.1);
        flags.push(value.2);
        flags.push(value.3);
        flags.push(value.4);
        Bits(flags)
    }
}

impl FromSpecImpl<(bool, bool, bool, bool, bool)> for Bits {
    open spec fn obeys_from_spec() -> bool {
        false
    }

    open spec fn from_spec(v: (bool, bool, bool, bool, bool)) -> Self {
        arbitrary()
    }
}

/// Up to eight flags come back as they were packed, filled up with unset flags to eight.
pub proof fn lemma_bits_round_trip(flags: Seq<bool>)
    requires
        flags.len() <= 8,
    ensures
        spec_unpack_bits(spec_pack_bits(flags)) == spec_pad_bits(flags),
        flags.len() == 8 ==> spec_unpack_bits(spec_pack_bits(flags)) == flags,
{
    assert(spec_unpack_bits(spec_pack_bits(flags)) =~= spec_pad_bits(flags));
    if flags.len() == 8 {
        assert(spec_pad_bits(flags) =~= flags);
    }
}

/// Flags that stand at `pos` as one octet are read back as they were written, filled up
/// with unset flags to eight.
pub proof fn lemma_bits_decode_encode(flags: Seq<bool>, b: Seq<u8>, pos: int)
    requires
        flags.len() <= 8,
        holds_at(b, pos, seq![spec_pack_bits(flags)]),
    ensures
        spec_decode_bits(b, pos) == Ok::<(Seq<bool>, int), DecodeError>(
            (spec_pad_bits(flags), pos + 1),
        ),
{
    lemma_bits_round_trip(flags);
    assert(b[pos] == b.subrange(pos, pos + 1)[0]);
}

} // verus!
