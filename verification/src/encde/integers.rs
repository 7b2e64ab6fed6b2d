//! Fixed-width big-endian integers, as they stand on the wire.
use vstd::prelude::*;
use vstd::slice::slice_subrange;

use crate::encde::{decodes_as, holds_at};
use crate::errors::DecodeError;

verus! {

/// The two bytes of `v`, most significant first.
pub open spec fn spec_u16_bytes(v: u16) -> Seq<u8> {
    seq![(v / 0x100) as u8, (v % 0x100) as u8]
}

/// The number that the two bytes of `b` at `pos` stand for, most significant first.
pub open spec fn spec_u16_at(b: Seq<u8>, pos: int) -> u16 {
    (b[pos] as int * 0x100 + b[pos + 1] as int) as u16
}

/// The four bytes of `v`, most significant first.
pub open spec fn spec_u32_bytes(v: u32) -> Seq<u8> {
    seq![
        (v / 0x100_0000) as u8,
        ((v / 0x1_0000) % 0x100) as u8,
        ((v / 0x100) % 0x100) as u8,
        (v % 0x100) as u8,
    ]
}

/// The number that the four bytes of `b` at `pos` stand for, most significant first.
pub open spec fn spec_u32_at(b: Seq<u8>, pos: int) -> u32 {
    (b[pos] as int * 0x100_0000 + b[pos + 1] as int * 0x1_0000 + b[pos + 2] as int * 0x100
        + b[pos + 3] as int) as u32
}

/// The eight bytes of `v`, most significant first.
pub open spec fn spec_u64_bytes(v: u64) -> Seq<u8> {
    spec_u32_bytes((v / 0x1_0000_0000) as u32) + spec_u32_bytes((v % 0x1_0000_0000) as u32)
}

/// The number that the eight bytes of `b` at `pos` stand for, most significant first.
pub open spec fn spec_u64_at(b: Seq<u8>, pos: int) -> u64 {
    (spec_u32_at(b, pos) as int * 0x1_0000_0000 + spec_u32_at(b, pos + 4) as int) as u64
}

/// The octet at `pos`, or `Truncated` where `b` has none there.
pub open spec fn spec_decode_u8(b: Seq<u8>, pos: int) -> Result<(u8, int), DecodeError> {
    if 0 <= pos && pos + 1 <= b.len() {
        Ok((b[pos], pos + 1))
    } else {
        Err(DecodeError::Truncated)
    }
}

/// The boolean at `pos`, which is set unless its octet is zero, or `Truncated` where `b`
/// has no octet there.
pub open spec fn spec_decode_bool(b: Seq<u8>, pos: int) -> Result<(bool, int), DecodeError> {
    if 0 <= pos && pos + 1 <= b.len() {
        Ok((b[pos] != 0, pos + 1))
    } else {
        Err(DecodeError::Truncated)
    }
}

/// The 16-bit integer at `pos`, or `Truncated` where `b` ends before it does.
pub open spec fn spec_decode_u16(b: Seq<u8>, pos: int) -> Result<(u16, int), DecodeError> {
    if 0 <= pos && pos + 2 <= b.len() {
        Ok((spec_u16_at(b, pos), pos + 2))
    } else {
        Err(DecodeError::Truncated)
    }
}

/// The 32-bit integer at `pos`, or `Truncated` where `b` ends before it does.
pub open spec fn spec_decode_u32(b: Seq<u8>, pos: int) -> Result<(u32, int), DecodeError> {
    if 0 <= pos && pos + 4 <= b.len() {
        Ok((spec_u32_at(b, pos), pos + 4))
    } else {
        Err(DecodeError::Truncated)
    }
}

/// The 64-bit integer at `pos`, or `Truncated` where `b` ends before it does.
pub open spec fn spec_decode_u64(b: Seq<u8>, pos: int) -> Result<(u64, int), DecodeError> {
    if 0 <= pos && pos + 8 <= b.len() {
        Ok((spec_u64_at(b, pos), pos + 8))
    } else {
        Err(DecodeError::Truncated)
    }
}

/// `bincode::encode_to_vec` on a `u16`, with fixed-width big-endian integers and no size
/// limit: it always succeeds, and gives the two bytes of `v`, most significant first.
#[verifier::external_body]
fn bincode_encode_u16(v: u16) -> (r: Option<Vec<u8>>)
    ensures
        r is Some,
        r->0@ == spec_u16_bytes(v),
{
    bincode::encode_to_vec(
        v,
        bincode::config::standard().with_big_endian().with_fixed_int_encoding(),
    ).ok()
}

/// `bincode::encode_to_vec` on a `u32`, with fixed-width big-endian integers and no size
/// limit: it always succeeds, and gives the four bytes of `v`, most significant first.
#[verifier::external_body]
fn bincode_encode_u32(v: u32) -> (r: Option<Vec<u8>>)
    ensures
        r is Some,
        r->0@ == spec_u32_bytes(v),
{
    bincode::encode_to_vec(
        v,
        bincode::config::standard().with_big_endian().with_fixed_int_encoding(),
    ).ok()
}

/// `bincode::encode_to_vec` on a `u64`, with fixed-width big-endian integers and no size
/// limit: it always succeeds, and gives the eight bytes of `v`, most significant first.
#[verifier::external_body]
fn bincode_encode_u64(v: u64) -> (r: Option<Vec<u8>>)
    ensures
        r is Some,
        r->0@ == spec_u64_bytes(v),
{
    bincode::encode_to_vec(
        v,
        bincode::config::standard().with_big_endian().with_fixed_int_encoding(),
    ).ok()
}

/// `bincode::decode_from_slice` for a `u16`, with fixed-width big-endian integers and no
/// size limit: it fails exactly when `src` has fewer than two bytes, and otherwise reads
/// the first two, most significant first, and reports two bytes read.
#[verifier::external_body]
fn bincode_decode_u16(src: &[u8]) -> (r: Option<(u16, usize)>)
    ensures
        r is Some <==> src@.len() >= 2,
        r matches Some((v, n)) ==> v == spec_u16_at(src@, 0) && n == 2,
{
    bincode::decode_from_slice(
        src,
        bincode::config::standard().with_big_endian().with_fixed_int_encoding(),
    ).ok()
}

/// `bincode::decode_from_slice` for a `u32`, with fixed-width big-endian integers and no
/// size limit: it fails exactly when `src` has fewer than four bytes, and otherwise reads
/// the first four, most significant first, and reports four bytes read.
#[verifier::external_body]
fn bincode_decode_u32(src: &[u8]) -> (r: Option<(u32, usize)>)
    ensures
        r is Some <==> src@.len() >= 4,
        r matches Some((v, n)) ==> v == spec_u32_at(src@, 0) && n == 4,
{
    bincode::decode_from_slice(
        src,
        bincode::config::standard().with_big_endian().with_fixed_int_encoding(),
    ).ok()
}

/// `bincode::decode_from_slice` for a `u64`, with fixed-width big-endian integers and no
/// size limit: it fails exactly when `src` has fewer than eight bytes, and otherwise reads
/// the first eight, most significant first, and reports eight bytes read.
#[verifier::external_body]
fn bincode_decode_u64(src: &[u8]) -> (r: Option<(u64, usize)>)
    ensures
        r is Some <==> src@.len() >= 8,
        r matches Some((v, n)) ==> v == spec_u64_at(src@, 0) && n == 8,
{
    bincode::decode_from_slice(
        src,
        bincode::config::standard().with_big_endian().with_fixed_int_encoding(),
    ).ok()
}

/// Appends the octet `v` to `buf`.
pub fn put_u8(buf: &mut Vec<u8>, v: u8)
    ensures
        final(buf)@ == old(buf)@ + seq![v],
{
    buf.push(v);
    assert(buf@ =~= old(buf)@ + seq![v]);
}

/// Appends the wire form of `v` to `buf`.
pub fn put_u16(buf: &mut Vec<u8>, v: u16)
    ensures
        final(buf)@ == old(buf)@ + spec_u16_bytes(v),
{
    if let Some(mut bytes) = bincode_encode_u16(v) {
        buf.append(&mut bytes);
    }
}

/// Appends the wire form of `v` to `buf`.
pub fn put_u32(buf: &mut Vec<u8>, v: u32)
    ensures
        final(buf)@ == old(buf)@ + spec_u32_bytes(v),
{
    if let Some(mut bytes) = bincode_encode_u32(v) {
        buf.append(&mut bytes);
    }
}

/// Appends the wire form of `v` to `buf`.
pub fn put_u64(buf: &mut Vec<u8>, v: u64)
    ensures
        final(buf)@ == old(buf)@ + spec_u64_bytes(v),
{
    if let Some(mut bytes) = bincode_encode_u64(v) {
        buf.append(&mut bytes);
    }
}

/// Appends all of `part` to `buf`.
pub fn put_bytes(buf: &mut Vec<u8>, part: Vec<u8>)
    ensures
        final(buf)@ == old(buf)@ + part@,
{
    let mut part = part;
    buf.append(&mut part);
}

/// Reads the octet at `pos`.
pub fn decode_u8(buf: &[u8], pos: usize) -> (r: Result<(u8, usize), DecodeError>)
    ensures
        decodes_as(r, spec_decode_u8(buf@, pos as int)),
{
    if pos >= buf.len() {
        return Err(DecodeError::Truncated);
    }
    Ok((buf[pos], pos + 1))
}

/// Reads the boolean at `pos`.
pub fn decode_bool(buf: &[u8], pos: usize) -> (r: Result<(bool, usize), DecodeError>)
    ensures
        decodes_as(r, spec_decode_bool(buf@, pos as int)),
{
    if pos >= buf.len() {
        return Err(DecodeError::Truncated);
    }
    Ok((buf[pos] != 0, pos + 1))
}

/// Reads the 16-bit integer at `pos`.
pub fn decode_u16(buf: &[u8], pos: usize) -> (r: Result<(u16, usize), DecodeError>)
    ensures
        decodes_as(r, spec_decode_u16(buf@, pos as int)),
{
    if pos > buf.len() || buf.len() - pos < 2 {
        return Err(DecodeError::Truncated);
    }
    match bincode_decode_u16(slice_subrange(buf, pos, buf.len())) {
        Some((v, _)) => Ok((v, pos + 2)),
        None => Err(DecodeError::Truncated),
    }
}

/// Reads the 32-bit integer at `pos`.
pub fn decode_u32(buf: &[u8], pos: usize) -> (r: Result<(u32, usize), DecodeError>)
    ensures
        decodes_as(r, spec_decode_u32(buf@, pos as int)),
{
    if pos > buf.len() || buf.len() - pos < 4 {
        return Err(DecodeError::Truncated);
    }
    match bincode_decode_u32(slice_subrange(buf, pos, buf.len())) {
        Some((v, _)) => Ok((v, pos + 4)),
        None => Err(DecodeError::Truncated),
    }
}

/// Reads the 64-bit integer at `pos`.
pub fn decode_u64(buf: &[u8], pos: usize) -> (r: Result<(u64, usize), DecodeError>)
    ensures
        decodes_as(r, spec_decode_u64(buf@, pos as int)),
{
    if pos > buf.len() || buf.len() - pos < 8 {
        return Err(DecodeError::Truncated);
    }
    match bincode_decode_u64(slice_subrange(buf, pos, buf.len())) {
        Some((v, _)) => Ok((v, pos + 8)),
        None => Err(DecodeError::Truncated),
    }
}

/// A 16-bit integer that stands at `pos` is read back as it was written.
pub proof fn lemma_u16_round_trip(v: u16, b: Seq<u8>, pos: int)
    requires
        holds_at(b, pos, spec_u16_bytes(v)),
    ensures
        spec_decode_u16(b, pos) == Ok::<(u16, int), DecodeError>((v, pos + 2)),
{
    let e = spec_u16_bytes(v);
    assert(b[pos] == b.subrange(pos, pos + 2)[0]);
    assert(b[pos + 1] == b.subrange(pos, pos + 2)[1]);
}

/// A 32-bit integer that stands at `pos` is read back as it was written.
pub proof fn lemma_u32_round_trip(v: u32, b: Seq<u8>, pos: int)
    requires
        holds_at(b, pos, spec_u32_bytes(v)),
    ensures
        spec_decode_u32(b, pos) == Ok::<(u32, int), DecodeError>((v, pos + 4)),
{
    let w = b.subrange(pos, pos + 4);
    assert(b[pos] == w[0]);
    assert(b[pos + 1] == w[1]);
    assert(b[pos + 2] == w[2]);
    assert(b[pos + 3] == w[3]);
}

/// A 64-bit integer that stands at `pos` is read back as it was written.
pub proof fn lemma_u64_round_trip(v: u64, b: Seq<u8>, pos: int)
    requires
        holds_at(b, pos, spec_u64_bytes(v)),
    ensures
        spec_decode_u64(b, pos) == Ok::<(u64, int), DecodeError>((v, pos + 8)),
{
    let hi = (v / 0x1_0000_0000) as u32;
    let lo = (v % 0x1_0000_0000) as u32;
    let w = b.subrange(pos, pos + 8);
    assert(w.subrange(0, 4) =~= spec_u32_bytes(hi));
    assert(w.subrange(4, 8) =~= spec_u32_bytes(lo));
    assert(b.subrange(pos, pos + 4) =~= w.subrange(0, 4));
    assert(b.subrange(pos + 4, pos + 8) =~= w.subrange(4, 8));
    lemma_u32_round_trip(hi, b, pos);
    lemma_u32_round_trip(lo, b, pos + 4);
}

/// Where an encoding stands, each of its bytes stands in its place.
pub proof fn lemma_holds_at_index(b: Seq<u8>, pos: int, e: Seq<u8>, i: int)
    requires
        holds_at(b, pos, e),
        0 <= i < e.len(),
    ensures
        b[pos + i] == e[i],
{
    assert(b.subrange(pos, pos + e.len())[i] == b[pos + i]);
}

/// Where one encoding stands, its two halves stand one after the other, and the other
/// way round.
pub proof fn lemma_holds_at_split(b: Seq<u8>, pos: int, x: Seq<u8>, y: Seq<u8>)
    ensures
        holds_at(b, pos, x + y) <==> holds_at(b, pos, x) && holds_at(b, pos + x.len(), y),
{
    if holds_at(b, pos, x + y) {
        let w = b.subrange(pos, pos + (x + y).len());
        assert(b.subrange(pos, pos + x.len()) =~= w.subrange(0, x.len() as int));
        assert(w.subrange(0, x.len() as int) =~= x);
        assert(b.subrange(pos + x.len(), pos + x.len() + y.len()) =~= w.subrange(
            x.len() as int,
            (x + y).len() as int,
        ));
        assert(w.subrange(x.len() as int, (x + y).len() as int) =~= y);
    }
    if holds_at(b, pos, x) && holds_at(b, pos + x.len(), y) {
        assert(b.subrange(pos, pos + (x + y).len()) =~= b.subrange(pos, pos + x.len())
            + b.subrange(pos + x.len(), pos + x.len() + y.len()));
    }
}

} // verus!
