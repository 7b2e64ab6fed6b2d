//! A cursor over received bytes. Each `take_*` reads the next value and moves the cursor
//! past it; where a value cannot be read the cursor stays where it was.
use vstd::prelude::*;
use vstd::slice::{slice_subrange, slice_to_vec};

use crate::encde::class::ClassID;
use crate::encde::header::Header;
use crate::encde::integers::{
    decode_bool, decode_u16, decode_u32, decode_u64, decode_u8, spec_decode_bool,
    spec_decode_u16, spec_decode_u32, spec_decode_u64, spec_decode_u8,
};
use crate::encde::long_string::{decode_long_string, spec_decode_long_string};
use crate::encde::short_string::{decode_short_string, spec_decode_short_string};
use crate::encde::table::{
    decode_field, decode_table, spec_decode_field, spec_decode_table, Field, Table,
    MAX_TABLE_DEPTH,
};
use crate::encde::{Decode, FRAME_END};
use crate::errors::DecodeError;

verus! {

/// A buffer and how far it has been read.
#[derive(Debug, Clone, Copy)]
pub struct Decoder<'a> {
    pub buffer: &'a [u8],
    pub offset: usize,
}

/// What a `take` did, held against what stands in the buffer: on success the value by
/// its model and the cursor after it, on failure the error and the cursor unmoved. The
/// buffer is never changed.
pub open spec fn spec_took<T: View>(
    before: Decoder,
    after: Decoder,
    r: Result<T, DecodeError>,
    s: Result<(T::V, int), DecodeError>,
) -> bool {
    &&& after.buffer == before.buffer
    &&& match s {
        Ok((m, next)) => r matches Ok(v) && v@ == m && after.offset as int == next,
        Err(e) => r matches Err(e2) && e2 == e && after.offset == before.offset,
    }
}

/// How many bytes stand in `b` from `pos` on before the first frame terminator, or
/// before the end of `b` where there is none.
pub open spec fn spec_run_length(b: Seq<u8>, pos: int) -> int
    decreases b.len() - pos,
{
    if pos < 0 || pos >= b.len() || b[pos] == FRAME_END {
        0
    } else {
        1 + spec_run_length(b, pos + 1)
    }
}

/// Whether the terminator octet stands at `pos`: `Truncated` where `b` has no octet
/// there, `MissingFrameEnd` where it has another.
pub open spec fn spec_decode_frame_end(b: Seq<u8>, pos: int) -> Result<((), int), DecodeError> {
    if pos < 0 || pos >= b.len() {
        Err(DecodeError::Truncated)
    } else if b[pos] != FRAME_END {
        Err(DecodeError::MissingFrameEnd)
    } else {
        Ok(((), pos + 1))
    }
}

impl<'a> Decoder<'a> {
    /// A cursor at the start of `buffer`.
    pub fn new(buffer: &'a [u8]) -> (r: Self)
        ensures
            r.buffer == buffer,
            r.offset == 0,
    {
        Decoder { buffer, offset: 0 }
    }

    /// How far the buffer has been read.
    pub fn get_current_offset(&self) -> (r: usize)
        ensures
            r == self.offset,
    {
        self.offset
    }

    /// Moves the cursor on by `increment`.
    pub fn increment_offset_by(&mut self, increment: usize)
        requires
            old(self).offset + increment <= usize::MAX,
        ensures
            final(self).buffer == old(self).buffer,
            final(self).offset == old(self).offset + increment,
    {
        self.offset = self.offset + increment;
    }

    /// Steps over the frame terminator, which must stand at the cursor.
    pub fn next_frame(&mut self) -> (r: Result<(), DecodeError>)
        ensures
            spec_took(
                *old(self),
                *final(self),
                r,
                spec_decode_frame_end(old(self).buffer@, old(self).offset as int),
            ),
    {
        if self.offset >= self.buffer.len() {
            return Err(DecodeError::Truncated);
        }
        if self.buffer[self.offset] != FRAME_END {
            return Err(DecodeError::MissingFrameEnd);
        }
        self.offset = self.offset + 1;
        Ok(())
    }

    /// A copy of the bytes from the cursor up to the first frame terminator, or up to the
    /// end of the buffer where there is none. The cursor stays where it is.
    pub fn take_till_frame_end(&self) -> (r: Vec<u8>)
        ensures
            r@.len() == spec_run_length(self.buffer@, self.offset as int),
            self.offset <= self.buffer@.len() ==> r@ == self.buffer@.subrange(
                self.offset as int,
                self.offset + r@.len(),
            ),
    {
        if self.offset >= self.buffer.len() {
            return Vec::new();
        }
        let mut end = self.offset;
        while end < self.buffer.len() && self.buffer[end] != FRAME_END
            invariant
                self.offset <= end <= self.buffer@.len(),
                spec_run_length(self.buffer@, self.offset as int) == (end - self.offset)
                    + spec_run_length(self.buffer@, end as int),
            decreases self.buffer@.len() - end,
        {
            end = end + 1;
        }
        slice_to_vec(slice_subrange(self.buffer, self.offset, end))
    }

    /// Reads a frame header.
    pub fn take_header(&mut self) -> (r: Result<Header, DecodeError>)
        ensures
            spec_took(
                *old(self),
                *final(self),
                r,
                Header::spec_decode(old(self).buffer@, old(self).offset as int),
            ),
    {
        let (v, next) = Header::decode(self.buffer, self.offset)?;
        self.offset = next;
        Ok(v)
    }

    /// Reads a class id.
    pub fn take_class_type(&mut self) -> (r: Result<ClassID, DecodeError>)
        ensures
            spec_took(
                *old(self),
                *final(self),
                r,
                ClassID::spec_decode(old(self).buffer@, old(self).offset as int),
            ),
    {
        let (v, next) = ClassID::decode(self.buffer, self.offset)?;
        self.offset = next;
        Ok(v)
    }

    /// Reads a method id as a number: which method it is depends on the class that was
    /// read before it.
    pub fn take_method_type(&mut self) -> (r: Result<u16, DecodeError>)
        ensures
            spec_took(
                *old(self),
                *final(self),
                r,
                spec_decode_u16(old(self).buffer@, old(self).offset as int),
            ),
    {
        self.take_u16()
    }

    /// Reads one octet.
    pub fn take_u8(&mut self) -> (r: Result<u8, DecodeError>)
        ensures
            spec_took(
                *old(self),
                *final(self),
                r,
                spec_decode_u8(old(self).buffer@, old(self).offset as int),
            ),
    {
        let (v, next) = decode_u8(self.buffer, self.offset)?;
        self.offset = next;
        Ok(v)
    }

    /// Reads a 16-bit integer.
    pub fn take_u16(&mut self) -> (r: Result<u16, DecodeError>)
        ensures
            spec_took(
                *old(self),
                *final(self),
                r,
                spec_decode_u16(old(self).buffer@, old(self).offset as int),
            ),
    {
        let (v, next) = decode_u16(self.buffer, self.offset)?;
        self.offset = next;
        Ok(v)
    }

    /// Reads a 32-bit integer.
    pub fn take_u32(&mut self) -> (r: Result<u32, DecodeError>)
        ensures
            spec_took(
                *old(self),
                *final(self),
                r,
                spec_decode_u32(old(self).buffer@, old(self).offset as int),
            ),
    {
        let (v, next) = decode_u32(self.buffer, self.offset)?;
        self.offset = next;
        Ok(v)
    }

    /// Reads a 64-bit integer.
    pub fn take_u64(&mut self) -> (r: Result<u64, DecodeError>)
        ensures
            spec_took(
                *old(self),
                *final(self),
                r,
                spec_decode_u64(old(self).buffer@, old(self).offset as int),
            ),
    {
        let (v, next) = decode_u64(self.buffer, self.offset)?;
        self.offset = next;
        Ok(v)
    }

    /// Reads a short string.
    pub fn take_short_string(&mut self) -> (r: Result<String, DecodeError>)
        ensures
            spec_took(
                *old(self),
                *final(self),
                r,
                spec_decode_short_string(old(self).buffer@, old(self).offset as int),
            ),
    {
        let (v, next) = decode_short_string(self.buffer, self.offset)?;
        self.offset = next;
        Ok(v.0)
    }

    /// Reads a long string.
    pub fn take_long_string(&mut self) -> (r: Result<String, DecodeError>)
        ensures
            spec_took(
                *old(self),
                *final(self),
                r,
                spec_decode_long_string(old(self).buffer@, old(self).offset as int),
            ),
    {
        let (v, next) = decode_long_string(self.buffer, self.offset)?;
        self.offset = next;
        Ok(v.0)
    }

    /// Reads a boolean: one octet, set unless it is zero.
    pub fn take_bool(&mut self) -> (r: Result<bool, DecodeError>)
        ensures
            spec_took(
                *old(self),
                *final(self),
                r,
                spec_decode_bool(old(self).buffer@, old(self).offset as int),
            ),
    {
        let (v, next) = decode_bool(self.buffer, self.offset)?;
        self.offset = next;
        Ok(v)
    }

    /// Reads the type tag of a table field.
    pub fn get_field_type(&mut self) -> (r: Result<u8, DecodeError>)
        ensures
            spec_took(
                *old(self),
                *final(self),
                r,
                spec_decode_u8(old(self).buffer@, old(self).offset as int),
            ),
    {
        self.take_u8()
    }

    /// Reads a table field: its type tag, then the value that the tag announces.
    pub fn take_next_value(&mut self) -> (r: Result<Field, DecodeError>)
        ensures
            spec_took(
                *old(self),
                *final(self),
                r,
                spec_decode_field(
                    old(self).buffer@,
                    old(self).offset as int,
                    MAX_TABLE_DEPTH as nat,
                ),
            ),
    {
        let (v, next) = decode_field(self.buffer, self.offset, MAX_TABLE_DEPTH)?;
        self.offset = next;
        Ok(v)
    }

    /// Reads a table.
    pub fn take_table(&mut self) -> (r: Result<Table, DecodeError>)
        ensures
            spec_took(
                *old(self),
                *final(self),
                r,
                spec_decode_table(
                    old(self).buffer@,
                    old(self).offset as int,
                    MAX_TABLE_DEPTH as nat,
                ),
            ),
    {
        let (v, next) = decode_table(self.buffer, self.offset, MAX_TABLE_DEPTH)?;
        self.offset = next;
        Ok(v)
    }
}

} // verus!
