//! Field tables: self-describing, ordered, possibly nested key-value lists.
use vstd::prelude::*;
use vstd::slice::slice_subrange;
use vstd::utf8::{decode_utf8, encode_utf8, valid_utf8};

use crate::encde::integers::{
    decode_u32, lemma_holds_at_index, lemma_holds_at_split, lemma_u32_round_trip, put_bytes,
    put_u32, spec_u32_at, spec_u32_bytes,
};
use crate::encde::long_string::{
    encode_long_string, spec_encode_long_string, spec_long_string_bytes, LongString,
};
use crate::encde::short_string::{
    decode_text, encode_short_string, spec_encode_short_string, spec_short_string_bytes,
    ShortString,
};
use crate::encde::{decodes_as, encodes_as, holds_at, then, Decode, Encode};
use crate::errors::{DecodeError, EncodeError};

verus! {

/// Type tag of a boolean value: `t`.
pub const TAG_BOOL: u8 = 0x74;

/// Type tag of a short string value: `s`.
pub const TAG_SHORT_STRING: u8 = 0x73;

/// Type tag of a long string value: `S`.
pub const TAG_LONG_STRING: u8 = 0x53;

/// Type tag of a nested table: `F`.
pub const TAG_TABLE: u8 = 0x46;

/// How many tables may stand inside one another below the outermost one when decoding.
pub const MAX_TABLE_DEPTH: usize = 32;

/// A value in a table.
#[derive(Debug, PartialEq, Eq)]
pub enum Field {
    /// A short string.
    SS(ShortString),
    /// A long string.
    LS(LongString),
    /// A nested table.
    T(Table),
    /// A boolean.
    Bool(bool),
}

/// An ordered list of named values.
#[derive(Debug, PartialEq, Eq)]
pub struct Table(pub Vec<(String, Field)>);

/// What a field is, apart from how it is held in memory.
pub enum FieldModel {
    Bool(bool),
    ShortStr(Seq<char>),
    LongStr(Seq<char>),
    Table(Seq<(Seq<char>, FieldModel)>),
}

impl View for Field {
    type V = FieldModel;

    open spec fn view(&self) -> FieldModel
        decreases self,
    {
        match self {
            Field::SS(s) => FieldModel::ShortStr(s.0@),
            Field::LS(s) => FieldModel::LongStr(s.0@),
            Field::T(t) => FieldModel::Table(t.view()),
            Field::Bool(b) => FieldModel::Bool(*b),
        }
    }
}

impl View for Table {
    type V = Seq<(Seq<char>, FieldModel)>;

    open spec fn view(&self) -> Seq<(Seq<char>, FieldModel)>
        decreases self,
    {
        Seq::new(
            self.0.len() as nat,
            |i: int|
                if 0 <= i < self.0.len() {
                    (self.0[i].0@, self.0[i].1.view())
                } else {
                    (Seq::empty(), FieldModel::Bool(false))
                },
        )
    }
}

impl Clone for Field {
    fn clone(&self) -> (r: Self)
        ensures
            r@ == self@,
        decreases self,
    {
        match self {
            Field::SS(s) => Field::SS(ShortString(s.0.clone())),
            Field::LS(s) => Field::LS(LongString(s.0.clone())),
            Field::T(t) => Field::T(t.clone()),
            Field::Bool(b) => Field::Bool(*b),
        }
    }
}

impl Clone for Table {
    fn clone(&self) -> (r: Self)
        ensures
            r@ == self@,
        decreases self,
    {
        let mut entries: Vec<(String, Field)> = Vec::new();
        let mut i: usize = 0;
        while i < self.0.len()
            invariant
                i <= self.0.len(),
                entries.len() == i,
                forall|j: int|
                    0 <= j < i ==> entries[j].0@ == self.0[j].0@ && entries[j].1@ == self.0[j].1@,
            decreases self.0.len() - i,
        {
            let entry = &self.0[i];
            entries.push((entry.0.clone(), entry.1.clone()));
            i = i + 1;
        }
        let r = Table(entries);
        assert(r@ =~= self@);
        r
    }
}

/// The wire form of a field: its type tag, then the value.
pub open spec fn spec_encode_field(f: FieldModel) -> Result<Seq<u8>, EncodeError>
    decreases f, 0nat,
{
    match f {
        FieldModel::Bool(b) => Ok(seq![TAG_BOOL, if b { 1u8 } else { 0u8 }]),
        FieldModel::ShortStr(s) => then(Ok(seq![TAG_SHORT_STRING]), spec_encode_short_string(s)),
        FieldModel::LongStr(s) => then(Ok(seq![TAG_LONG_STRING]), spec_encode_long_string(s)),
        FieldModel::Table(t) => then(Ok(seq![TAG_TABLE]), spec_encode_table(t)),
    }
}

/// The wire form of the entries of `t` from entry `from` on: for each its key as a short
/// string, then its field.
pub open spec fn spec_encode_entries(t: Seq<(Seq<char>, FieldModel)>, from: nat) -> Result<
    Seq<u8>,
    EncodeError,
>
    decreases t, t.len() - from,
{
    if from >= t.len() {
        Ok(Seq::empty())
    } else {
        then(
            then(spec_encode_short_string(t[from as int].0), spec_encode_field(t[from as int].1)),
            spec_encode_entries(t, from + 1),
        )
    }
}

/// The wire form of a table: the byte length of its entries in four octets, then the
/// entries.
pub open spec fn spec_encode_table(t: Seq<(Seq<char>, FieldModel)>) -> Result<Seq<u8>, EncodeError>
    decreases t, t.len() + 1,
{
    match spec_encode_entries(t, 0) {
        Err(e) => Err(e),
        Ok(body) => if body.len() > u32::MAX {
            Err(EncodeError::LengthOverflow)
        } else {
            Ok(spec_u32_bytes(body.len() as u32) + body)
        },
    }
}

/// A short string inside a table: where it runs past the end of the table it is
/// `TruncatedTable`.
pub open spec fn spec_decode_table_short(w: Seq<u8>, pos: int) -> Result<
    (Seq<char>, int),
    DecodeError,
> {
    if pos < 0 || pos >= w.len() {
        Err(DecodeError::TruncatedTable)
    } else {
        let n = w[pos] as int;
        if pos + 1 + n > w.len() {
            Err(DecodeError::TruncatedTable)
        } else if !valid_utf8(w.subrange(pos + 1, pos + 1 + n)) {
            Err(DecodeError::InvalidUtf8)
        } else {
            Ok((decode_utf8(w.subrange(pos + 1, pos + 1 + n)), pos + 1 + n))
        }
    }
}

/// A long string inside a table: where it runs past the end of the table it is
/// `TruncatedTable`.
pub open spec fn spec_decode_table_long(w: Seq<u8>, pos: int) -> Result<
    (Seq<char>, int),
    DecodeError,
> {
    if pos < 0 || pos + 4 > w.len() {
        Err(DecodeError::TruncatedTable)
    } else {
        let n = spec_u32_at(w, pos) as int;
        if pos + 4 + n > w.len() {
            Err(DecodeError::TruncatedTable)
        } else if !valid_utf8(w.subrange(pos + 4, pos + 4 + n)) {
            Err(DecodeError::InvalidUtf8)
        } else {
            Ok((decode_utf8(w.subrange(pos + 4, pos + 4 + n)), pos + 4 + n))
        }
    }
}

/// The field that stands in `w` at `pos`: one tag octet, then the value that the tag
/// announces. `depth` says how many tables may still be opened inside this one.
pub open spec fn spec_decode_field(w: Seq<u8>, pos: int, depth: nat) -> Result<
    (FieldModel, int),
    DecodeError,
>
    decreases depth, 0nat, 0nat,
{
    if pos < 0 || pos >= w.len() {
        Err(DecodeError::TruncatedTable)
    } else if w[pos] == TAG_BOOL {
        if pos + 2 > w.len() {
            Err(DecodeError::TruncatedTable)
        } else {
            Ok((FieldModel::Bool(w[pos + 1] != 0), pos + 2))
        }
    } else if w[pos] == TAG_SHORT_STRING {
        match spec_decode_table_short(w, pos + 1) {
            Err(e) => Err(e),
            Ok((s, next)) => Ok((FieldModel::ShortStr(s), next)),
        }
    } else if w[pos] == TAG_LONG_STRING {
        match spec_decode_table_long(w, pos + 1) {
            Err(e) => Err(e),
            Ok((s, next)) => Ok((FieldModel::LongStr(s), next)),
        }
    } else if w[pos] == TAG_TABLE {
        if depth == 0 {
            Err(DecodeError::NestingTooDeep)
        } else {
            match spec_decode_table(w, pos + 1, (depth - 1) as nat) {
                Err(e) => Err(e),
                Ok((t, next)) => Ok((FieldModel::Table(t), next)),
            }
        }
    } else {
        Err(DecodeError::UnknownFieldType)
    }
}

/// The entry that stands in `w` at `pos`: a short string key, then a field.
pub open spec fn spec_decode_entry(w: Seq<u8>, pos: int, depth: nat) -> Result<
    ((Seq<char>, FieldModel), int),
    DecodeError,
>
    decreases depth, 0nat, 1nat,
{
    match spec_decode_table_short(w, pos) {
        Err(e) => Err(e),
        Ok((key, at)) => match spec_decode_field(w, at, depth) {
            Err(e) => Err(e),
            Ok((field, next)) => Ok(((key, field), next)),
        },
    }
}

/// The entries that fill `w` from `pos` to its end, in order. Every entry takes at least
/// two octets, so the reading moves forward; the test on `next` only says so to the
/// definition.
pub open spec fn spec_decode_entries(w: Seq<u8>, pos: int, depth: nat) -> Result<
    Seq<(Seq<char>, FieldModel)>,
    DecodeError,
>
    decreases depth, 0nat, 2 + w.len() - pos,
{
    if pos < 0 || pos >= w.len() {
        Ok(Seq::empty())
    } else {
        match spec_decode_entry(w, pos, depth) {
            Err(e) => Err(e),
            Ok((entry, next)) => if next <= pos || next > w.len() {
                Err(DecodeError::TruncatedTable)
            } else {
                match spec_decode_entries(w, next, depth) {
                    Err(e) => Err(e),
                    Ok(rest) => Ok(seq![entry] + rest),
                }
            },
        }
    }
}

/// The table that stands in `b` at `pos`: a four-octet length, then entries that fill
/// exactly that many bytes.
pub open spec fn spec_decode_table(b: Seq<u8>, pos: int, depth: nat) -> Result<
    (Seq<(Seq<char>, FieldModel)>, int),
    DecodeError,
>
    decreases depth, 1nat, 0nat,
{
    if pos < 0 || pos + 4 > b.len() {
        Err(DecodeError::TruncatedTable)
    } else {
        let n = spec_u32_at(b, pos) as int;
        if pos + 4 + n > b.len() {
            Err(DecodeError::TruncatedTable)
        } else {
            match spec_decode_entries(b.subrange(pos + 4, pos + 4 + n), 0, depth) {
                Err(e) => Err(e),
                Ok(t) => Ok((t, pos + 4 + n)),
            }
        }
    }
}


/// Whether no branch of `f` opens more than `depth` tables inside one another.
pub open spec fn spec_field_fits(f: FieldModel, depth: nat) -> bool
    decreases f, 0nat,
{
    match f {
        FieldModel::Table(t) => depth > 0 && spec_entries_fit(t, 0, (depth - 1) as nat),
        _ => true,
    }
}

/// Whether no entry of `t` from entry `from` on opens more than `depth` tables inside one
/// another.
pub open spec fn spec_entries_fit(t: Seq<(Seq<char>, FieldModel)>, from: nat, depth: nat) -> bool
    decreases t, t.len() - from,
{
    from >= t.len() || (spec_field_fits(t[from as int].1, depth) && spec_entries_fit(
        t,
        from + 1,
        depth,
    ))
}

/// Joining encodings does not depend on how they are grouped.
pub proof fn lemma_then_assoc(
    a: Result<Seq<u8>, EncodeError>,
    b: Result<Seq<u8>, EncodeError>,
    c: Result<Seq<u8>, EncodeError>,
)
    ensures
        then(a, then(b, c)) == then(then(a, b), c),
{
    if let Ok(x) = a {
        if let Ok(y) = b {
            if let Ok(z) = c {
                assert(x + (y + z) =~= (x + y) + z);
            }
        }
    }
}

/// What was decoded so far, in front of what the rest decodes to.
pub open spec fn spec_prepend(
    head: Seq<(Seq<char>, FieldModel)>,
    rest: Result<Seq<(Seq<char>, FieldModel)>, DecodeError>,
) -> Result<Seq<(Seq<char>, FieldModel)>, DecodeError> {
    match rest {
        Err(e) => Err(e),
        Ok(tail) => Ok(head + tail),
    }
}

fn encode_field(f: &Field) -> (r: Result<Vec<u8>, EncodeError>)
    ensures
        encodes_as(r, spec_encode_field(f@)),
    decreases f,
{
    let mut out: Vec<u8> = Vec::new();
    match f {
        Field::Bool(b) => {
            out.push(TAG_BOOL);
            out.push(if *b { 1u8 } else { 0u8 });
            assert(out@ =~= seq![TAG_BOOL, if *b { 1u8 } else { 0u8 }]);
        },
        Field::SS(s) => {
            out.push(TAG_SHORT_STRING);
            let part = encode_short_string(s.0.as_str())?;
            put_bytes(&mut out, part);
        },
        Field::LS(s) => {
            out.push(TAG_LONG_STRING);
            let part = encode_long_string(s.0.as_str())?;
            put_bytes(&mut out, part);
        },
        Field::T(t) => {
            out.push(TAG_TABLE);
            let part = t.to_bytes()?;
            put_bytes(&mut out, part);
        },
    }
    Ok(out)
}

impl Table {
    /// Writes the table in wire form: first the entries, then, in front of them, their
    /// byte length.
    pub fn to_bytes(&self) -> (r: Result<Vec<u8>, EncodeError>)
        ensures
            encodes_as(r, spec_encode_table(self@)),
        decreases self,
    {
        let mut body: Vec<u8> = Vec::new();
        let mut i: usize = 0;
        while i < self.0.len()
            invariant
                i <= self.0.len(),
                self@.len() == self.0.len(),
                spec_encode_entries(self@, 0) == then(
                    Ok(body@),
                    spec_encode_entries(self@, i as nat),
                ),
            decreases self.0.len() - i,
        {
            let entry = &self.0[i];
            assert(self@[i as int] == (entry.0@, entry.1@));
            let ghost before = body@;
            let ghost key_spec = spec_encode_short_string(entry.0@);
            let ghost field_spec = spec_encode_field(entry.1@);
            let ghost rest_spec = spec_encode_entries(self@, (i + 1) as nat);
            proof {
                lemma_then_assoc(Ok(before), then(key_spec, field_spec), rest_spec);
                lemma_then_assoc(Ok(before), key_spec, field_spec);
            }
            let key = encode_short_string(entry.0.as_str())?;
            let field = encode_field(&entry.1)?;
            put_bytes(&mut body, key);
            put_bytes(&mut body, field);
            i = i + 1;
        }
        assert(body@ + Seq::<u8>::empty() =~= body@);
        if body.len() > u32::MAX as usize {
            return Err(EncodeError::LengthOverflow);
        }
        let mut out: Vec<u8> = Vec::new();
        put_u32(&mut out, body.len() as u32);
        put_bytes(&mut out, body);
        Ok(out)
    }
}

fn decode_table_short(w: &[u8], pos: usize) -> (r: Result<(String, usize), DecodeError>)
    ensures
        decodes_as(r, spec_decode_table_short(w@, pos as int)),
        r matches Ok((_, next)) ==> pos < next <= w@.len(),
{
    if pos >= w.len() {
        return Err(DecodeError::TruncatedTable);
    }
    let n = w[pos] as usize;
    if w.len() - pos - 1 < n {
        return Err(DecodeError::TruncatedTable);
    }
    match decode_text(w, pos + 1, n) {
        Some(s) => Ok((s, pos + 1 + n)),
        None => Err(DecodeError::InvalidUtf8),
    }
}

fn decode_table_long(w: &[u8], pos: usize) -> (r: Result<(String, usize), DecodeError>)
    ensures
        decodes_as(r, spec_decode_table_long(w@, pos as int)),
        r matches Ok((_, next)) ==> pos < next <= w@.len(),
{
    let (n, start) = match decode_u32(w, pos) {
        Ok((n, start)) => (n as usize, start),
        Err(_) => {
            return Err(DecodeError::TruncatedTable);
        },
    };
    if w.len() - start < n {
        return Err(DecodeError::TruncatedTable);
    }
    match decode_text(w, start, n) {
        Some(s) => Ok((s, start + n)),
        None => Err(DecodeError::InvalidUtf8),
    }
}

/// Reads the field that stands in `w` at `pos`: a tag and the value that it announces.
/// Nested tables are followed `depth` levels down.
pub fn decode_field(w: &[u8], pos: usize, depth: usize) -> (r: Result<(Field, usize), DecodeError>)
    ensures
        decodes_as(r, spec_decode_field(w@, pos as int, depth as nat)),
        r matches Ok((_, next)) ==> pos < next <= w@.len(),
    decreases depth, 0nat,
{
    if pos >= w.len() {
        return Err(DecodeError::TruncatedTable);
    }
    let tag = w[pos];
    if tag == TAG_BOOL {
        if w.len() - pos < 2 {
            return Err(DecodeError::TruncatedTable);
        }
        Ok((Field::Bool(w[pos + 1] != 0), pos + 2))
    } else if tag == TAG_SHORT_STRING {
        let (s, next) = decode_table_short(w, pos + 1)?;
        Ok((Field::SS(ShortString(s)), next))
    } else if tag == TAG_LONG_STRING {
        let (s, next) = decode_table_long(w, pos + 1)?;
        Ok((Field::LS(LongString(s)), next))
    } else if tag == TAG_TABLE {
        if depth == 0 {
            return Err(DecodeError::NestingTooDeep);
        }
        let (t, next) = decode_table(w, pos + 1, depth - 1)?;
        Ok((Field::T(t), next))
    } else {
        Err(DecodeError::UnknownFieldType)
    }
}

fn decode_entries(w: &[u8], depth: usize) -> (r: Result<Table, DecodeError>)
    ensures
        match spec_decode_entries(w@, 0, depth as nat) {
            Ok(t) => r matches Ok(v) && v@ == t,
            Err(e) => r matches Err(e2) && e2 == e,
        },
    decreases depth, 1nat,
{
    let mut entries: Vec<(String, Field)> = Vec::new();
    let mut pos: usize = 0;
    assert(Table(entries)@ =~= Seq::empty());
    assert(Seq::<(Seq<char>, FieldModel)>::empty() + spec_decode_entries(w@, 0, depth as nat)->Ok_0
        =~= spec_decode_entries(w@, 0, depth as nat)->Ok_0);
    while pos < w.len()
        invariant
            pos <= w.len(),
            spec_decode_entries(w@, 0, depth as nat) == spec_prepend(
                Table(entries)@,
                spec_decode_entries(w@, pos as int, depth as nat),
            ),
        decreases w.len() - pos,
    {
        let ghost before = Table(entries)@;
        let ghost here = spec_decode_entries(w@, pos as int, depth as nat);
        let ghost entry_spec = spec_decode_entry(w@, pos as int, depth as nat);
        assert(here == match entry_spec {
            Err(e) => Err(e),
            Ok((entry, next)) => if next <= pos || next > w@.len() {
                Err(DecodeError::TruncatedTable)
            } else {
                match spec_decode_entries(w@, next, depth as nat) {
                    Err(e) => Err(e),
                    Ok(rest) => Ok(seq![entry] + rest),
                }
            },
        });
        let (key, at) = decode_table_short(w, pos)?;
        let (field, next) = decode_field(w, at, depth)?;
        proof {
            let entry = (key@, field@);
            let rest = spec_decode_entries(w@, next as int, depth as nat);
            if let Ok(tail) = rest {
                assert(before + (seq![entry] + tail) =~= (before + seq![entry]) + tail);
            }
        }
        entries.push((key, field));
        assert(Table(entries)@ =~= before + seq![(key@, field@)]);
        pos = next;
    }
    assert(Table(entries)@ + Seq::<(Seq<char>, FieldModel)>::empty() =~= Table(entries)@);
    Ok(Table(entries))
}

/// Reads the table that stands in `buf` at `pos`, following nested tables `depth` levels
/// down, and gives the position after it.
pub fn decode_table(buf: &[u8], pos: usize, depth: usize) -> (r: Result<
    (Table, usize),
    DecodeError,
>)
    ensures
        decodes_as(r, spec_decode_table(buf@, pos as int, depth as nat)),
        r matches Ok((_, next)) ==> pos < next <= buf@.len(),
    decreases depth, 2nat,
{
    let (n, start) = match decode_u32(buf, pos) {
        Ok((n, start)) => (n as usize, start),
        Err(_) => {
            return Err(DecodeError::TruncatedTable);
        },
    };
    if buf.len() - start < n {
        return Err(DecodeError::TruncatedTable);
    }
    let table = decode_entries(slice_subrange(buf, start, start + n), depth)?;
    Ok((table, start + n))
}

impl Encode for Table {
    open spec fn spec_encode(&self) -> Result<Seq<u8>, EncodeError> {
        spec_encode_table(self@)
    }

    fn encode(&self) -> (r: Result<Vec<u8>, EncodeError>) {
        self.to_bytes()
    }
}

impl Decode for Table {
    open spec fn spec_decode(b: Seq<u8>, pos: int) -> Result<
        (Seq<(Seq<char>, FieldModel)>, int),
        DecodeError,
    > {
        spec_decode_table(b, pos, MAX_TABLE_DEPTH as nat)
    }

    fn decode(buf: &[u8], pos: usize) -> (r: Result<(Self, usize), DecodeError>) {
        decode_table(buf, pos, MAX_TABLE_DEPTH)
    }
}

impl Default for Table {
    fn default() -> (r: Self)
        ensures
            r@ == Seq::<(Seq<char>, FieldModel)>::empty(),
    {
        let r = Table(Vec::new());
        assert(r@ =~= Seq::empty());
        r
    }
}


proof fn lemma_table_short_round_trip(s: Seq<char>, w: Seq<u8>, pos: int)
    requires
        encode_utf8(s).len() <= 255,
        holds_at(w, pos, spec_short_string_bytes(s)),
    ensures
        spec_decode_table_short(w, pos) == Ok::<(Seq<char>, int), DecodeError>(
            (s, pos + spec_short_string_bytes(s).len()),
        ),
{
    let text = encode_utf8(s);
    lemma_holds_at_split(w, pos, seq![text.len() as u8], text);
    lemma_holds_at_index(w, pos, seq![text.len() as u8], 0);
    vstd::utf8::encode_utf8_valid_utf8(s);
    vstd::utf8::encode_utf8_decode_utf8(s);
}

proof fn lemma_table_long_round_trip(s: Seq<char>, w: Seq<u8>, pos: int)
    requires
        encode_utf8(s).len() <= u32::MAX,
        holds_at(w, pos, spec_long_string_bytes(s)),
    ensures
        spec_decode_table_long(w, pos) == Ok::<(Seq<char>, int), DecodeError>(
            (s, pos + spec_long_string_bytes(s).len()),
        ),
{
    let text = encode_utf8(s);
    let n = text.len() as u32;
    lemma_holds_at_split(w, pos, spec_u32_bytes(n), text);
    lemma_u32_round_trip(n, w, pos);
    vstd::utf8::encode_utf8_valid_utf8(s);
    vstd::utf8::encode_utf8_decode_utf8(s);
}

/// A field that stands at `pos` is read back as it was written, if it is not nested more
/// deeply than the decoder follows.
pub proof fn lemma_field_round_trip(f: FieldModel, depth: nat, w: Seq<u8>, pos: int)
    requires
        spec_encode_field(f) is Ok,
        spec_field_fits(f, depth),
        holds_at(w, pos, spec_encode_field(f)->Ok_0),
    ensures
        spec_decode_field(w, pos, depth) == Ok::<(FieldModel, int), DecodeError>(
            (f, pos + spec_encode_field(f)->Ok_0.len()),
        ),
    decreases f, 0nat,
{
    let e = spec_encode_field(f)->Ok_0;
    match f {
        FieldModel::Bool(b) => {
            lemma_holds_at_index(w, pos, e, 0);
            lemma_holds_at_index(w, pos, e, 1);
        },
        FieldModel::ShortStr(s) => {
            lemma_holds_at_split(w, pos, seq![TAG_SHORT_STRING], spec_short_string_bytes(s));
            lemma_holds_at_index(w, pos, seq![TAG_SHORT_STRING], 0);
            lemma_table_short_round_trip(s, w, pos + 1);
        },
        FieldModel::LongStr(s) => {
            lemma_holds_at_split(w, pos, seq![TAG_LONG_STRING], spec_long_string_bytes(s));
            lemma_holds_at_index(w, pos, seq![TAG_LONG_STRING], 0);
            lemma_table_long_round_trip(s, w, pos + 1);
        },
        FieldModel::Table(t) => {
            let inner = spec_encode_table(t)->Ok_0;
            lemma_holds_at_split(w, pos, seq![TAG_TABLE], inner);
            lemma_holds_at_index(w, pos, seq![TAG_TABLE], 0);
            lemma_table_round_trip(t, (depth - 1) as nat, w, pos + 1);
        },
    }
}

/// Entries that fill `w` from `pos` to its end are read back as they were written.
pub proof fn lemma_entries_round_trip(
    t: Seq<(Seq<char>, FieldModel)>,
    from: nat,
    depth: nat,
    w: Seq<u8>,
    pos: int,
)
    requires
        from <= t.len(),
        spec_encode_entries(t, from) is Ok,
        spec_entries_fit(t, from, depth),
        holds_at(w, pos, spec_encode_entries(t, from)->Ok_0),
        pos + spec_encode_entries(t, from)->Ok_0.len() == w.len(),
    ensures
        spec_decode_entries(w, pos, depth) == Ok::<Seq<(Seq<char>, FieldModel)>, DecodeError>(
            t.subrange(from as int, t.len() as int),
        ),
    decreases t, t.len() - from,
{
    if from >= t.len() {
        assert(t.subrange(from as int, t.len() as int) =~= Seq::empty());
    } else {
        let key = t[from as int].0;
        let field = t[from as int].1;
        let key_bytes = spec_encode_short_string(key)->Ok_0;
        let field_bytes = spec_encode_field(field)->Ok_0;
        let rest_bytes = spec_encode_entries(t, from + 1)->Ok_0;
        lemma_holds_at_split(w, pos, key_bytes + field_bytes, rest_bytes);
        lemma_holds_at_split(w, pos, key_bytes, field_bytes);
        lemma_table_short_round_trip(key, w, pos);
        let at = pos + key_bytes.len();
        lemma_field_round_trip(field, depth, w, at);
        let next = at + field_bytes.len();
        lemma_entries_round_trip(t, from + 1, depth, w, next);
        assert(spec_decode_entry(w, pos, depth) == Ok::<
            ((Seq<char>, FieldModel), int),
            DecodeError,
        >(((key, field), next)));
        assert(seq![(key, field)] + t.subrange(from as int + 1, t.len() as int) =~= t.subrange(
            from as int,
            t.len() as int,
        ));
    }
}

/// A table that stands at `pos` is read back as it was written, if it is not nested more
/// deeply than the decoder follows.
pub proof fn lemma_table_round_trip(
    t: Seq<(Seq<char>, FieldModel)>,
    depth: nat,
    b: Seq<u8>,
    pos: int,
)
    requires
        spec_encode_table(t) is Ok,
        spec_entries_fit(t, 0, depth),
        holds_at(b, pos, spec_encode_table(t)->Ok_0),
    ensures
        spec_decode_table(b, pos, depth) == Ok::<(Seq<(Seq<char>, FieldModel)>, int), DecodeError>(
            (t, pos + spec_encode_table(t)->Ok_0.len()),
        ),
    decreases t, t.len() + 1,
{
    let body = spec_encode_entries(t, 0)->Ok_0;
    let n = body.len() as u32;
    lemma_holds_at_split(b, pos, spec_u32_bytes(n), body);
    lemma_u32_round_trip(n, b, pos);
    let w = b.subrange(pos + 4, pos + 4 + body.len());
    assert(w.subrange(0, body.len() as int) =~= w);
    lemma_entries_round_trip(t, 0, depth, w, 0);
    assert(t.subrange(0, t.len() as int) =~= t);
}

/// The length that a table declares in its first four octets is exactly the length of
/// what follows them: the encodings of all its entries, nested tables included.
pub proof fn lemma_table_length(t: Seq<(Seq<char>, FieldModel)>)
    requires
        spec_encode_table(t) is Ok,
    ensures
        ({
            let bytes = spec_encode_table(t)->Ok_0;
            &&& bytes.len() >= 4
            &&& spec_u32_at(bytes, 0) == bytes.len() - 4
            &&& bytes.subrange(4, bytes.len() as int) == spec_encode_entries(t, 0)->Ok_0
        }),
{
    let bytes = spec_encode_table(t)->Ok_0;
    let body = spec_encode_entries(t, 0)->Ok_0;
    assert(bytes.subrange(0, 4) =~= spec_u32_bytes(body.len() as u32));
    lemma_u32_round_trip(body.len() as u32, bytes, 0);
    assert(bytes.subrange(4, bytes.len() as int) =~= body);
}

} // verus!
