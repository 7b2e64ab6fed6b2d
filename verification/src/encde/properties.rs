//! Message properties: fourteen optional fields behind a word of presence flags.
use vstd::prelude::*;

use crate::encde::integers::{
    decode_u16, decode_u64, decode_u8, lemma_holds_at_index, lemma_holds_at_split,
    lemma_u16_round_trip, lemma_u64_round_trip, put_bytes, put_u16, put_u64, spec_decode_u16,
    spec_decode_u64, spec_decode_u8, spec_u16_bytes, spec_u64_bytes,
};
use crate::encde::short_string::{
    decode_short_string, encode_short_string, lemma_short_string_round_trip,
    spec_decode_short_string, spec_encode_short_string,
};
use crate::encde::table::{
    decode_table, lemma_table_round_trip, spec_decode_table, spec_encode_table, spec_entries_fit,
    Field, FieldModel, Table, MAX_TABLE_DEPTH,
};
use crate::encde::{decodes_as, encodes_as, holds_at, then, Decode, Encode};
use crate::errors::{DecodeError, EncodeError};

verus! {

/// Presence flag of `content_type`.
pub const CONTENT_TYPE: u16 = 0x8000;

/// Presence flag of `content_encoding`.
pub const CONTENT_ENCODING: u16 = 0x4000;

/// Presence flag of `headers`.
pub const HEADERS: u16 = 0x2000;

/// Presence flag of `delivery_mode`.
pub const DELIVERY_MODE: u16 = 0x1000;

/// Presence flag of `priority`.
pub const PRIORITY: u16 = 0x0800;

/// Presence flag of `correlation_id`.
pub const CORRELATION_ID: u16 = 0x0400;

/// Presence flag of `reply_to`.
pub const REPLY_TO: u16 = 0x0200;

/// Presence flag of `expiration`.
pub const EXPIRATION: u16 = 0x0100;

/// Presence flag of `message_id`.
pub const MESSAGE_ID: u16 = 0x0080;

/// Presence flag of `timestamp`.
pub const TIMESTAMP: u16 = 0x0040;

/// Presence flag of `message_type`.
pub const MESSAGE_TYPE: u16 = 0x0020;

/// Presence flag of `user_id`.
pub const USER_ID: u16 = 0x0010;

/// Presence flag of `app_id`.
pub const APP_ID: u16 = 0x0008;

/// Presence flag of `cluster_id`.
pub const CLUSTER_ID: u16 = 0x0004;

/// The flag that says that a further flag word follows.
pub const CONTINUATION: u16 = 0x0001;

/// How many flag words the flag space holds.
pub const MAX_FLAG_WORDS: usize = 4;

/// The optional fields of a message. A field that is absent takes no room on the wire.
#[derive(Debug, PartialEq, Eq)]
pub struct Properties {
    /// The MIME type of the body.
    pub content_type: Option<String>,
    /// The MIME encoding of the body.
    pub content_encoding: Option<String>,
    /// Application headers.
    pub headers: Option<Table>,
    /// 1 for non-persistent, 2 for persistent.
    pub delivery_mode: Option<u8>,
    /// The priority of the message, 0 to 9.
    pub priority: Option<u8>,
    /// What the message answers.
    pub correlation_id: Option<String>,
    /// Where to answer.
    pub reply_to: Option<String>,
    /// How long the message lives, as a number in text.
    pub expiration: Option<String>,
    /// The message's own id.
    pub message_id: Option<String>,
    /// When the message was made.
    pub timestamp: Option<u64>,
    /// The name of the message type.
    pub message_type: Option<String>,
    /// Who made the message.
    pub user_id: Option<String>,
    /// Which application made it.
    pub app_id: Option<String>,
    /// Reserved by the protocol.
    pub cluster_id: Option<String>,
}

/// What the properties are, apart from how they are held in memory.
pub struct PropertiesModel {
    pub content_type: Option<Seq<char>>,
    pub content_encoding: Option<Seq<char>>,
    pub headers: Option<Seq<(Seq<char>, FieldModel)>>,
    pub delivery_mode: Option<u8>,
    pub priority: Option<u8>,
    pub correlation_id: Option<Seq<char>>,
    pub reply_to: Option<Seq<char>>,
    pub expiration: Option<Seq<char>>,
    pub message_id: Option<Seq<char>>,
    pub timestamp: Option<u64>,
    pub message_type: Option<Seq<char>>,
    pub user_id: Option<Seq<char>>,
    pub app_id: Option<Seq<char>>,
    pub cluster_id: Option<Seq<char>>,
}

/// The text of an optional string.
pub open spec fn spec_text(o: Option<String>) -> Option<Seq<char>> {
    match o {
        Some(s) => Some(s@),
        None => None,
    }
}

/// The model of an optional list of headers.
pub open spec fn spec_headers(o: Option<Table>) -> Option<Seq<(Seq<char>, FieldModel)>> {
    match o {
        Some(t) => Some(t@),
        None => None,
    }
}

impl View for Properties {
    type V = PropertiesModel;

    open spec fn view(&self) -> PropertiesModel {
        PropertiesModel {
            content_type: spec_text(self.content_type),
            content_encoding: spec_text(self.content_encoding),
            headers: spec_headers(self.headers),
            delivery_mode: self.delivery_mode,
            priority: self.priority,
            correlation_id: spec_text(self.correlation_id),
            reply_to: spec_text(self.reply_to),
            expiration: spec_text(self.expiration),
            message_id: spec_text(self.message_id),
            timestamp: self.timestamp,
            message_type: spec_text(self.message_type),
            user_id: spec_text(self.user_id),
            app_id: spec_text(self.app_id),
            cluster_id: spec_text(self.cluster_id),
        }
    }
}

impl PropertiesModel {
    /// Properties with every field absent.
    pub open spec fn empty() -> PropertiesModel {
        PropertiesModel {
            content_type: None,
            content_encoding: None,
            headers: None,
            delivery_mode: None,
            priority: None,
            correlation_id: None,
            reply_to: None,
            expiration: None,
            message_id: None,
            timestamp: None,
            message_type: None,
            user_id: None,
            app_id: None,
            cluster_id: None,
        }
    }
}

fn clone_text(o: &Option<String>) -> (r: Option<String>)
    ensures
        spec_text(r) == spec_text(*o),
{
    match o {
        Some(s) => Some(s.clone()),
        None => None,
    }
}

impl Clone for Properties {
    fn clone(&self) -> (r: Self)
        ensures
            r@ == self@,
    {
        let headers = match &self.headers {
            Some(t) => Some(t.clone()),
            None => None,
        };
        Properties {
            content_type: clone_text(&self.content_type),
            content_encoding: clone_text(&self.content_encoding),
            headers,
            delivery_mode: self.delivery_mode,
            priority: self.priority,
            correlation_id: clone_text(&self.correlation_id),
            reply_to: clone_text(&self.reply_to),
            expiration: clone_text(&self.expiration),
            message_id: clone_text(&self.message_id),
            timestamp: self.timestamp,
            message_type: clone_text(&self.message_type),
            user_id: clone_text(&self.user_id),
            app_id: clone_text(&self.app_id),
            cluster_id: clone_text(&self.cluster_id),
        }
    }
}

impl Default for Properties {
    fn default() -> (r: Self)
        ensures
            r@ == PropertiesModel::empty(),
    {
        Properties {
            content_type: None,
            content_encoding: None,
            headers: None,
            delivery_mode: None,
            priority: None,
            correlation_id: None,
            reply_to: None,
            expiration: None,
            message_id: None,
            timestamp: None,
            message_type: None,
            user_id: None,
            app_id: None,
            cluster_id: None,
        }
    }
}

impl Properties {
    /// A builder with every field absent.
    pub fn builder() -> (r: PropertiesBuilder)
        ensures
            r@ == PropertiesModel::empty(),
    {
        PropertiesBuilder {
            content_type: None,
            content_encoding: None,
            headers: None,
            delivery_mode: None,
            priority: None,
            correlation_id: None,
            reply_to: None,
            expiration: None,
            message_id: None,
            timestamp: None,
            message_type: None,
            user_id: None,
            app_id: None,
            cluster_id: None,
        }
    }
}

/// Collects the fields of a `Properties` one by one.
#[derive(Debug, Clone, PartialEq, Eq)]
pub struct PropertiesBuilder {
    pub content_type: Option<String>,
    pub content_encoding: Option<String>,
    pub headers: Option<Table>,
    pub delivery_mode: Option<u8>,
    pub priority: Option<u8>,
    pub correlation_id: Option<String>,
    pub reply_to: Option<String>,
    pub expiration: Option<String>,
    pub message_id: Option<String>,
    pub timestamp: Option<u64>,
    pub message_type: Option<String>,
    pub user_id: Option<String>,
    pub app_id: Option<String>,
    pub cluster_id: Option<String>,
}

impl View for PropertiesBuilder {
    type V = PropertiesModel;

    open spec fn view(&self) -> PropertiesModel {
        PropertiesModel {
            content_type: spec_text(self.content_type),
            content_encoding: spec_text(self.content_encoding),
            headers: spec_headers(self.headers),
            delivery_mode: self.delivery_mode,
            priority: self.priority,
            correlation_id: spec_text(self.correlation_id),
            reply_to: spec_text(self.reply_to),
            expiration: spec_text(self.expiration),
            message_id: spec_text(self.message_id),
            timestamp: self.timestamp,
            message_type: spec_text(self.message_type),
            user_id: spec_text(self.user_id),
            app_id: spec_text(self.app_id),
            cluster_id: spec_text(self.cluster_id),
        }
    }
}

impl PropertiesBuilder {
    /// Sets `content_type`, and leaves the other fields as they are.
    pub fn content_type(self, content_type: String) -> (r: Self)
        ensures
            r@ == (PropertiesModel { content_type: Some(content_type@), ..self@ }),
    {
        let mut r = self;
        r.content_type = Some(content_type);
        r
    }

    /// Sets `content_encoding`, and leaves the other fields as they are.
    pub fn content_encoding(self, content_encoding: String) -> (r: Self)
        ensures
            r@ == (PropertiesModel { content_encoding: Some(content_encoding@), ..self@ }),
    {
        let mut r = self;
        r.content_encoding = Some(content_encoding);
        r
    }

    /// Sets `headers`, and leaves the other fields as they are.
    pub fn headers(self, headers: Vec<(String, Field)>) -> (r: Self)
        ensures
            r@ == (PropertiesModel { headers: Some(Table(headers)@), ..self@ }),
    {
        let mut r = self;
        r.headers = Some(Table(headers));
        r
    }

    /// Sets `delivery_mode`, and leaves the other fields as they are.
    pub fn delivery_mode(self, delivery_mode: u8) -> (r: Self)
        ensures
            r@ == (PropertiesModel { delivery_mode: Some(delivery_mode), ..self@ }),
    {
        let mut r = self;
        r.delivery_mode = Some(delivery_mode);
        r
    }

    /// Sets `priority`, and leaves the other fields as they are.
    pub fn priority(self, priority: u8) -> (r: Self)
        ensures
            r@ == (PropertiesModel { priority: Some(priority), ..self@ }),
    {
        let mut r = self;
        r.priority = Some(priority);
        r
    }

    /// Sets `correlation_id`, and leaves the other fields as they are.
    pub fn correlation_id(self, correlation_id: String) -> (r: Self)
        ensures
            r@ == (PropertiesModel { correlation_id: Some(correlation_id@), ..self@ }),
    {
        let mut r = self;
        r.correlation_id = Some(correlation_id);
        r
    }

    /// Sets `reply_to`, and leaves the other fields as they are.
    pub fn reply_to(self, reply_to: String) -> (r: Self)
        ensures
            r@ == (PropertiesModel { reply_to: Some(reply_to@), ..self@ }),
    {
        let mut r = self;
        r.reply_to = Some(reply_to);
        r
    }

    /// Sets `expiration`, and leaves the other fields as they are.
    pub fn expiration(self, expiration: String) -> (r: Self)
        ensures
            r@ == (PropertiesModel { expiration: Some(expiration@), ..self@ }),
    {
        let mut r = self;
        r.expiration = Some(expiration);
        r
    }

    /// Sets `message_id`, and leaves the other fields as they are.
    pub fn message_id(self, message_id: String) -> (r: Self)
        ensures
            r@ == (PropertiesModel { message_id: Some(message_id@), ..self@ }),
    {
        let mut r = self;
        r.message_id = Some(message_id);
        r
    }

    /// Sets `timestamp`, and leaves the other fields as they are.
    pub fn timestamp(self, timestamp: u64) -> (r: Self)
        ensures
            r@ == (PropertiesModel { timestamp: Some(timestamp), ..self@ }),
    {
        let mut r = self;
        r.timestamp = Some(timestamp);
        r
    }

    /// Sets `message_type`, and leaves the other fields as they are.
    pub fn message_type(self, message_type: String) -> (r: Self)
        ensures
            r@ == (PropertiesModel { message_type: Some(message_type@), ..self@ }),
    {
        let mut r = self;
        r.message_type = Some(message_type);
        r
    }

    /// Sets `user_id`, and leaves the other fields as they are.
    pub fn user_id(self, user_id: String) -> (r: Self)
        ensures
            r@ == (PropertiesModel { user_id: Some(user_id@), ..self@ }),
    {
        let mut r = self;
        r.user_id = Some(user_id);
        r
    }

    /// Sets `app_id`, and leaves the other fields as they are.
    pub fn app_id(self, app_id: String) -> (r: Self)
        ensures
            r@ == (PropertiesModel { app_id: Some(app_id@), ..self@ }),
    {
        let mut r = self;
        r.app_id = Some(app_id);
        r
    }

    /// Sets `cluster_id`, and leaves the other fields as they are.
    pub fn cluster_id(self, cluster_id: String) -> (r: Self)
        ensures
            r@ == (PropertiesModel { cluster_id: Some(cluster_id@), ..self@ }),
    {
        let mut r = self;
        r.cluster_id = Some(cluster_id);
        r
    }

    /// The properties that were collected.
    pub fn build(self) -> (r: Properties)
        ensures
            r@ == self@,
    {
        Properties {
            content_type: self.content_type,
            content_encoding: self.content_encoding,
            headers: self.headers,
            delivery_mode: self.delivery_mode,
            priority: self.priority,
            correlation_id: self.correlation_id,
            reply_to: self.reply_to,
            expiration: self.expiration,
            message_id: self.message_id,
            timestamp: self.timestamp,
            message_type: self.message_type,
            user_id: self.user_id,
            app_id: self.app_id,
            cluster_id: self.cluster_id,
        }
    }
}

/// The mask where the field is present, zero where it is absent.
#[verifier::opaque]
pub open spec fn spec_flag<T>(field: Option<T>, mask: u16) -> int {
    if field is Some {
        mask as int
    } else {
        0
    }
}

/// The flag word of the properties: one bit for each field that is present, from the
/// most significant bit down. The lowest bit stays clear: no further word follows.
pub open spec fn spec_property_flags(p: PropertiesModel) -> u16 {
    (
        spec_flag(p.content_type, CONTENT_TYPE)
            + spec_flag(p.content_encoding, CONTENT_ENCODING)
            + spec_flag(p.headers, HEADERS)
            + spec_flag(p.delivery_mode, DELIVERY_MODE)
            + spec_flag(p.priority, PRIORITY)
            + spec_flag(p.correlation_id, CORRELATION_ID)
            + spec_flag(p.reply_to, REPLY_TO)
            + spec_flag(p.expiration, EXPIRATION)
            + spec_flag(p.message_id, MESSAGE_ID)
            + spec_flag(p.timestamp, TIMESTAMP)
            + spec_flag(p.message_type, MESSAGE_TYPE)
            + spec_flag(p.user_id, USER_ID)
            + spec_flag(p.app_id, APP_ID)
            + spec_flag(p.cluster_id, CLUSTER_ID)
    ) as u16
}

/// Whether the bit of `mask`, a power of two, is set in `flags`.
#[verifier::opaque]
pub open spec fn spec_has_flag(flags: nat, mask: u16) -> bool {
    (flags / mask as nat) % 2 == 1
}

/// Whether `flags` marks exactly the fields of `p` that are present.
pub open spec fn spec_flags_match(flags: nat, p: PropertiesModel) -> bool {
    &&& spec_has_flag(flags, CONTENT_TYPE) == (p.content_type is Some)
    &&& spec_has_flag(flags, CONTENT_ENCODING) == (p.content_encoding is Some)
    &&& spec_has_flag(flags, HEADERS) == (p.headers is Some)
    &&& spec_has_flag(flags, DELIVERY_MODE) == (p.delivery_mode is Some)
    &&& spec_has_flag(flags, PRIORITY) == (p.priority is Some)
    &&& spec_has_flag(flags, CORRELATION_ID) == (p.correlation_id is Some)
    &&& spec_has_flag(flags, REPLY_TO) == (p.reply_to is Some)
    &&& spec_has_flag(flags, EXPIRATION) == (p.expiration is Some)
    &&& spec_has_flag(flags, MESSAGE_ID) == (p.message_id is Some)
    &&& spec_has_flag(flags, TIMESTAMP) == (p.timestamp is Some)
    &&& spec_has_flag(flags, MESSAGE_TYPE) == (p.message_type is Some)
    &&& spec_has_flag(flags, USER_ID) == (p.user_id is Some)
    &&& spec_has_flag(flags, APP_ID) == (p.app_id is Some)
    &&& spec_has_flag(flags, CLUSTER_ID) == (p.cluster_id is Some)
}

/// The wire form of an optional short string: nothing where it is absent.
pub open spec fn spec_encode_opt_short(o: Option<Seq<char>>) -> Result<Seq<u8>, EncodeError> {
    match o {
        Some(s) => spec_encode_short_string(s),
        None => Ok(Seq::empty()),
    }
}

/// The wire form of an optional table: nothing where it is absent.
pub open spec fn spec_encode_opt_table(o: Option<Seq<(Seq<char>, FieldModel)>>) -> Result<
    Seq<u8>,
    EncodeError,
> {
    match o {
        Some(t) => spec_encode_table(t),
        None => Ok(Seq::empty()),
    }
}

/// The wire form of an optional octet: nothing where it is absent.
pub open spec fn spec_encode_opt_u8(o: Option<u8>) -> Result<Seq<u8>, EncodeError> {
    match o {
        Some(v) => Ok(seq![v]),
        None => Ok(Seq::empty()),
    }
}

/// The wire form of an optional 64-bit integer: nothing where it is absent.
pub open spec fn spec_encode_opt_u64(o: Option<u64>) -> Result<Seq<u8>, EncodeError> {
    match o {
        Some(v) => Ok(spec_u64_bytes(v)),
        None => Ok(Seq::empty()),
    }
}

/// The wire form of the fields up to `content_type`, in declared order.
pub open spec fn spec_encode_fields_to_content_type(p: PropertiesModel) -> Result<
    Seq<u8>,
    EncodeError,
> {
    spec_encode_opt_short(p.content_type)
}

/// The wire form of the fields up to `content_encoding`, in declared order.
pub open spec fn spec_encode_fields_to_content_encoding(p: PropertiesModel) -> Result<
    Seq<u8>,
    EncodeError,
> {
    then(spec_encode_fields_to_content_type(p), spec_encode_opt_short(p.content_encoding))
}

/// The wire form of the fields up to `headers`, in declared order.
pub open spec fn spec_encode_fields_to_headers(p: PropertiesModel) -> Result<Seq<u8>, EncodeError> {
    then(spec_encode_fields_to_content_encoding(p), spec_encode_opt_table(p.headers))
}

/// The wire form of the fields up to `delivery_mode`, in declared order.
pub open spec fn spec_encode_fields_to_delivery_mode(p: PropertiesModel) -> Result<
    Seq<u8>,
    EncodeError,
> {
    then(spec_encode_fields_to_headers(p), spec_encode_opt_u8(p.delivery_mode))
}

/// The wire form of the fields up to `priority`, in declared order.
pub open spec fn spec_encode_fields_to_priority(p: PropertiesModel) -> Result<
    Seq<u8>,
    EncodeError,
> {
    then(spec_encode_fields_to_delivery_mode(p), spec_encode_opt_u8(p.priority))
}

/// The wire form of the fields up to `correlation_id`, in declared order.
pub open spec fn spec_encode_fields_to_correlation_id(p: PropertiesModel) -> Result<
    Seq<u8>,
    EncodeError,
> {
    then(spec_encode_fields_to_priority(p), spec_encode_opt_short(p.correlation_id))
}

/// The wire form of the fields up to `reply_to`, in declared order.
pub open spec fn spec_encode_fields_to_reply_to(p: PropertiesModel) -> Result<
    Seq<u8>,
    EncodeError,
> {
    then(spec_encode_fields_to_correlation_id(p), spec_encode_opt_short(p.reply_to))
}

/// The wire form of the fields up to `expiration`, in declared order.
pub open spec fn spec_encode_fields_to_expiration(p: PropertiesModel) -> Result<
    Seq<u8>,
    EncodeError,
> {
    then(spec_encode_fields_to_reply_to(p), spec_encode_opt_short(p.expiration))
}

/// The wire form of the fields up to `message_id`, in declared order.
pub open spec fn spec_encode_fields_to_message_id(p: PropertiesModel) -> Result<
    Seq<u8>,
    EncodeError,
> {
    then(spec_encode_fields_to_expiration(p), spec_encode_opt_short(p.message_id))
}

/// The wire form of the fields up to `timestamp`, in declared order.
pub open spec fn spec_encode_fields_to_timestamp(p: PropertiesModel) -> Result<
    Seq<u8>,
    EncodeError,
> {
    then(spec_encode_fields_to_message_id(p), spec_encode_opt_u64(p.timestamp))
}

/// The wire form of the fields up to `message_type`, in declared order.
pub open spec fn spec_encode_fields_to_message_type(p: PropertiesModel) -> Result<
    Seq<u8>,
    EncodeError,
> {
    then(spec_encode_fields_to_timestamp(p), spec_encode_opt_short(p.message_type))
}

/// The wire form of the fields up to `user_id`, in declared order.
pub open spec fn spec_encode_fields_to_user_id(p: PropertiesModel) -> Result<Seq<u8>, EncodeError> {
    then(spec_encode_fields_to_message_type(p), spec_encode_opt_short(p.user_id))
}

/// The wire form of the fields up to `app_id`, in declared order.
pub open spec fn spec_encode_fields_to_app_id(p: PropertiesModel) -> Result<Seq<u8>, EncodeError> {
    then(spec_encode_fields_to_user_id(p), spec_encode_opt_short(p.app_id))
}

/// The wire form of the fields up to `cluster_id`, in declared order.
pub open spec fn spec_encode_fields_to_cluster_id(p: PropertiesModel) -> Result<
    Seq<u8>,
    EncodeError,
> {
    then(spec_encode_fields_to_app_id(p), spec_encode_opt_short(p.cluster_id))
}

/// The wire form of the fields that are present, in declared order.
pub open spec fn spec_encode_fields(p: PropertiesModel) -> Result<Seq<u8>, EncodeError> {
    spec_encode_fields_to_cluster_id(p)
}

/// The wire form of the properties: one flag word, then the fields that are present.
pub open spec fn spec_encode_properties(p: PropertiesModel) -> Result<Seq<u8>, EncodeError> {
    then(Ok(spec_u16_bytes(spec_property_flags(p))), spec_encode_fields(p))
}

/// The flag words that stand in `b` at `pos`, from word `index` of the flag space on: a
/// word whose lowest bit is set is followed by a further word, which counts 65536 times
/// as much. The flag space has room for four words.
pub open spec fn spec_decode_flag_words(b: Seq<u8>, pos: int, index: nat) -> Result<
    (nat, int),
    DecodeError,
>
    decreases 4 - index,
{
    if index >= 4 {
        Err(DecodeError::TooManyFlagWords)
    } else {
        match spec_decode_u16(b, pos) {
            Err(e) => Err(e),
            Ok((word, next)) => if word % 2 == 1 {
                match spec_decode_flag_words(b, next, index + 1) {
                    Err(e) => Err(e),
                    Ok((higher, end)) => Ok((word as nat + 0x1_0000 * higher, end)),
                }
            } else {
                Ok((word as nat, next))
            },
        }
    }
}

/// The short string at `pos` where `flags` announces the field; nothing, and no step
/// forward, where it is absent.
#[verifier::opaque]
pub open spec fn spec_decode_opt_short(flags: nat, mask: u16, b: Seq<u8>, pos: int) -> Result<
    (Option<Seq<char>>, int),
    DecodeError,
> {
    if spec_has_flag(flags, mask) {
        match spec_decode_short_string(b, pos) {
            Err(e) => Err(e),
            Ok((s, next)) => Ok((Some(s), next)),
        }
    } else {
        Ok((None, pos))
    }
}

/// The table at `pos` where `flags` announces the field; nothing, and no step forward, where it
/// is absent.
#[verifier::opaque]
pub open spec fn spec_decode_opt_table(flags: nat, mask: u16, b: Seq<u8>, pos: int) -> Result<
    (Option<Seq<(Seq<char>, FieldModel)>>, int),
    DecodeError,
> {
    if spec_has_flag(flags, mask) {
        match spec_decode_table(b, pos, MAX_TABLE_DEPTH as nat) {
            Err(e) => Err(e),
            Ok((t, next)) => Ok((Some(t), next)),
        }
    } else {
        Ok((None, pos))
    }
}

/// The octet at `pos` where `flags` announces the field; nothing, and no step forward, where it
/// is absent.
#[verifier::opaque]
pub open spec fn spec_decode_opt_u8(flags: nat, mask: u16, b: Seq<u8>, pos: int) -> Result<
    (Option<u8>, int),
    DecodeError,
> {
    if spec_has_flag(flags, mask) {
        match spec_decode_u8(b, pos) {
            Err(e) => Err(e),
            Ok((v, next)) => Ok((Some(v), next)),
        }
    } else {
        Ok((None, pos))
    }
}

/// The 64-bit integer at `pos` where `flags` announces the field; nothing, and no step forward,
/// where it is absent.
#[verifier::opaque]
pub open spec fn spec_decode_opt_u64(flags: nat, mask: u16, b: Seq<u8>, pos: int) -> Result<
    (Option<u64>, int),
    DecodeError,
> {
    if spec_has_flag(flags, mask) {
        match spec_decode_u64(b, pos) {
            Err(e) => Err(e),
            Ok((v, next)) => Ok((Some(v), next)),
        }
    } else {
        Ok((None, pos))
    }
}


/// The fields up to `content_type`, read from `b` at `pos` in declared order as far as `flags`
/// announces them.
pub open spec fn spec_decode_fields_to_content_type(flags: nat, b: Seq<u8>, pos: int) -> Result<
    (PropertiesModel, int),
    DecodeError,
> {
    match spec_decode_opt_short(flags, CONTENT_TYPE, b, pos) {
        Err(e) => Err(e),
        Ok((v, next)) => Ok(
            (PropertiesModel { content_type: v, ..PropertiesModel::empty() }, next),
        ),
    }
}

/// The fields up to `content_encoding`, read from `b` at `pos` in declared order as far as `flags`
/// announces them.
pub open spec fn spec_decode_fields_to_content_encoding(flags: nat, b: Seq<u8>, pos: int) -> Result<
    (PropertiesModel, int),
    DecodeError,
> {
    match spec_decode_fields_to_content_type(flags, b, pos) {
        Err(e) => Err(e),
        Ok((p, at)) => match spec_decode_opt_short(flags, CONTENT_ENCODING, b, at) {
            Err(e) => Err(e),
            Ok((v, next)) => Ok((PropertiesModel { content_encoding: v, ..p }, next)),
        },
    }
}

/// The fields up to `headers`, read from `b` at `pos` in declared order as far as `flags`
/// announces them.
pub open spec fn spec_decode_fields_to_headers(flags: nat, b: Seq<u8>, pos: int) -> Result<
    (PropertiesModel, int),
    DecodeError,
> {
    match spec_decode_fields_to_content_encoding(flags, b, pos) {
        Err(e) => Err(e),
        Ok((p, at)) => match spec_decode_opt_table(flags, HEADERS, b, at) {
            Err(e) => Err(e),
            Ok((v, next)) => Ok((PropertiesModel { headers: v, ..p }, next)),
        },
    }
}

/// The fields up to `delivery_mode`, read from `b` at `pos` in declared order as far as `flags`
/// announces them.
pub open spec fn spec_decode_fields_to_delivery_mode(flags: nat, b: Seq<u8>, pos: int) -> Result<
    (PropertiesModel, int),
    DecodeError,
> {
    match spec_decode_fields_to_headers(flags, b, pos) {
        Err(e) => Err(e),
        Ok((p, at)) => match spec_decode_opt_u8(flags, DELIVERY_MODE, b, at) {
            Err(e) => Err(e),
            Ok((v, next)) => Ok((PropertiesModel { delivery_mode: v, ..p }, next)),
        },
    }
}

/// The fields up to `priority`, read from `b` at `pos` in declared order as far as `flags`
/// announces them.
pub open spec fn spec_decode_fields_to_priority(flags: nat, b: Seq<u8>, pos: int) -> Result<
    (PropertiesModel, int),
    DecodeError,
> {
    match spec_decode_fields_to_delivery_mode(flags, b, pos) {
        Err(e) => Err(e),
        Ok((p, at)) => match spec_decode_opt_u8(flags, PRIORITY, b, at) {
            Err(e) => Err(e),
            Ok((v, next)) => Ok((PropertiesModel { priority: v, ..p }, next)),
        },
    }
}

/// The fields up to `correlation_id`, read from `b` at `pos` in declared order as far as `flags`
/// announces them.
pub open spec fn spec_decode_fields_to_correlation_id(flags: nat, b: Seq<u8>, pos: int) -> Result<
    (PropertiesModel, int),
    DecodeError,
> {
    match spec_decode_fields_to_priority(flags, b, pos) {
        Err(e) => Err(e),
        Ok((p, at)) => match spec_decode_opt_short(flags, CORRELATION_ID, b, at) {
            Err(e) => Err(e),
            Ok((v, next)) => Ok((PropertiesModel { correlation_id: v, ..p }, next)),
        },
    }
}

/// The fields up to `reply_to`, read from `b` at `pos` in declared order as far as `flags`
/// announces them.
pub open spec fn spec_decode_fields_to_reply_to(flags: nat, b: Seq<u8>, pos: int) -> Result<
    (PropertiesModel, int),
    DecodeError,
> {
    match spec_decode_fields_to_correlation_id(flags, b, pos) {
        Err(e) => Err(e),
        Ok((p, at)) => match spec_decode_opt_short(flags, REPLY_TO, b, at) {
            Err(e) => Err(e),
            Ok((v, next)) => Ok((PropertiesModel { reply_to: v, ..p }, next)),
        },
    }
}

/// The fields up to `expiration`, read from `b` at `pos` in declared order as far as `flags`
/// announces them.
pub open spec fn spec_decode_fields_to_expiration(flags: nat, b: Seq<u8>, pos: int) -> Result<
    (PropertiesModel, int),
    DecodeError,
> {
    match spec_decode_fields_to_reply_to(flags, b, pos) {
        Err(e) => Err(e),
        Ok((p, at)) => match spec_decode_opt_short(flags, EXPIRATION, b, at) {
            Err(e) => Err(e),
            Ok((v, next)) => Ok((PropertiesModel { expiration: v, ..p }, next)),
        },
    }
}

/// The fields up to `message_id`, read from `b` at `pos` in declared order as far as `flags`
/// announces them.
pub open spec fn spec_decode_fields_to_message_id(flags: nat, b: Seq<u8>, pos: int) -> Result<
    (PropertiesModel, int),
    DecodeError,
> {
    match spec_decode_fields_to_expiration(flags, b, pos) {
        Err(e) => Err(e),
        Ok((p, at)) => match spec_decode_opt_short(flags, MESSAGE_ID, b, at) {
            Err(e) => Err(e),
            Ok((v, next)) => Ok((PropertiesModel { message_id: v, ..p }, next)),
        },
    }
}

/// The fields up to `timestamp`, read from `b` at `pos` in declared order as far as `flags`
/// announces them.
pub open spec fn spec_decode_fields_to_timestamp(flags: nat, b: Seq<u8>, pos: int) -> Result<
    (PropertiesModel, int),
    DecodeError,
> {
    match spec_decode_fields_to_message_id(flags, b, pos) {
        Err(e) => Err(e),
        Ok((p, at)) => match spec_decode_opt_u64(flags, TIMESTAMP, b, at) {
            Err(e) => Err(e),
            Ok((v, next)) => Ok((PropertiesModel { timestamp: v, ..p }, next)),
        },
    }
}

/// The fields up to `message_type`, read from `b` at `pos` in declared order as far as `flags`
/// announces them.
pub open spec fn spec_decode_fields_to_message_type(flags: nat, b: Seq<u8>, pos: int) -> Result<
    (PropertiesModel, int),
    DecodeError,
> {
    match spec_decode_fields_to_timestamp(flags, b, pos) {
        Err(e) => Err(e),
        Ok((p, at)) => match spec_decode_opt_short(flags, MESSAGE_TYPE, b, at) {
            Err(e) => Err(e),
            Ok((v, next)) => Ok((PropertiesModel { message_type: v, ..p }, next)),
        },
    }
}

/// The fields up to `user_id`, read from `b` at `pos` in declared order as far as `flags`
/// announces them.
pub open spec fn spec_decode_fields_to_user_id(flags: nat, b: Seq<u8>, pos: int) -> Result<
    (PropertiesModel, int),
    DecodeError,
> {
    match spec_decode_fields_to_message_type(flags, b, pos) {
        Err(e) => Err(e),
        Ok((p, at)) => match spec_decode_opt_short(flags, USER_ID, b, at) {
            Err(e) => Err(e),
            Ok((v, next)) => Ok((PropertiesModel { user_id: v, ..p }, next)),
        },
    }
}

/// The fields up to `app_id`, read from `b` at `pos` in declared order as far as `flags`
/// announces them.
pub open spec fn spec_decode_fields_to_app_id(flags: nat, b: Seq<u8>, pos: int) -> Result<
    (PropertiesModel, int),
    DecodeError,
> {
    match spec_decode_fields_to_user_id(flags, b, pos) {
        Err(e) => Err(e),
        Ok((p, at)) => match spec_decode_opt_short(flags, APP_ID, b, at) {
            Err(e) => Err(e),
            Ok((v, next)) => Ok((PropertiesModel { app_id: v, ..p }, next)),
        },
    }
}

/// The fields up to `cluster_id`, read from `b` at `pos` in declared order as far as `flags`
/// announces them.
pub open spec fn spec_decode_fields_to_cluster_id(flags: nat, b: Seq<u8>, pos: int) -> Result<
    (PropertiesModel, int),
    DecodeError,
> {
    match spec_decode_fields_to_app_id(flags, b, pos) {
        Err(e) => Err(e),
        Ok((p, at)) => match spec_decode_opt_short(flags, CLUSTER_ID, b, at) {
            Err(e) => Err(e),
            Ok((v, next)) => Ok((PropertiesModel { cluster_id: v, ..p }, next)),
        },
    }
}

/// The fields that `flags` announces, read from `b` at `pos` in declared order.
pub open spec fn spec_decode_fields(flags: nat, b: Seq<u8>, pos: int) -> Result<
    (PropertiesModel, int),
    DecodeError,
> {
    spec_decode_fields_to_cluster_id(flags, b, pos)
}

/// The properties that stand in `b` at `pos`: the flag words, then the fields that they
/// announce.
pub open spec fn spec_decode_properties(b: Seq<u8>, pos: int) -> Result<
    (PropertiesModel, int),
    DecodeError,
> {
    match spec_decode_flag_words(b, pos, 0) {
        Err(e) => Err(e),
        Ok((flags, next)) => spec_decode_fields(flags, b, next),
    }
}


fn encode_opt_short(o: &Option<String>) -> (r: Result<Vec<u8>, EncodeError>)
    ensures
        encodes_as(r, spec_encode_opt_short(spec_text(*o))),
{
    match o {
        Some(s) => encode_short_string(s.as_str()),
        None => Ok(Vec::new()),
    }
}

fn encode_opt_table(o: &Option<Table>) -> (r: Result<Vec<u8>, EncodeError>)
    ensures
        encodes_as(r, spec_encode_opt_table(spec_headers(*o))),
{
    match o {
        Some(t) => t.to_bytes(),
        None => Ok(Vec::new()),
    }
}

fn encode_opt_u8(o: &Option<u8>) -> (r: Result<Vec<u8>, EncodeError>)
    ensures
        encodes_as(r, spec_encode_opt_u8(*o)),
{
    let mut out: Vec<u8> = Vec::new();
    if let Some(v) = o {
        out.push(*v);
    }
    Ok(out)
}

fn encode_opt_u64(o: &Option<u64>) -> (r: Result<Vec<u8>, EncodeError>)
    ensures
        encodes_as(r, spec_encode_opt_u64(*o)),
{
    let mut out: Vec<u8> = Vec::new();
    if let Some(v) = o {
        put_u64(&mut out, *v);
    }
    Ok(out)
}

fn flag<T>(field: &Option<T>, mask: u16) -> (r: u16)
    ensures
        r == spec_flag(*field, mask),
        r <= mask,
{
    reveal(spec_flag);
    if field.is_some() {
        mask
    } else {
        0
    }
}

impl Properties {
    /// The flag word: one bit for each field that is present.
    pub fn flags(&self) -> (r: u16)
        ensures
            r == spec_property_flags(self@),
    {
        let mut flags: u16 = 0;
        flags = flags + flag(&self.content_type, CONTENT_TYPE);
        assert(
            spec_flag(self.content_type, CONTENT_TYPE)
                == spec_flag(self@.content_type, CONTENT_TYPE)
        ) by {
            reveal(spec_flag);
        }
        flags = flags + flag(&self.content_encoding, CONTENT_ENCODING);
        assert(
            spec_flag(self.content_encoding, CONTENT_ENCODING)
                == spec_flag(self@.content_encoding, CONTENT_ENCODING)
        ) by {
            reveal(spec_flag);
        }
        flags = flags + flag(&self.headers, HEADERS);
        assert(spec_flag(self.headers, HEADERS) == spec_flag(self@.headers, HEADERS)) by {
            reveal(spec_flag);
        }
        flags = flags + flag(&self.delivery_mode, DELIVERY_MODE);
        assert(
            spec_flag(self.delivery_mode, DELIVERY_MODE)
                == spec_flag(self@.delivery_mode, DELIVERY_MODE)
        ) by {
            reveal(spec_flag);
        }
        flags = flags + flag(&self.priority, PRIORITY);
        assert(spec_flag(self.priority, PRIORITY) == spec_flag(self@.priority, PRIORITY)) by {
            reveal(spec_flag);
        }
        flags = flags + flag(&self.correlation_id, CORRELATION_ID);
        assert(
            spec_flag(self.correlation_id, CORRELATION_ID)
                == spec_flag(self@.correlation_id, CORRELATION_ID)
        ) by {
            reveal(spec_flag);
        }
        flags = flags + flag(&self.reply_to, REPLY_TO);
        assert(spec_flag(self.reply_to, REPLY_TO) == spec_flag(self@.reply_to, REPLY_TO)) by {
            reveal(spec_flag);
        }
        flags = flags + flag(&self.expiration, EXPIRATION);
        assert(
            spec_flag(self.expiration, EXPIRATION) == spec_flag(self@.expiration, EXPIRATION)
        ) by {
            reveal(spec_flag);
        }
        flags = flags + flag(&self.message_id, MESSAGE_ID);
        assert(
            spec_flag(self.message_id, MESSAGE_ID) == spec_flag(self@.message_id, MESSAGE_ID)
        ) by {
            reveal(spec_flag);
        }
        flags = flags + flag(&self.timestamp, TIMESTAMP);
        assert(spec_flag(self.timestamp, TIMESTAMP) == spec_flag(self@.timestamp, TIMESTAMP)) by {
            reveal(spec_flag);
        }
        flags = flags + flag(&self.message_type, MESSAGE_TYPE);
        assert(
            spec_flag(self.message_type, MESSAGE_TYPE)
                == spec_flag(self@.message_type, MESSAGE_TYPE)
        ) by {
            reveal(spec_flag);
        }
        flags = flags + flag(&self.user_id, USER_ID);
        assert(spec_flag(self.user_id, USER_ID) == spec_flag(self@.user_id, USER_ID)) by {
            reveal(spec_flag);
        }
        flags = flags + flag(&self.app_id, APP_ID);
        assert(spec_flag(self.app_id, APP_ID) == spec_flag(self@.app_id, APP_ID)) by {
            reveal(spec_flag);
        }
        flags = flags + flag(&self.cluster_id, CLUSTER_ID);
        assert(
            spec_flag(self.cluster_id, CLUSTER_ID) == spec_flag(self@.cluster_id, CLUSTER_ID)
        ) by {
            reveal(spec_flag);
        }
        flags
    }

    fn encode_fields(&self) -> (r: Result<Vec<u8>, EncodeError>)
        ensures
            encodes_as(r, spec_encode_fields(self@)),
    {
        let mut out = encode_opt_short(&self.content_type)?;
        put_bytes(&mut out, encode_opt_short(&self.content_encoding)?);
        put_bytes(&mut out, encode_opt_table(&self.headers)?);
        put_bytes(&mut out, encode_opt_u8(&self.delivery_mode)?);
        put_bytes(&mut out, encode_opt_u8(&self.priority)?);
        put_bytes(&mut out, encode_opt_short(&self.correlation_id)?);
        put_bytes(&mut out, encode_opt_short(&self.reply_to)?);
        put_bytes(&mut out, encode_opt_short(&self.expiration)?);
        put_bytes(&mut out, encode_opt_short(&self.message_id)?);
        put_bytes(&mut out, encode_opt_u64(&self.timestamp)?);
        put_bytes(&mut out, encode_opt_short(&self.message_type)?);
        put_bytes(&mut out, encode_opt_short(&self.user_id)?);
        put_bytes(&mut out, encode_opt_short(&self.app_id)?);
        put_bytes(&mut out, encode_opt_short(&self.cluster_id)?);
        Ok(out)
    }
}

impl Encode for Properties {
    open spec fn spec_encode(&self) -> Result<Seq<u8>, EncodeError> {
        spec_encode_properties(self@)
    }

    fn encode(&self) -> (r: Result<Vec<u8>, EncodeError>) {
        let mut out: Vec<u8> = Vec::new();
        put_u16(&mut out, self.flags());
        put_bytes(&mut out, self.encode_fields()?);
        Ok(out)
    }
}

/// How much the flag words from word `index` on can hold.
pub open spec fn spec_flag_space(index: nat) -> nat {
    if index == 0 {
        0x1_0000_0000_0000_0000
    } else if index == 1 {
        0x1_0000_0000_0000
    } else if index == 2 {
        0x1_0000_0000
    } else if index == 3 {
        0x1_0000
    } else {
        1
    }
}

fn decode_flag_words(buf: &[u8], pos: usize, index: usize) -> (r: Result<(u64, usize), DecodeError>)
    ensures
        match spec_decode_flag_words(buf@, pos as int, index as nat) {
            Ok((flags, next)) => r matches Ok((v, k)) && v as nat == flags && k as int == next
                && flags < spec_flag_space(index as nat),
            Err(e) => r matches Err(e2) && e2 == e,
        },
    decreases 4 - index,
{
    if index >= MAX_FLAG_WORDS {
        return Err(DecodeError::TooManyFlagWords);
    }
    let (word, next) = decode_u16(buf, pos)?;
    if word % 2 == 1 {
        let (higher, end) = decode_flag_words(buf, next, index + 1)?;
        Ok((word as u64 + 0x1_0000 * higher, end))
    } else {
        Ok((word as u64, next))
    }
}

fn has_flag(flags: u64, mask: u16) -> (r: bool)
    requires
        mask > 0,
    ensures
        r == spec_has_flag(flags as nat, mask),
{
    reveal(spec_has_flag);
    (flags / (mask as u64)) % 2 == 1
}

fn decode_opt_short(
    flags: u64,
    mask: u16,
    buf: &[u8],
    pos: usize,
) -> (r: Result<(Option<String>, usize), DecodeError>)
    requires
        mask > 0,
    ensures
        match spec_decode_opt_short(flags as nat, mask, buf@, pos as int) {
            Ok((m, next)) => r matches Ok((v, k)) && spec_text(v) == m && k as int == next,
            Err(e) => r matches Err(e2) && e2 == e,
        },
{
    reveal(spec_decode_opt_short);
    if has_flag(flags, mask) {
        let (s, next) = decode_short_string(buf, pos)?;
        Ok((Some(s.0), next))
    } else {
        Ok((None, pos))
    }
}

fn decode_opt_table(
    flags: u64,
    mask: u16,
    buf: &[u8],
    pos: usize,
) -> (r: Result<(Option<Table>, usize), DecodeError>)
    requires
        mask > 0,
    ensures
        match spec_decode_opt_table(flags as nat, mask, buf@, pos as int) {
            Ok((m, next)) => r matches Ok((v, k)) && spec_headers(v) == m && k as int == next,
            Err(e) => r matches Err(e2) && e2 == e,
        },
{
    reveal(spec_decode_opt_table);
    if has_flag(flags, mask) {
        let (t, next) = decode_table(buf, pos, MAX_TABLE_DEPTH)?;
        Ok((Some(t), next))
    } else {
        Ok((None, pos))
    }
}

fn decode_opt_u8(
    flags: u64,
    mask: u16,
    buf: &[u8],
    pos: usize,
) -> (r: Result<(Option<u8>, usize), DecodeError>)
    requires
        mask > 0,
    ensures
        match spec_decode_opt_u8(flags as nat, mask, buf@, pos as int) {
            Ok((m, next)) => r matches Ok((v, k)) && v == m && k as int == next,
            Err(e) => r matches Err(e2) && e2 == e,
        },
{
    reveal(spec_decode_opt_u8);
    if has_flag(flags, mask) {
        let (v, next) = decode_u8(buf, pos)?;
        Ok((Some(v), next))
    } else {
        Ok((None, pos))
    }
}

fn decode_opt_u64(
    flags: u64,
    mask: u16,
    buf: &[u8],
    pos: usize,
) -> (r: Result<(Option<u64>, usize), DecodeError>)
    requires
        mask > 0,
    ensures
        match spec_decode_opt_u64(flags as nat, mask, buf@, pos as int) {
            Ok((m, next)) => r matches Ok((v, k)) && v == m && k as int == next,
            Err(e) => r matches Err(e2) && e2 == e,
        },
{
    reveal(spec_decode_opt_u64);
    if has_flag(flags, mask) {
        let (v, next) = decode_u64(buf, pos)?;
        Ok((Some(v), next))
    } else {
        Ok((None, pos))
    }
}

fn decode_fields(flags: u64, buf: &[u8], pos: usize) -> (r: Result<
    (Properties, usize),
    DecodeError,
>)
    ensures
        decodes_as(r, spec_decode_fields(flags as nat, buf@, pos as int)),
{
    let at = pos;
    let ghost so_far = PropertiesModel::empty();
    let (content_type, at) = decode_opt_short(flags, CONTENT_TYPE, buf, at)?;
    proof {
        so_far = PropertiesModel { content_type: spec_text(content_type), ..so_far };
        assert(
            spec_decode_fields_to_content_type(flags as nat, buf@, pos as int)
                == Ok::<(PropertiesModel, int), DecodeError>((so_far, at as int))
        );
    }
    let (content_encoding, at) = decode_opt_short(flags, CONTENT_ENCODING, buf, at)?;
    proof {
        so_far = PropertiesModel { content_encoding: spec_text(content_encoding), ..so_far };
        assert(
            spec_decode_fields_to_content_encoding(flags as nat, buf@, pos as int)
                == Ok::<(PropertiesModel, int), DecodeError>((so_far, at as int))
        );
    }
    let (headers, at) = decode_opt_table(flags, HEADERS, buf, at)?;
    proof {
        so_far = PropertiesModel { headers: spec_headers(headers), ..so_far };
        assert(
            spec_decode_fields_to_headers(flags as nat, buf@, pos as int)
                == Ok::<(PropertiesModel, int), DecodeError>((so_far, at as int))
        );
    }
    let (delivery_mode, at) = decode_opt_u8(flags, DELIVERY_MODE, buf, at)?;
    proof {
        so_far = PropertiesModel { delivery_mode: delivery_mode, ..so_far };
        assert(
            spec_decode_fields_to_delivery_mode(flags as nat, buf@, pos as int)
                == Ok::<(PropertiesModel, int), DecodeError>((so_far, at as int))
        );
    }
    let (priority, at) = decode_opt_u8(flags, PRIORITY, buf, at)?;
    proof {
        so_far = PropertiesModel { priority: priority, ..so_far };
        assert(
            spec_decode_fields_to_priority(flags as nat, buf@, pos as int)
                == Ok::<(PropertiesModel, int), DecodeError>((so_far, at as int))
        );
    }
    let (correlation_id, at) = decode_opt_short(flags, CORRELATION_ID, buf, at)?;
    proof {
        so_far = PropertiesModel { correlation_id: spec_text(correlation_id), ..so_far };
        assert(
            spec_decode_fields_to_correlation_id(flags as nat, buf@, pos as int)
                == Ok::<(PropertiesModel, int), DecodeError>((so_far, at as int))
        );
    }
    let (reply_to, at) = decode_opt_short(flags, REPLY_TO, buf, at)?;
    proof {
        so_far = PropertiesModel { reply_to: spec_text(reply_to), ..so_far };
        assert(
            spec_decode_fields_to_reply_to(flags as nat, buf@, pos as int)
                == Ok::<(PropertiesModel, int), DecodeError>((so_far, at as int))
        );
    }
    let (expiration, at) = decode_opt_short(flags, EXPIRATION, buf, at)?;
    proof {
        so_far = PropertiesModel { expiration: spec_text(expiration), ..so_far };
        assert(
            spec_decode_fields_to_expiration(flags as nat, buf@, pos as int)
                == Ok::<(PropertiesModel, int), DecodeError>((so_far, at as int))
        );
    }
    let (message_id, at) = decode_opt_short(flags, MESSAGE_ID, buf, at)?;
    proof {
        so_far = PropertiesModel { message_id: spec_text(message_id), ..so_far };
        assert(
            spec_decode_fields_to_message_id(flags as nat, buf@, pos as int)
                == Ok::<(PropertiesModel, int), DecodeError>((so_far, at as int))
        );
    }
    let (timestamp, at) = decode_opt_u64(flags, TIMESTAMP, buf, at)?;
    proof {
        so_far = PropertiesModel { timestamp: timestamp, ..so_far };
        assert(
            spec_decode_fields_to_timestamp(flags as nat, buf@, pos as int)
                == Ok::<(PropertiesModel, int), DecodeError>((so_far, at as int))
        );
    }
    let (message_type, at) = decode_opt_short(flags, MESSAGE_TYPE, buf, at)?;
    proof {
        so_far = PropertiesModel { message_type: spec_text(message_type), ..so_far };
        assert(
            spec_decode_fields_to_message_type(flags as nat, buf@, pos as int)
                == Ok::<(PropertiesModel, int), DecodeError>((so_far, at as int))
        );
    }
    let (user_id, at) = decode_opt_short(flags, USER_ID, buf, at)?;
    proof {
        so_far = PropertiesModel { user_id: spec_text(user_id), ..so_far };
        assert(
            spec_decode_fields_to_user_id(flags as nat, buf@, pos as int)
                == Ok::<(PropertiesModel, int), DecodeError>((so_far, at as int))
        );
    }
    let (app_id, at) = decode_opt_short(flags, APP_ID, buf, at)?;
    proof {
        so_far = PropertiesModel { app_id: spec_text(app_id), ..so_far };
        assert(
            spec_decode_fields_to_app_id(flags as nat, buf@, pos as int)
                == Ok::<(PropertiesModel, int), DecodeError>((so_far, at as int))
        );
    }
    let (cluster_id, at) = decode_opt_short(flags, CLUSTER_ID, buf, at)?;
    proof {
        so_far = PropertiesModel { cluster_id: spec_text(cluster_id), ..so_far };
        assert(
            spec_decode_fields_to_cluster_id(flags as nat, buf@, pos as int)
                == Ok::<(PropertiesModel, int), DecodeError>((so_far, at as int))
        );
    }
    Ok(
        (
            Properties {
                content_type,
                content_encoding,
                headers,
                delivery_mode,
                priority,
                correlation_id,
                reply_to,
                expiration,
                message_id,
                timestamp,
                message_type,
                user_id,
                app_id,
                cluster_id,
            },
            at,
        ),
    )
}

impl Decode for Properties {
    open spec fn spec_decode(b: Seq<u8>, pos: int) -> Result<(PropertiesModel, int), DecodeError> {
        spec_decode_properties(b, pos)
    }

    fn decode(buf: &[u8], pos: usize) -> (r: Result<(Self, usize), DecodeError>) {
        let (flags, next) = decode_flag_words(buf, pos, 0)?;
        decode_fields(flags, buf, next)
    }
}


proof fn lemma_opt_short_round_trip(
    o: Option<Seq<char>>,
    flags: nat,
    mask: u16,
    b: Seq<u8>,
    pos: int,
)
    requires
        spec_has_flag(flags, mask) == (o is Some),
        spec_encode_opt_short(o) is Ok,
        holds_at(b, pos, spec_encode_opt_short(o)->Ok_0),
    ensures
        spec_decode_opt_short(flags, mask, b, pos) == Ok::<(Option<Seq<char>>, int), DecodeError>(
            (o, pos + spec_encode_opt_short(o)->Ok_0.len()),
        ),
{
    reveal(spec_decode_opt_short);
    if let Some(s) = o {
        lemma_short_string_round_trip(s, b, pos);
    }
}

proof fn lemma_opt_table_round_trip(
    o: Option<Seq<(Seq<char>, FieldModel)>>,
    flags: nat,
    mask: u16,
    b: Seq<u8>,
    pos: int,
)
    requires
        spec_has_flag(flags, mask) == (o is Some),
        spec_encode_opt_table(o) is Ok,
        o matches Some(t) ==> spec_entries_fit(t, 0, MAX_TABLE_DEPTH as nat),
        holds_at(b, pos, spec_encode_opt_table(o)->Ok_0),
    ensures
        spec_decode_opt_table(flags, mask, b, pos) == Ok::<
            (Option<Seq<(Seq<char>, FieldModel)>>, int),
            DecodeError,
        >((o, pos + spec_encode_opt_table(o)->Ok_0.len())),
{
    reveal(spec_decode_opt_table);
    if let Some(t) = o {
        lemma_table_round_trip(t, MAX_TABLE_DEPTH as nat, b, pos);
    }
}

proof fn lemma_opt_u8_round_trip(o: Option<u8>, flags: nat, mask: u16, b: Seq<u8>, pos: int)
    requires
        spec_has_flag(flags, mask) == (o is Some),
        holds_at(b, pos, spec_encode_opt_u8(o)->Ok_0),
    ensures
        spec_decode_opt_u8(flags, mask, b, pos) == Ok::<(Option<u8>, int), DecodeError>(
            (o, pos + spec_encode_opt_u8(o)->Ok_0.len()),
        ),
{
    reveal(spec_decode_opt_u8);
    if let Some(v) = o {
        lemma_holds_at_index(b, pos, seq![v], 0);
    }
}

proof fn lemma_opt_u64_round_trip(o: Option<u64>, flags: nat, mask: u16, b: Seq<u8>, pos: int)
    requires
        spec_has_flag(flags, mask) == (o is Some),
        holds_at(b, pos, spec_encode_opt_u64(o)->Ok_0),
    ensures
        spec_decode_opt_u64(flags, mask, b, pos) == Ok::<(Option<u64>, int), DecodeError>(
            (o, pos + spec_encode_opt_u64(o)->Ok_0.len()),
        ),
{
    reveal(spec_decode_opt_u64);
    if let Some(v) = o {
        lemma_u64_round_trip(v, b, pos);
    }
}

proof fn lemma_bit(x: nat, mask: nat, double: nat, above: nat, bit: nat, below: nat)
    requires
        mask > 0,
        double == 2 * mask,
        bit <= 1,
        below < mask,
        x == above * double + bit * mask + below,
    ensures
        (x / mask) % 2 == bit,
{
    assert(x == (2 * above + bit) * mask + below) by (nonlinear_arith)
        requires
            x == above * double + bit * mask + below,
            double == 2 * mask,
    ;
    vstd::arithmetic::div_mod::lemma_fundamental_div_mod_converse(
        x as int,
        mask as int,
        (2 * above + bit) as int,
        below as int,
    );
}

/// One where the field is present, zero where it is absent.
#[verifier::opaque]
pub open spec fn spec_present<T>(field: Option<T>) -> nat {
    if field is Some {
        1
    } else {
        0
    }
}

proof fn lemma_present<T>(field: Option<T>)
    ensures
        spec_present(field) <= 1,
        spec_present(field) == 1 <==> field is Some,
{
    reveal(spec_present);
}

/// The flag word of the properties is the sum of the masks of the fields that are present.
proof fn lemma_flag_word(p: PropertiesModel)
    ensures
        spec_property_flags(p) as nat
            == 32768 * spec_present(p.content_type)
                + 16384 * spec_present(p.content_encoding)
                + 8192 * spec_present(p.headers)
                + 4096 * spec_present(p.delivery_mode)
                + 2048 * spec_present(p.priority)
                + 1024 * spec_present(p.correlation_id)
                + 512 * spec_present(p.reply_to)
                + 256 * spec_present(p.expiration)
                + 128 * spec_present(p.message_id)
                + 64 * spec_present(p.timestamp)
                + 32 * spec_present(p.message_type)
                + 16 * spec_present(p.user_id)
                + 8 * spec_present(p.app_id)
                + 4 * spec_present(p.cluster_id),
        spec_property_flags(p) <= 0xfffc,
{
    assert(
        spec_flag(p.content_type, CONTENT_TYPE) == 32768 * spec_present(p.content_type)
            && spec_present(p.content_type) <= 1
    ) by {
        reveal(spec_flag);
        reveal(spec_present);
    }
    assert(
        spec_flag(p.content_encoding, CONTENT_ENCODING) == 16384 * spec_present(p.content_encoding)
            && spec_present(p.content_encoding) <= 1
    ) by {
        reveal(spec_flag);
        reveal(spec_present);
    }
    assert(
        spec_flag(p.headers, HEADERS) == 8192 * spec_present(p.headers)
            && spec_present(p.headers) <= 1
    ) by {
        reveal(spec_flag);
        reveal(spec_present);
    }
    assert(
        spec_flag(p.delivery_mode, DELIVERY_MODE) == 4096 * spec_present(p.delivery_mode)
            && spec_present(p.delivery_mode) <= 1
    ) by {
        reveal(spec_flag);
        reveal(spec_present);
    }
    assert(
        spec_flag(p.priority, PRIORITY) == 2048 * spec_present(p.priority)
            && spec_present(p.priority) <= 1
    ) by {
        reveal(spec_flag);
        reveal(spec_present);
    }
    assert(
        spec_flag(p.correlation_id, CORRELATION_ID) == 1024 * spec_present(p.correlation_id)
            && spec_present(p.correlation_id) <= 1
    ) by {
        reveal(spec_flag);
        reveal(spec_present);
    }
    assert(
        spec_flag(p.reply_to, REPLY_TO) == 512 * spec_present(p.reply_to)
            && spec_present(p.reply_to) <= 1
    ) by {
        reveal(spec_flag);
        reveal(spec_present);
    }
    assert(
        spec_flag(p.expiration, EXPIRATION) == 256 * spec_present(p.expiration)
            && spec_present(p.expiration) <= 1
    ) by {
        reveal(spec_flag);
        reveal(spec_present);
    }
    assert(
        spec_flag(p.message_id, MESSAGE_ID) == 128 * spec_present(p.message_id)
            && spec_present(p.message_id) <= 1
    ) by {
        reveal(spec_flag);
        reveal(spec_present);
    }
    assert(
        spec_flag(p.timestamp, TIMESTAMP) == 64 * spec_present(p.timestamp)
            && spec_present(p.timestamp) <= 1
    ) by {
        reveal(spec_flag);
        reveal(spec_present);
    }
    assert(
        spec_flag(p.message_type, MESSAGE_TYPE) == 32 * spec_present(p.message_type)
            && spec_present(p.message_type) <= 1
    ) by {
        reveal(spec_flag);
        reveal(spec_present);
    }
    assert(
        spec_flag(p.user_id, USER_ID) == 16 * spec_present(p.user_id)
            && spec_present(p.user_id) <= 1
    ) by {
        reveal(spec_flag);
        reveal(spec_present);
    }
    assert(
        spec_flag(p.app_id, APP_ID) == 8 * spec_present(p.app_id) && spec_present(p.app_id) <= 1
    ) by {
        reveal(spec_flag);
        reveal(spec_present);
    }
    assert(
        spec_flag(p.cluster_id, CLUSTER_ID) == 4 * spec_present(p.cluster_id)
            && spec_present(p.cluster_id) <= 1
    ) by {
        reveal(spec_flag);
        reveal(spec_present);
    }
}

/// The lowest bit of the flag word of the properties is clear.
pub proof fn lemma_flag_word_even(p: PropertiesModel)
    ensures
        spec_property_flags(p) % 2 == 0,
        spec_property_flags(p) + CONTINUATION < 0x1_0000,
{
    lemma_flag_word(p);
    let half = 16384 * spec_present(p.content_type)
            + 8192 * spec_present(p.content_encoding)
            + 4096 * spec_present(p.headers)
            + 2048 * spec_present(p.delivery_mode)
            + 1024 * spec_present(p.priority)
            + 512 * spec_present(p.correlation_id)
            + 256 * spec_present(p.reply_to)
            + 128 * spec_present(p.expiration)
            + 64 * spec_present(p.message_id)
            + 32 * spec_present(p.timestamp)
            + 16 * spec_present(p.message_type)
            + 8 * spec_present(p.user_id)
            + 4 * spec_present(p.app_id)
            + 2 * spec_present(p.cluster_id);
    assert(spec_property_flags(p) as nat == 2 * half);
}

proof fn lemma_flag_bits(
    x: nat,
    b0: nat,
    b1: nat,
    b2: nat,
    b3: nat,
    b4: nat,
    b5: nat,
    b6: nat,
    b7: nat,
    b8: nat,
    b9: nat,
    b10: nat,
    b11: nat,
    b12: nat,
    b13: nat,
    low: nat,
    high: nat,
)
    requires
        x
            == 32768 * b0
                + 16384 * b1
                + 8192 * b2
                + 4096 * b3
                + 2048 * b4
                + 1024 * b5
                + 512 * b6
                + 256 * b7
                + 128 * b8
                + 64 * b9
                + 32 * b10
                + 16 * b11
                + 8 * b12
                + 4 * b13
                + low
                + 0x1_0000 * high,
        b0 <= 1,
        b1 <= 1,
        b2 <= 1,
        b3 <= 1,
        b4 <= 1,
        b5 <= 1,
        b6 <= 1,
        b7 <= 1,
        b8 <= 1,
        b9 <= 1,
        b10 <= 1,
        b11 <= 1,
        b12 <= 1,
        b13 <= 1,
        low < 4,
    ensures
        (x / 32768) % 2 == b0,
        (x / 16384) % 2 == b1,
        (x / 8192) % 2 == b2,
        (x / 4096) % 2 == b3,
        (x / 2048) % 2 == b4,
        (x / 1024) % 2 == b5,
        (x / 512) % 2 == b6,
        (x / 256) % 2 == b7,
        (x / 128) % 2 == b8,
        (x / 64) % 2 == b9,
        (x / 32) % 2 == b10,
        (x / 16) % 2 == b11,
        (x / 8) % 2 == b12,
        (x / 4) % 2 == b13,
{
    // What stands below each bit, from the lowest bit up.
    let below13 = low;
    let below12 = 4 * b13 + below13;
    let below11 = 8 * b12 + below12;
    let below10 = 16 * b11 + below11;
    let below9 = 32 * b10 + below10;
    let below8 = 64 * b9 + below9;
    let below7 = 128 * b8 + below8;
    let below6 = 256 * b7 + below7;
    let below5 = 512 * b6 + below6;
    let below4 = 1024 * b5 + below5;
    let below3 = 2048 * b4 + below4;
    let below2 = 4096 * b3 + below3;
    let below1 = 8192 * b2 + below2;
    let below0 = 16384 * b1 + below1;
    // What stands above each bit, in units of twice its mask, from the highest bit down.
    let above0 = high;
    let above1 = 2 * above0 + b0;
    let above2 = 2 * above1 + b1;
    let above3 = 2 * above2 + b2;
    let above4 = 2 * above3 + b3;
    let above5 = 2 * above4 + b4;
    let above6 = 2 * above5 + b5;
    let above7 = 2 * above6 + b6;
    let above8 = 2 * above7 + b7;
    let above9 = 2 * above8 + b8;
    let above10 = 2 * above9 + b9;
    let above11 = 2 * above10 + b10;
    let above12 = 2 * above11 + b11;
    let above13 = 2 * above12 + b12;
    lemma_bit(x, 32768, 65536, above0, b0, below0);
    lemma_bit(x, 16384, 32768, above1, b1, below1);
    lemma_bit(x, 8192, 16384, above2, b2, below2);
    lemma_bit(x, 4096, 8192, above3, b3, below3);
    lemma_bit(x, 2048, 4096, above4, b4, below4);
    lemma_bit(x, 1024, 2048, above5, b5, below5);
    lemma_bit(x, 512, 1024, above6, b6, below6);
    lemma_bit(x, 256, 512, above7, b7, below7);
    lemma_bit(x, 128, 256, above8, b8, below8);
    lemma_bit(x, 64, 128, above9, b9, below9);
    lemma_bit(x, 32, 64, above10, b10, below10);
    lemma_bit(x, 16, 32, above11, b11, below11);
    lemma_bit(x, 8, 16, above12, b12, below12);
    lemma_bit(x, 4, 8, above13, b13, below13);
}

/// The flag word of the properties marks exactly the fields that are present, whatever the
/// two lowest bits and the further flag words hold.
pub proof fn lemma_flags_match(p: PropertiesModel, low: nat, high: nat)
    requires
        low < 4,
    ensures
        spec_flags_match(spec_property_flags(p) as nat + low + 0x1_0000 * high, p),
{
    reveal(spec_has_flag);
    lemma_flag_word(p);
    lemma_present(p.content_type);
    lemma_present(p.content_encoding);
    lemma_present(p.headers);
    lemma_present(p.delivery_mode);
    lemma_present(p.priority);
    lemma_present(p.correlation_id);
    lemma_present(p.reply_to);
    lemma_present(p.expiration);
    lemma_present(p.message_id);
    lemma_present(p.timestamp);
    lemma_present(p.message_type);
    lemma_present(p.user_id);
    lemma_present(p.app_id);
    lemma_present(p.cluster_id);
    lemma_flag_bits(
        spec_property_flags(p) as nat + low + 0x1_0000 * high,
        spec_present(p.content_type),
        spec_present(p.content_encoding),
        spec_present(p.headers),
        spec_present(p.delivery_mode),
        spec_present(p.priority),
        spec_present(p.correlation_id),
        spec_present(p.reply_to),
        spec_present(p.expiration),
        spec_present(p.message_id),
        spec_present(p.timestamp),
        spec_present(p.message_type),
        spec_present(p.user_id),
        spec_present(p.app_id),
        spec_present(p.cluster_id),
        low,
        high,
    );
}

/// Fields that stand at `pos` are read back as they were written, whenever the flags mark
/// exactly the fields that are present.
pub proof fn lemma_fields_round_trip(p: PropertiesModel, flags: nat, b: Seq<u8>, pos: int)
    requires
        spec_encode_fields(p) is Ok,
        spec_flags_match(flags, p),
        p.headers matches Some(t) ==> spec_entries_fit(t, 0, MAX_TABLE_DEPTH as nat),
        holds_at(b, pos, spec_encode_fields(p)->Ok_0),
    ensures
        spec_decode_fields(flags, b, pos) == Ok::<(PropertiesModel, int), DecodeError>(
            (p, pos + spec_encode_fields(p)->Ok_0.len()),
        ),
{
    lemma_holds_at_split(
        b,
        pos,
        spec_encode_fields_to_app_id(p)->Ok_0,
        spec_encode_opt_short(p.cluster_id)->Ok_0,
    );
    lemma_holds_at_split(
        b,
        pos,
        spec_encode_fields_to_user_id(p)->Ok_0,
        spec_encode_opt_short(p.app_id)->Ok_0,
    );
    lemma_holds_at_split(
        b,
        pos,
        spec_encode_fields_to_message_type(p)->Ok_0,
        spec_encode_opt_short(p.user_id)->Ok_0,
    );
    lemma_holds_at_split(
        b,
        pos,
        spec_encode_fields_to_timestamp(p)->Ok_0,
        spec_encode_opt_short(p.message_type)->Ok_0,
    );
    lemma_holds_at_split(
        b,
        pos,
        spec_encode_fields_to_message_id(p)->Ok_0,
        spec_encode_opt_u64(p.timestamp)->Ok_0,
    );
    lemma_holds_at_split(
        b,
        pos,
        spec_encode_fields_to_expiration(p)->Ok_0,
        spec_encode_opt_short(p.message_id)->Ok_0,
    );
    lemma_holds_at_split(
        b,
        pos,
        spec_encode_fields_to_reply_to(p)->Ok_0,
        spec_encode_opt_short(p.expiration)->Ok_0,
    );
    lemma_holds_at_split(
        b,
        pos,
        spec_encode_fields_to_correlation_id(p)->Ok_0,
        spec_encode_opt_short(p.reply_to)->Ok_0,
    );
    lemma_holds_at_split(
        b,
        pos,
        spec_encode_fields_to_priority(p)->Ok_0,
        spec_encode_opt_short(p.correlation_id)->Ok_0,
    );
    lemma_holds_at_split(
        b,
        pos,
        spec_encode_fields_to_delivery_mode(p)->Ok_0,
        spec_encode_opt_u8(p.priority)->Ok_0,
    );
    lemma_holds_at_split(
        b,
        pos,
        spec_encode_fields_to_headers(p)->Ok_0,
        spec_encode_opt_u8(p.delivery_mode)->Ok_0,
    );
    lemma_holds_at_split(
        b,
        pos,
        spec_encode_fields_to_content_encoding(p)->Ok_0,
        spec_encode_opt_table(p.headers)->Ok_0,
    );
    lemma_holds_at_split(
        b,
        pos,
        spec_encode_fields_to_content_type(p)->Ok_0,
        spec_encode_opt_short(p.content_encoding)->Ok_0,
    );
    let mut so_far = PropertiesModel::empty();
    let mut at = pos;
    lemma_opt_short_round_trip(p.content_type, flags, CONTENT_TYPE, b, at);
    so_far = PropertiesModel { content_type: p.content_type, ..so_far };
    at = pos + spec_encode_fields_to_content_type(p)->Ok_0.len();
    assert(
        spec_decode_fields_to_content_type(flags, b, pos)
            == Ok::<(PropertiesModel, int), DecodeError>((so_far, at))
    );
    lemma_opt_short_round_trip(p.content_encoding, flags, CONTENT_ENCODING, b, at);
    so_far = PropertiesModel { content_encoding: p.content_encoding, ..so_far };
    at = pos + spec_encode_fields_to_content_encoding(p)->Ok_0.len();
    assert(
        spec_decode_fields_to_content_encoding(flags, b, pos)
            == Ok::<(PropertiesModel, int), DecodeError>((so_far, at))
    );
    lemma_opt_table_round_trip(p.headers, flags, HEADERS, b, at);
    so_far = PropertiesModel { headers: p.headers, ..so_far };
    at = pos + spec_encode_fields_to_headers(p)->Ok_0.len();
    assert(
        spec_decode_fields_to_headers(flags, b, pos)
            == Ok::<(PropertiesModel, int), DecodeError>((so_far, at))
    );
    lemma_opt_u8_round_trip(p.delivery_mode, flags, DELIVERY_MODE, b, at);
    so_far = PropertiesModel { delivery_mode: p.delivery_mode, ..so_far };
    at = pos + spec_encode_fields_to_delivery_mode(p)->Ok_0.len();
    assert(
        spec_decode_fields_to_delivery_mode(flags, b, pos)
            == Ok::<(PropertiesModel, int), DecodeError>((so_far, at))
    );
    lemma_opt_u8_round_trip(p.priority, flags, PRIORITY, b, at);
    so_far = PropertiesModel { priority: p.priority, ..so_far };
    at = pos + spec_encode_fields_to_priority(p)->Ok_0.len();
    assert(
        spec_decode_fields_to_priority(flags, b, pos)
            == Ok::<(PropertiesModel, int), DecodeError>((so_far, at))
    );
    lemma_opt_short_round_trip(p.correlation_id, flags, CORRELATION_ID, b, at);
    so_far = PropertiesModel { correlation_id: p.correlation_id, ..so_far };
    at = pos + spec_encode_fields_to_correlation_id(p)->Ok_0.len();
    assert(
        spec_decode_fields_to_correlation_id(flags, b, pos)
            == Ok::<(PropertiesModel, int), DecodeError>((so_far, at))
    );
    lemma_opt_short_round_trip(p.reply_to, flags, REPLY_TO, b, at);
    so_far = PropertiesModel { reply_to: p.reply_to, ..so_far };
    at = pos + spec_encode_fields_to_reply_to(p)->Ok_0.len();
    assert(
        spec_decode_fields_to_reply_to(flags, b, pos)
            == Ok::<(PropertiesModel, int), DecodeError>((so_far, at))
    );
    lemma_opt_short_round_trip(p.expiration, flags, EXPIRATION, b, at);
    so_far = PropertiesModel { expiration: p.expiration, ..so_far };
    at = pos + spec_encode_fields_to_expiration(p)->Ok_0.len();
    assert(
        spec_decode_fields_to_expiration(flags, b, pos)
            == Ok::<(PropertiesModel, int), DecodeError>((so_far, at))
    );
    lemma_opt_short_round_trip(p.message_id, flags, MESSAGE_ID, b, at);
    so_far = PropertiesModel { message_id: p.message_id, ..so_far };
    at = pos + spec_encode_fields_to_message_id(p)->Ok_0.len();
    assert(
        spec_decode_fields_to_message_id(flags, b, pos)
            == Ok::<(PropertiesModel, int), DecodeError>((so_far, at))
    );
    lemma_opt_u64_round_trip(p.timestamp, flags, TIMESTAMP, b, at);
    so_far = PropertiesModel { timestamp: p.timestamp, ..so_far };
    at = pos + spec_encode_fields_to_timestamp(p)->Ok_0.len();
    assert(
        spec_decode_fields_to_timestamp(flags, b, pos)
            == Ok::<(PropertiesModel, int), DecodeError>((so_far, at))
    );
    lemma_opt_short_round_trip(p.message_type, flags, MESSAGE_TYPE, b, at);
    so_far = PropertiesModel { message_type: p.message_type, ..so_far };
    at = pos + spec_encode_fields_to_message_type(p)->Ok_0.len();
    assert(
        spec_decode_fields_to_message_type(flags, b, pos)
            == Ok::<(PropertiesModel, int), DecodeError>((so_far, at))
    );
    lemma_opt_short_round_trip(p.user_id, flags, USER_ID, b, at);
    so_far = PropertiesModel { user_id: p.user_id, ..so_far };
    at = pos + spec_encode_fields_to_user_id(p)->Ok_0.len();
    assert(
        spec_decode_fields_to_user_id(flags, b, pos)
            == Ok::<(PropertiesModel, int), DecodeError>((so_far, at))
    );
    lemma_opt_short_round_trip(p.app_id, flags, APP_ID, b, at);
    so_far = PropertiesModel { app_id: p.app_id, ..so_far };
    at = pos + spec_encode_fields_to_app_id(p)->Ok_0.len();
    assert(
        spec_decode_fields_to_app_id(flags, b, pos)
            == Ok::<(PropertiesModel, int), DecodeError>((so_far, at))
    );
    lemma_opt_short_round_trip(p.cluster_id, flags, CLUSTER_ID, b, at);
    so_far = PropertiesModel { cluster_id: p.cluster_id, ..so_far };
    at = pos + spec_encode_fields_to_cluster_id(p)->Ok_0.len();
    assert(
        spec_decode_fields_to_cluster_id(flags, b, pos)
            == Ok::<(PropertiesModel, int), DecodeError>((so_far, at))
    );
}

/// Properties that stand at `pos` are read back as they were written.
pub proof fn lemma_properties_round_trip(p: PropertiesModel, b: Seq<u8>, pos: int)
    requires
        spec_encode_properties(p) is Ok,
        p.headers matches Some(t) ==> spec_entries_fit(t, 0, MAX_TABLE_DEPTH as nat),
        holds_at(b, pos, spec_encode_properties(p)->Ok_0),
    ensures
        spec_decode_properties(b, pos) == Ok::<(PropertiesModel, int), DecodeError>(
            (p, pos + spec_encode_properties(p)->Ok_0.len()),
        ),
{
    let flags = spec_property_flags(p);
    let fields = spec_encode_fields(p)->Ok_0;
    lemma_holds_at_split(b, pos, spec_u16_bytes(flags), fields);
    lemma_u16_round_trip(flags, b, pos);
    lemma_flag_word_even(p);
    lemma_flags_match(p, 0, 0);
    lemma_fields_round_trip(p, flags as nat, b, pos + 2);
}

/// Properties whose flag word announces a further flag word, which announces none, are
/// read as the same properties, whatever else the further word holds.
pub proof fn lemma_properties_continuation(p: PropertiesModel, further: u16, b: Seq<u8>, pos: int)
    requires
        spec_encode_fields(p) is Ok,
        p.headers matches Some(t) ==> spec_entries_fit(t, 0, MAX_TABLE_DEPTH as nat),
        further % 2 == 0,
        holds_at(
            b,
            pos,
            spec_u16_bytes((spec_property_flags(p) + CONTINUATION) as u16) + spec_u16_bytes(further)
                + spec_encode_fields(p)->Ok_0,
        ),
    ensures
        spec_decode_properties(b, pos) == Ok::<(PropertiesModel, int), DecodeError>(
            (p, pos + 4 + spec_encode_fields(p)->Ok_0.len()),
        ),
{
    let flags = spec_property_flags(p);
    let first = (flags + CONTINUATION) as u16;
    let fields = spec_encode_fields(p)->Ok_0;
    lemma_flag_word_even(p);
    lemma_flags_match(p, 1, further as nat);
    lemma_holds_at_split(b, pos, spec_u16_bytes(first) + spec_u16_bytes(further), fields);
    lemma_holds_at_split(b, pos, spec_u16_bytes(first), spec_u16_bytes(further));
    lemma_u16_round_trip(first, b, pos);
    lemma_u16_round_trip(further, b, pos + 2);
    assert(spec_decode_flag_words(b, pos + 2, 1) == Ok::<(nat, int), DecodeError>(
        (further as nat, pos + 4),
    ));
    lemma_fields_round_trip(p, first as nat + 0x1_0000 * (further as nat), b, pos + 4);
}

} // verus!
