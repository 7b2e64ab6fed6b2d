//! Methods of the transaction class.
use vstd::prelude::*;

use crate::encde::class::ClassID;
use crate::encde::header::{FrameType, Header};
use crate::encde::integers::put_bytes;
use crate::encde::method::TransactionMethodId;
use crate::encde::{decodes_as, then, Decode, Encode};
use crate::errors::{DecodeError, EncodeError};

verus! {

/// What every method frame of the transaction class begins with.
#[derive(Debug, Clone, Copy, PartialEq, Eq, Structural)]
pub struct TransactionFrameInfo {
    pub header: Header,
    pub class_id: ClassID,
    pub method_id: TransactionMethodId,
}

impl View for TransactionFrameInfo {
    type V = TransactionFrameInfo;

    open spec fn view(&self) -> TransactionFrameInfo {
        *self
    }
}

impl TransactionFrameInfo {
    /// The start of a method frame of this class on `channel_id`, its size not yet set.
    pub open spec fn spec_new(
        channel_id: u16,
        method_id: TransactionMethodId,
    ) -> TransactionFrameInfo {
        TransactionFrameInfo {
            header: Header { frame_type: FrameType::Method, channel_id, size: 0 },
            class_id: ClassID::Transaction,
            method_id,
        }
    }

    /// The start of a method frame of this class on `channel_id`, its size not yet set.
    pub fn new(channel_id: u16, method_id: TransactionMethodId) -> (r: Self)
        ensures
            r == Self::spec_new(channel_id, method_id),
    {
        TransactionFrameInfo {
            header: Header { frame_type: FrameType::Method, channel_id, size: 0 },
            class_id: ClassID::Transaction,
            method_id,
        }
    }

    /// The start of the method frame that stands in `b` at `pos`, which must be a method
    /// frame of this class and carry the method that is expected.
    pub open spec fn spec_decode_expecting(
        b: Seq<u8>,
        pos: int,
        method_id: TransactionMethodId,
    ) -> Result<
        (TransactionFrameInfo, int),
        DecodeError,
    > {
        match Header::spec_decode(b, pos) {
            Err(e) => Err(e),
            Ok((header, at0)) => if header.frame_type != FrameType::Method {
                Err(DecodeError::UnexpectedFrame)
            } else {
                match ClassID::spec_decode(b, at0) {
                    Err(e) => Err(e),
                    Ok((class_id, at1)) => if class_id != ClassID::Transaction {
                        Err(DecodeError::UnexpectedMethod)
                    } else {
                        match TransactionMethodId::spec_decode(b, at1) {
                            Err(e) => Err(e),
                            Ok((found, next)) => if found != method_id {
                                Err(DecodeError::UnexpectedMethod)
                            } else {
                                Ok(((TransactionFrameInfo { header, class_id, method_id }), next))
                            },
                        }
                    },
                }
            },
        }
    }

    /// Reads the start of a method frame, and checks that it carries the method that is
    /// expected.
    pub fn decode_expecting(buf: &[u8], pos: usize, method_id: TransactionMethodId) -> (r: Result<
        (Self, usize),
        DecodeError,
    >)
        ensures
            decodes_as(r, Self::spec_decode_expecting(buf@, pos as int, method_id)),
    {
        let (header, at) = Header::decode(buf, pos)?;
        if header.frame_type != FrameType::Method {
            return Err(DecodeError::UnexpectedFrame);
        }
        let (class_id, at) = ClassID::decode(buf, at)?;
        if class_id != ClassID::Transaction {
            return Err(DecodeError::UnexpectedMethod);
        }
        let (found, at) = TransactionMethodId::decode(buf, at)?;
        if found != method_id {
            return Err(DecodeError::UnexpectedMethod);
        }
        Ok((TransactionFrameInfo { header, class_id, method_id }, at))
    }
}

impl Encode for TransactionFrameInfo {
    open spec fn spec_encode(&self) -> Result<Seq<u8>, EncodeError> {
        then(
            then(self.header.spec_encode(), self.class_id.spec_encode()),
            self.method_id.spec_encode(),
        )
    }

    fn encode(&self) -> (r: Result<Vec<u8>, EncodeError>) {
        let mut out = self.header.encode()?;
        put_bytes(&mut out, self.class_id.encode()?);
        put_bytes(&mut out, self.method_id.encode()?);
        Ok(out)
    }
}

impl Decode for TransactionFrameInfo {
    open spec fn spec_decode(b: Seq<u8>, pos: int) -> Result<
        (TransactionFrameInfo, int),
        DecodeError,
    > {
        match Header::spec_decode(b, pos) {
            Err(e) => Err(e),
            Ok((header, at0)) => match ClassID::spec_decode(b, at0) {
                Err(e) => Err(e),
                Ok((class_id, at1)) => match TransactionMethodId::spec_decode(b, at1) {
                    Err(e) => Err(e),
                    Ok((method_id, next)) => Ok(
                        ((TransactionFrameInfo { header, class_id, method_id }), next),
                    ),
                },
            },
        }
    }

    fn decode(buf: &[u8], pos: usize) -> (r: Result<(Self, usize), DecodeError>) {
        let (header, at) = Header::decode(buf, pos)?;
        let (class_id, at) = ClassID::decode(buf, at)?;
        let (method_id, at) = TransactionMethodId::decode(buf, at)?;
        Ok((TransactionFrameInfo { header, class_id, method_id }, at))
    }
}

/// `tx.select`: switches the channel to transactions.
#[derive(Debug, Clone, PartialEq, Eq)]
pub struct Select {
    pub frame_info: TransactionFrameInfo,
}

impl Select {
    /// A `tx.select` for `channel_id`.
    pub fn new(channel_id: u16) -> (r: Self)
        ensures
            r.frame_info == TransactionFrameInfo::spec_new(channel_id, TransactionMethodId::Select),
    {
        Select {
            frame_info: TransactionFrameInfo::new(channel_id, TransactionMethodId::Select),
        }
    }
}

impl Encode for Select {
    open spec fn spec_encode(&self) -> Result<Seq<u8>, EncodeError> {
        self.frame_info.spec_encode()
    }

    fn encode(&self) -> (r: Result<Vec<u8>, EncodeError>) {
        self.frame_info.encode()
    }
}

/// `tx.select-ok`: the channel works in transactions.
#[derive(Debug, Clone, PartialEq, Eq)]
pub struct SelectOk {
    pub frame_info: TransactionFrameInfo,
}

impl View for SelectOk {
    type V = (TransactionFrameInfo,);

    open spec fn view(&self) -> (TransactionFrameInfo,) {
        (self.frame_info,)
    }
}

impl Decode for SelectOk {
    open spec fn spec_decode(b: Seq<u8>, pos: int) -> Result<
        ((TransactionFrameInfo,), int),
        DecodeError,
    > {
        match TransactionFrameInfo::spec_decode_expecting(b, pos, TransactionMethodId::SelectOk) {
            Err(e) => Err(e),
            Ok((frame_info, next)) => Ok(((frame_info,), next)),
        }
    }

    fn decode(buf: &[u8], pos: usize) -> (r: Result<(Self, usize), DecodeError>) {
        let (frame_info, at) = TransactionFrameInfo::decode_expecting(
            buf,
            pos,
            TransactionMethodId::SelectOk,
        )?;
        Ok((SelectOk { frame_info }, at))
    }
}

/// `tx.commit`: commits the transaction.
#[derive(Debug, Clone, PartialEq, Eq)]
pub struct Commit {
    pub frame_info: TransactionFrameInfo,
}

impl Commit {
    /// A `tx.commit` for `channel_id`.
    pub fn new(channel_id: u16) -> (r: Self)
        ensures
            r.frame_info == TransactionFrameInfo::spec_new(channel_id, TransactionMethodId::Commit),
    {
        Commit {
            frame_info: TransactionFrameInfo::new(channel_id, TransactionMethodId::Commit),
        }
    }
}

impl Encode for Commit {
    open spec fn spec_encode(&self) -> Result<Seq<u8>, EncodeError> {
        self.frame_info.spec_encode()
    }

    fn encode(&self) -> (r: Result<Vec<u8>, EncodeError>) {
        self.frame_info.encode()
    }
}

/// `tx.commit-ok`: the transaction is committed.
#[derive(Debug, Clone, PartialEq, Eq)]
pub struct CommitOk {
    pub frame_info: TransactionFrameInfo,
}

impl View for CommitOk {
    type V = (TransactionFrameInfo,);

    open spec fn view(&self) -> (TransactionFrameInfo,) {
        (self.frame_info,)
    }
}

impl Decode for CommitOk {
    open spec fn spec_decode(b: Seq<u8>, pos: int) -> Result<
        ((TransactionFrameInfo,), int),
        DecodeError,
    > {
        match TransactionFrameInfo::spec_decode_expecting(b, pos, TransactionMethodId::CommitOk) {
            Err(e) => Err(e),
            Ok((frame_info, next)) => Ok(((frame_info,), next)),
        }
    }

    fn decode(buf: &[u8], pos: usize) -> (r: Result<(Self, usize), DecodeError>) {
        let (frame_info, at) = TransactionFrameInfo::decode_expecting(
            buf,
            pos,
            TransactionMethodId::CommitOk,
        )?;
        Ok((CommitOk { frame_info }, at))
    }
}

/// `tx.rollback`: abandons the transaction.
#[derive(Debug, Clone, PartialEq, Eq)]
pub struct Rollback {
    pub frame_info: TransactionFrameInfo,
}

impl Rollback {
    /// A `tx.rollback` for `channel_id`.
    pub fn new(channel_id: u16) -> (r: Self)
        ensures
            r.frame_info
                == TransactionFrameInfo::spec_new(channel_id, TransactionMethodId::Rollback),
    {
        Rollback {
            frame_info: TransactionFrameInfo::new(channel_id, TransactionMethodId::Rollback),
        }
    }
}

impl Encode for Rollback {
    open spec fn spec_encode(&self) -> Result<Seq<u8>, EncodeError> {
        self.frame_info.spec_encode()
    }

    fn encode(&self) -> (r: Result<Vec<u8>, EncodeError>) {
        self.frame_info.encode()
    }
}

/// `tx.rollback-ok`: the transaction is abandoned.
#[derive(Debug, Clone, PartialEq, Eq)]
pub struct RollbackOk {
    pub frame_info: TransactionFrameInfo,
}

impl View for RollbackOk {
    type V = (TransactionFrameInfo,);

    open spec fn view(&self) -> (TransactionFrameInfo,) {
        (self.frame_info,)
    }
}

impl Decode for RollbackOk {
    open spec fn spec_decode(b: Seq<u8>, pos: int) -> Result<
        ((TransactionFrameInfo,), int),
        DecodeError,
    > {
        match TransactionFrameInfo::spec_decode_expecting(b, pos, TransactionMethodId::RollbackOk) {
            Err(e) => Err(e),
            Ok((frame_info, next)) => Ok(((frame_info,), next)),
        }
    }

    fn decode(buf: &[u8], pos: usize) -> (r: Result<(Self, usize), DecodeError>) {
        let (frame_info, at) = TransactionFrameInfo::decode_expecting(
            buf,
            pos,
            TransactionMethodId::RollbackOk,
        )?;
        Ok((RollbackOk { frame_info }, at))
    }
}
} // verus!
