//! Method ids, class by class.
use vstd::prelude::*;

use crate::encde::integers::{decode_u16, put_u16, spec_decode_u16, spec_u16_bytes};
use crate::encde::{Decode, Encode};
use crate::errors::{DecodeError, EncodeError};

verus! {

/// The methods of the connection class.
#[derive(Debug, Clone, Copy, PartialEq, Eq, Structural)]
pub enum ConnectionMethodID {
    Start,
    StartOk,
    Secure,
    SecureOk,
    Tune,
    TuneOk,
    Open,
    OpenOk,
    Close,
    CloseOk,
}

impl View for ConnectionMethodID {
    type V = ConnectionMethodID;

    open spec fn view(&self) -> ConnectionMethodID {
        *self
    }
}

impl ConnectionMethodID {
    /// The number that stands for the method on the wire.
    pub open spec fn spec_id(self) -> u16 {
        match self {
            ConnectionMethodID::Start => 10,
            ConnectionMethodID::StartOk => 11,
            ConnectionMethodID::Secure => 20,
            ConnectionMethodID::SecureOk => 21,
            ConnectionMethodID::Tune => 30,
            ConnectionMethodID::TuneOk => 31,
            ConnectionMethodID::Open => 40,
            ConnectionMethodID::OpenOk => 41,
            ConnectionMethodID::Close => 50,
            ConnectionMethodID::CloseOk => 51,
        }
    }

    /// The method that a number stands for, if any.
    pub open spec fn spec_from_id(id: u16) -> Option<Self> {
        if id == 10 {
            Some(ConnectionMethodID::Start)
        } else if id == 11 {
            Some(ConnectionMethodID::StartOk)
        } else if id == 20 {
            Some(ConnectionMethodID::Secure)
        } else if id == 21 {
            Some(ConnectionMethodID::SecureOk)
        } else if id == 30 {
            Some(ConnectionMethodID::Tune)
        } else if id == 31 {
            Some(ConnectionMethodID::TuneOk)
        } else if id == 40 {
            Some(ConnectionMethodID::Open)
        } else if id == 41 {
            Some(ConnectionMethodID::OpenOk)
        } else if id == 50 {
            Some(ConnectionMethodID::Close)
        } else if id == 51 {
            Some(ConnectionMethodID::CloseOk)
        } else {
            None
        }
    }

    /// The number that stands for the method on the wire.
    pub fn id(&self) -> (r: u16)
        ensures
            r == self.spec_id(),
    {
        match self {
            ConnectionMethodID::Start => 10,
            ConnectionMethodID::StartOk => 11,
            ConnectionMethodID::Secure => 20,
            ConnectionMethodID::SecureOk => 21,
            ConnectionMethodID::Tune => 30,
            ConnectionMethodID::TuneOk => 31,
            ConnectionMethodID::Open => 40,
            ConnectionMethodID::OpenOk => 41,
            ConnectionMethodID::Close => 50,
            ConnectionMethodID::CloseOk => 51,
        }
    }

    /// The method that a number stands for, if any.
    pub fn from_id(id: u16) -> (r: Option<Self>)
        ensures
            r == Self::spec_from_id(id),
    {
        match id {
            10 => Some(ConnectionMethodID::Start),
            11 => Some(ConnectionMethodID::StartOk),
            20 => Some(ConnectionMethodID::Secure),
            21 => Some(ConnectionMethodID::SecureOk),
            30 => Some(ConnectionMethodID::Tune),
            31 => Some(ConnectionMethodID::TuneOk),
            40 => Some(ConnectionMethodID::Open),
            41 => Some(ConnectionMethodID::OpenOk),
            50 => Some(ConnectionMethodID::Close),
            51 => Some(ConnectionMethodID::CloseOk),
            _ => None,
        }
    }

    /// Every method is found again from its number.
    pub proof fn lemma_id_round_trip(self)
        ensures
            Self::spec_from_id(self.spec_id()) == Some(self),
    {
    }
}

impl Encode for ConnectionMethodID {
    open spec fn spec_encode(&self) -> Result<Seq<u8>, EncodeError> {
        Ok(spec_u16_bytes(self.spec_id()))
    }

    fn encode(&self) -> (r: Result<Vec<u8>, EncodeError>) {
        let mut out: Vec<u8> = Vec::new();
        put_u16(&mut out, self.id());
        Ok(out)
    }
}

impl Decode for ConnectionMethodID {
    open spec fn spec_decode(b: Seq<u8>, pos: int) -> Result<
        (ConnectionMethodID, int),
        DecodeError,
    > {
        match spec_decode_u16(b, pos) {
            Err(e) => Err(e),
            Ok((id, next)) => match Self::spec_from_id(id) {
                Some(v) => Ok((v, next)),
                None => Err(DecodeError::UnknownMethod),
            },
        }
    }

    fn decode(buf: &[u8], pos: usize) -> (r: Result<(Self, usize), DecodeError>) {
        let (id, next) = decode_u16(buf, pos)?;
        match Self::from_id(id) {
            Some(v) => Ok((v, next)),
            None => Err(DecodeError::UnknownMethod),
        }
    }
}

/// The methods of the channel class.
#[derive(Debug, Clone, Copy, PartialEq, Eq, Structural)]
pub enum ChannelMethodID {
    Open,
    OpenOk,
    Flow,
    FlowOk,
    Close,
    CloseOk,
}

impl View for ChannelMethodID {
    type V = ChannelMethodID;

    open spec fn view(&self) -> ChannelMethodID {
        *self
    }
}

impl ChannelMethodID {
    /// The number that stands for the method on the wire.
    pub open spec fn spec_id(self) -> u16 {
        match self {
            ChannelMethodID::Open => 10,
            ChannelMethodID::OpenOk => 11,
            ChannelMethodID::Flow => 20,
            ChannelMethodID::FlowOk => 21,
            ChannelMethodID::Close => 40,
            ChannelMethodID::CloseOk => 41,
        }
    }

    /// The method that a number stands for, if any.
    pub open spec fn spec_from_id(id: u16) -> Option<Self> {
        if id == 10 {
            Some(ChannelMethodID::Open)
        } else if id == 11 {
            Some(ChannelMethodID::OpenOk)
        } else if id == 20 {
            Some(ChannelMethodID::Flow)
        } else if id == 21 {
            Some(ChannelMethodID::FlowOk)
        } else if id == 40 {
            Some(ChannelMethodID::Close)
        } else if id == 41 {
            Some(ChannelMethodID::CloseOk)
        } else {
            None
        }
    }

    /// The number that stands for the method on the wire.
    pub fn id(&self) -> (r: u16)
        ensures
            r == self.spec_id(),
    {
        match self {
            ChannelMethodID::Open => 10,
            ChannelMethodID::OpenOk => 11,
            ChannelMethodID::Flow => 20,
            ChannelMethodID::FlowOk => 21,
            ChannelMethodID::Close => 40,
            ChannelMethodID::CloseOk => 41,
        }
    }

    /// The method that a number stands for, if any.
    pub fn from_id(id: u16) -> (r: Option<Self>)
        ensures
            r == Self::spec_from_id(id),
    {
        match id {
            10 => Some(ChannelMethodID::Open),
            11 => Some(ChannelMethodID::OpenOk),
            20 => Some(ChannelMethodID::Flow),
            21 => Some(ChannelMethodID::FlowOk),
            40 => Some(ChannelMethodID::Close),
            41 => Some(ChannelMethodID::CloseOk),
            _ => None,
        }
    }

    /// Every method is found again from its number.
    pub proof fn lemma_id_round_trip(self)
        ensures
            Self::spec_from_id(self.spec_id()) == Some(self),
    {
    }
}

impl Encode for ChannelMethodID {
    open spec fn spec_encode(&self) -> Result<Seq<u8>, EncodeError> {
        Ok(spec_u16_bytes(self.spec_id()))
    }

    fn encode(&self) -> (r: Result<Vec<u8>, EncodeError>) {
        let mut out: Vec<u8> = Vec::new();
        put_u16(&mut out, self.id());
        Ok(out)
    }
}

impl Decode for ChannelMethodID {
    open spec fn spec_decode(b: Seq<u8>, pos: int) -> Result<(ChannelMethodID, int), DecodeError> {
        match spec_decode_u16(b, pos) {
            Err(e) => Err(e),
            Ok((id, next)) => match Self::spec_from_id(id) {
                Some(v) => Ok((v, next)),
                None => Err(DecodeError::UnknownMethod),
            },
        }
    }

    fn decode(buf: &[u8], pos: usize) -> (r: Result<(Self, usize), DecodeError>) {
        let (id, next) = decode_u16(buf, pos)?;
        match Self::from_id(id) {
            Some(v) => Ok((v, next)),
            None => Err(DecodeError::UnknownMethod),
        }
    }
}

/// The methods of the exchange class.
#[derive(Debug, Clone, Copy, PartialEq, Eq, Structural)]
pub enum ExchangeMethodID {
    Declare,
    DeclareOk,
    Delete,
    DeleteOk,
    Bind,
    BindOk,
    Unbind,
    UnbindOk,
}

impl View for ExchangeMethodID {
    type V = ExchangeMethodID;

    open spec fn view(&self) -> ExchangeMethodID {
        *self
    }
}

impl ExchangeMethodID {
    /// The number that stands for the method on the wire.
    pub open spec fn spec_id(self) -> u16 {
        match self {
            ExchangeMethodID::Declare => 10,
            ExchangeMethodID::DeclareOk => 11,
            ExchangeMethodID::Delete => 20,
            ExchangeMethodID::DeleteOk => 21,
            ExchangeMethodID::Bind => 30,
            ExchangeMethodID::BindOk => 31,
            ExchangeMethodID::Unbind => 40,
            ExchangeMethodID::UnbindOk => 41,
        }
    }

    /// The method that a number stands for, if any.
    pub open spec fn spec_from_id(id: u16) -> Option<Self> {
        if id == 10 {
            Some(ExchangeMethodID::Declare)
        } else if id == 11 {
            Some(ExchangeMethodID::DeclareOk)
        } else if id == 20 {
            Some(ExchangeMethodID::Delete)
        } else if id == 21 {
            Some(ExchangeMethodID::DeleteOk)
        } else if id == 30 {
            Some(ExchangeMethodID::Bind)
        } else if id == 31 {
            Some(ExchangeMethodID::BindOk)
        } else if id == 40 {
            Some(ExchangeMethodID::Unbind)
        } else if id == 41 {
            Some(ExchangeMethodID::UnbindOk)
        } else {
            None
        }
    }

    /// The number that stands for the method on the wire.
    pub fn id(&self) -> (r: u16)
        ensures
            r == self.spec_id(),
    {
        match self {
            ExchangeMethodID::Declare => 10,
            ExchangeMethodID::DeclareOk => 11,
            ExchangeMethodID::Delete => 20,
            ExchangeMethodID::DeleteOk => 21,
            ExchangeMethodID::Bind => 30,
            ExchangeMethodID::BindOk => 31,
            ExchangeMethodID::Unbind => 40,
            ExchangeMethodID::UnbindOk => 41,
        }
    }

    /// The method that a number stands for, if any.
    pub fn from_id(id: u16) -> (r: Option<Self>)
        ensures
            r == Self::spec_from_id(id),
    {
        match id {
            10 => Some(ExchangeMethodID::Declare),
            11 => Some(ExchangeMethodID::DeclareOk),
            20 => Some(ExchangeMethodID::Delete),
            21 => Some(ExchangeMethodID::DeleteOk),
            30 => Some(ExchangeMethodID::Bind),
            31 => Some(ExchangeMethodID::BindOk),
            40 => Some(ExchangeMethodID::Unbind),
            41 => Some(ExchangeMethodID::UnbindOk),
            _ => None,
        }
    }

    /// Every method is found again from its number.
    pub proof fn lemma_id_round_trip(self)
        ensures
            Self::spec_from_id(self.spec_id()) == Some(self),
    {
    }
}

impl Encode for ExchangeMethodID {
    open spec fn spec_encode(&self) -> Result<Seq<u8>, EncodeError> {
        Ok(spec_u16_bytes(self.spec_id()))
    }

    fn encode(&self) -> (r: Result<Vec<u8>, EncodeError>) {
        let mut out: Vec<u8> = Vec::new();
        put_u16(&mut out, self.id());
        Ok(out)
    }
}

impl Decode for ExchangeMethodID {
    open spec fn spec_decode(b: Seq<u8>, pos: int) -> Result<(ExchangeMethodID, int), DecodeError> {
        match spec_decode_u16(b, pos) {
            Err(e) => Err(e),
            Ok((id, next)) => match Self::spec_from_id(id) {
                Some(v) => Ok((v, next)),
                None => Err(DecodeError::UnknownMethod),
            },
        }
    }

    fn decode(buf: &[u8], pos: usize) -> (r: Result<(Self, usize), DecodeError>) {
        let (id, next) = decode_u16(buf, pos)?;
        match Self::from_id(id) {
            Some(v) => Ok((v, next)),
            None => Err(DecodeError::UnknownMethod),
        }
    }
}

/// The methods of the queue class.
#[derive(Debug, Clone, Copy, PartialEq, Eq, Structural)]
pub enum QueueMethodID {
    Declare,
    DeclareOk,
    Bind,
    BindOk,
    Purge,
    PurgeOk,
    Delete,
    DeleteOk,
    Unbind,
    UnbindOk,
}

impl View for QueueMethodID {
    type V = QueueMethodID;

    open spec fn view(&self) -> QueueMethodID {
        *self
    }
}

impl QueueMethodID {
    /// The number that stands for the method on the wire.
    pub open spec fn spec_id(self) -> u16 {
        match self {
            QueueMethodID::Declare => 10,
            QueueMethodID::DeclareOk => 11,
            QueueMethodID::Bind => 20,
            QueueMethodID::BindOk => 21,
            QueueMethodID::Purge => 30,
            QueueMethodID::PurgeOk => 31,
            QueueMethodID::Delete => 40,
            QueueMethodID::DeleteOk => 41,
            QueueMethodID::Unbind => 50,
            QueueMethodID::UnbindOk => 51,
        }
    }

    /// The method that a number stands for, if any.
    pub open spec fn spec_from_id(id: u16) -> Option<Self> {
        if id == 10 {
            Some(QueueMethodID::Declare)
        } else if id == 11 {
            Some(QueueMethodID::DeclareOk)
        } else if id == 20 {
            Some(QueueMethodID::Bind)
        } else if id == 21 {
            Some(QueueMethodID::BindOk)
        } else if id == 30 {
            Some(QueueMethodID::Purge)
        } else if id == 31 {
            Some(QueueMethodID::PurgeOk)
        } else if id == 40 {
            Some(QueueMethodID::Delete)
        } else if id == 41 {
            Some(QueueMethodID::DeleteOk)
        } else if id == 50 {
            Some(QueueMethodID::Unbind)
        } else if id == 51 {
            Some(QueueMethodID::UnbindOk)
        } else {
            None
        }
    }

    /// The number that stands for the method on the wire.
    pub fn id(&self) -> (r: u16)
        ensures
            r == self.spec_id(),
    {
        match self {
            QueueMethodID::Declare => 10,
            QueueMethodID::DeclareOk => 11,
            QueueMethodID::Bind => 20,
            QueueMethodID::BindOk => 21,
            QueueMethodID::Purge => 30,
            QueueMethodID::PurgeOk => 31,
            QueueMethodID::Delete => 40,
            QueueMethodID::DeleteOk => 41,
            QueueMethodID::Unbind => 50,
            QueueMethodID::UnbindOk => 51,
        }
    }

    /// The method that a number stands for, if any.
    pub fn from_id(id: u16) -> (r: Option<Self>)
        ensures
            r == Self::spec_from_id(id),
    {
        match id {
            10 => Some(QueueMethodID::Declare),
            11 => Some(QueueMethodID::DeclareOk),
            20 => Some(QueueMethodID::Bind),
            21 => Some(QueueMethodID::BindOk),
            30 => Some(QueueMethodID::Purge),
            31 => Some(QueueMethodID::PurgeOk),
            40 => Some(QueueMethodID::Delete),
            41 => Some(QueueMethodID::DeleteOk),
            50 => Some(QueueMethodID::Unbind),
            51 => Some(QueueMethodID::UnbindOk),
            _ => None,
        }
    }

    /// Every method is found again from its number.
    pub proof fn lemma_id_round_trip(self)
        ensures
            Self::spec_from_id(self.spec_id()) == Some(self),
    {
    }
}

impl Encode for QueueMethodID {
    open spec fn spec_encode(&self) -> Result<Seq<u8>, EncodeError> {
        Ok(spec_u16_bytes(self.spec_id()))
    }

    fn encode(&self) -> (r: Result<Vec<u8>, EncodeError>) {
        let mut out: Vec<u8> = Vec::new();
        put_u16(&mut out, self.id());
        Ok(out)
    }
}

impl Decode for QueueMethodID {
    open spec fn spec_decode(b: Seq<u8>, pos: int) -> Result<(QueueMethodID, int), DecodeError> {
        match spec_decode_u16(b, pos) {
            Err(e) => Err(e),
            Ok((id, next)) => match Self::spec_from_id(id) {
                Some(v) => Ok((v, next)),
                None => Err(DecodeError::UnknownMethod),
            },
        }
    }

    fn decode(buf: &[u8], pos: usize) -> (r: Result<(Self, usize), DecodeError>) {
        let (id, next) = decode_u16(buf, pos)?;
        match Self::from_id(id) {
            Some(v) => Ok((v, next)),
            None => Err(DecodeError::UnknownMethod),
        }
    }
}

/// The methods of the basic class.
#[derive(Debug, Clone, Copy, PartialEq, Eq, Structural)]
pub enum BasicMethodID {
    QualityOfService,
    QualityOfServiceOk,
    Consume,
    ConsumeOk,
    Cancel,
    CancelOk,
    Publish,
    Return,
    Deliver,
    Get,
    GetOk,
    GetEmpty,
    Ack,
    Reject,
    Recover,
    RecoverOk,
}

impl View for BasicMethodID {
    type V = BasicMethodID;

    open spec fn view(&self) -> BasicMethodID {
        *self
    }
}

impl BasicMethodID {
    /// The number that stands for the method on the wire.
    pub open spec fn spec_id(self) -> u16 {
        match self {
            BasicMethodID::QualityOfService => 10,
            BasicMethodID::QualityOfServiceOk => 11,
            BasicMethodID::Consume => 20,
            BasicMethodID::ConsumeOk => 21,
            BasicMethodID::Cancel => 30,
            BasicMethodID::CancelOk => 31,
            BasicMethodID::Publish => 40,
            BasicMethodID::Return => 50,
            BasicMethodID::Deliver => 60,
            BasicMethodID::Get => 70,
            BasicMethodID::GetOk => 71,
            BasicMethodID::GetEmpty => 72,
            BasicMethodID::Ack => 80,
            BasicMethodID::Reject => 90,
            BasicMethodID::Recover => 110,
            BasicMethodID::RecoverOk => 111,
        }
    }

    /// The method that a number stands for, if any.
    pub open spec fn spec_from_id(id: u16) -> Option<Self> {
        if id == 10 {
            Some(BasicMethodID::QualityOfService)
        } else if id == 11 {
            Some(BasicMethodID::QualityOfServiceOk)
        } else if id == 20 {
            Some(BasicMethodID::Consume)
        } else if id == 21 {
            Some(BasicMethodID::ConsumeOk)
        } else if id == 30 {
            Some(BasicMethodID::Cancel)
        } else if id == 31 {
            Some(BasicMethodID::CancelOk)
        } else if id == 40 {
            Some(BasicMethodID::Publish)
        } else if id == 50 {
            Some(BasicMethodID::Return)
        } else if id == 60 {
            Some(BasicMethodID::Deliver)
        } else if id == 70 {
            Some(BasicMethodID::Get)
        } else if id == 71 {
            Some(BasicMethodID::GetOk)
        } else if id == 72 {
            Some(BasicMethodID::GetEmpty)
        } else if id == 80 {
            Some(BasicMethodID::Ack)
        } else if id == 90 {
            Some(BasicMethodID::Reject)
        } else if id == 110 {
            Some(BasicMethodID::Recover)
        } else if id == 111 {
            Some(BasicMethodID::RecoverOk)
        } else {
            None
        }
    }

    /// The number that stands for the method on the wire.
    pub fn id(&self) -> (r: u16)
        ensures
            r == self.spec_id(),
    {
        match self {
            BasicMethodID::QualityOfService => 10,
            BasicMethodID::QualityOfServiceOk => 11,
            BasicMethodID::Consume => 20,
            BasicMethodID::ConsumeOk => 21,
            BasicMethodID::Cancel => 30,
            BasicMethodID::CancelOk => 31,
            BasicMethodID::Publish => 40,
            BasicMethodID::Return => 50,
            BasicMethodID::Deliver => 60,
            BasicMethodID::Get => 70,
            BasicMethodID::GetOk => 71,
            BasicMethodID::GetEmpty => 72,
            BasicMethodID::Ack => 80,
            BasicMethodID::Reject => 90,
            BasicMethodID::Recover => 110,
            BasicMethodID::RecoverOk => 111,
        }
    }

    /// The method that a number stands for, if any.
    pub fn from_id(id: u16) -> (r: Option<Self>)
        ensures
            r == Self::spec_from_id(id),
    {
        match id {
            10 => Some(BasicMethodID::QualityOfService),
            11 => Some(BasicMethodID::QualityOfServiceOk),
            20 => Some(BasicMethodID::Consume),
            21 => Some(BasicMethodID::ConsumeOk),
            30 => Some(BasicMethodID::Cancel),
            31 => Some(BasicMethodID::CancelOk),
            40 => Some(BasicMethodID::Publish),
            50 => Some(BasicMethodID::Return),
            60 => Some(BasicMethodID::Deliver),
            70 => Some(BasicMethodID::Get),
            71 => Some(BasicMethodID::GetOk),
            72 => Some(BasicMethodID::GetEmpty),
            80 => Some(BasicMethodID::Ack),
            90 => Some(BasicMethodID::Reject),
            110 => Some(BasicMethodID::Recover),
            111 => Some(BasicMethodID::RecoverOk),
            _ => None,
        }
    }

    /// Every method is found again from its number.
    pub proof fn lemma_id_round_trip(self)
        ensures
            Self::spec_from_id(self.spec_id()) == Some(self),
    {
    }
}

impl Encode for BasicMethodID {
    open spec fn spec_encode(&self) -> Result<Seq<u8>, EncodeError> {
        Ok(spec_u16_bytes(self.spec_id()))
    }

    fn encode(&self) -> (r: Result<Vec<u8>, EncodeError>) {
        let mut out: Vec<u8> = Vec::new();
        put_u16(&mut out, self.id());
        Ok(out)
    }
}

impl Decode for BasicMethodID {
    open spec fn spec_decode(b: Seq<u8>, pos: int) -> Result<(BasicMethodID, int), DecodeError> {
        match spec_decode_u16(b, pos) {
            Err(e) => Err(e),
            Ok((id, next)) => match Self::spec_from_id(id) {
                Some(v) => Ok((v, next)),
                None => Err(DecodeError::UnknownMethod),
            },
        }
    }

    fn decode(buf: &[u8], pos: usize) -> (r: Result<(Self, usize), DecodeError>) {
        let (id, next) = decode_u16(buf, pos)?;
        match Self::from_id(id) {
            Some(v) => Ok((v, next)),
            None => Err(DecodeError::UnknownMethod),
        }
    }
}

/// The methods of the transaction class.
#[derive(Debug, Clone, Copy, PartialEq, Eq, Structural)]
pub enum TransactionMethodId {
    Select,
    SelectOk,
    Commit,
    CommitOk,
    Rollback,
    RollbackOk,
}

impl View for TransactionMethodId {
    type V = TransactionMethodId;

    open spec fn view(&self) -> TransactionMethodId {
        *self
    }
}

impl TransactionMethodId {
    /// The number that stands for the method on the wire.
    pub open spec fn spec_id(self) -> u16 {
        match self {
            TransactionMethodId::Select => 10,
            TransactionMethodId::SelectOk => 11,
            TransactionMethodId::Commit => 20,
            TransactionMethodId::CommitOk => 21,
            TransactionMethodId::Rollback => 30,
            TransactionMethodId::RollbackOk => 31,
        }
    }

    /// The method that a number stands for, if any.
    pub open spec fn spec_from_id(id: u16) -> Option<Self> {
        if id == 10 {
            Some(TransactionMethodId::Select)
        } else if id == 11 {
            Some(TransactionMethodId::SelectOk)
        } else if id == 20 {
            Some(TransactionMethodId::Commit)
        } else if id == 21 {
            Some(TransactionMethodId::CommitOk)
        } else if id == 30 {
            Some(TransactionMethodId::Rollback)
        } else if id == 31 {
            Some(TransactionMethodId::RollbackOk)
        } else {
            None
        }
    }

    /// The number that stands for the method on the wire.
    pub fn id(&self) -> (r: u16)
        ensures
            r == self.spec_id(),
    {
        match self {
            TransactionMethodId::Select => 10,
            TransactionMethodId::SelectOk => 11,
            TransactionMethodId::Commit => 20,
            TransactionMethodId::CommitOk => 21,
            TransactionMethodId::Rollback => 30,
            TransactionMethodId::RollbackOk => 31,
        }
    }

    /// The method that a number stands for, if any.
    pub fn from_id(id: u16) -> (r: Option<Self>)
        ensures
            r == Self::spec_from_id(id),
    {
        match id {
            10 => Some(TransactionMethodId::Select),
            11 => Some(TransactionMethodId::SelectOk),
            20 => Some(TransactionMethodId::Commit),
            21 => Some(TransactionMethodId::CommitOk),
            30 => Some(TransactionMethodId::Rollback),
            31 => Some(TransactionMethodId::RollbackOk),
            _ => None,
        }
    }

    /// Every method is found again from its number.
    pub proof fn lemma_id_round_trip(self)
        ensures
            Self::spec_from_id(self.spec_id()) == Some(self),
    {
    }
}

impl Encode for TransactionMethodId {
    open spec fn spec_encode(&self) -> Result<Seq<u8>, EncodeError> {
        Ok(spec_u16_bytes(self.spec_id()))
    }

    fn encode(&self) -> (r: Result<Vec<u8>, EncodeError>) {
        let mut out: Vec<u8> = Vec::new();
        put_u16(&mut out, self.id());
        Ok(out)
    }
}

impl Decode for TransactionMethodId {
    open spec fn spec_decode(b: Seq<u8>, pos: int) -> Result<
        (TransactionMethodId, int),
        DecodeError,
    > {
        match spec_decode_u16(b, pos) {
            Err(e) => Err(e),
            Ok((id, next)) => match Self::spec_from_id(id) {
                Some(v) => Ok((v, next)),
                None => Err(DecodeError::UnknownMethod),
            },
        }
    }

    fn decode(buf: &[u8], pos: usize) -> (r: Result<(Self, usize), DecodeError>) {
        let (id, next) = decode_u16(buf, pos)?;
        match Self::from_id(id) {
            Some(v) => Ok((v, next)),
            None => Err(DecodeError::UnknownMethod),
        }
    }
}

} // verus!
