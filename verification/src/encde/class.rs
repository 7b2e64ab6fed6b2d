//! Class ids.
use vstd::prelude::*;

use crate::encde::integers::{decode_u16, put_u16, spec_decode_u16, spec_u16_bytes};
use crate::encde::{Decode, Encode};
use crate::errors::{DecodeError, EncodeError};

verus! {

/// The protocol classes.
#[derive(Debug, Clone, Copy, PartialEq, Eq, Structural)]
pub enum ClassID {
    Connection,
    Channel,
    Exchange,
    Queue,
    Basic,
    Transaction,
}

impl View for ClassID {
    type V = ClassID;

    open spec fn view(&self) -> ClassID {
        *self
    }
}

impl ClassID {
    /// The number that stands for the class on the wire.
    pub open spec fn spec_id(self) -> u16 {
        match self {
            ClassID::Connection => 10,
            ClassID::Channel => 20,
            ClassID::Exchange => 40,
            ClassID::Queue => 50,
            ClassID::Basic => 60,
            ClassID::Transaction => 90,
        }
    }

    /// The class that a number stands for, if any.
    pub open spec fn spec_from_id(id: u16) -> Option<Self> {
        if id == 10 {
            Some(ClassID::Connection)
        } else if id == 20 {
            Some(ClassID::Channel)
        } else if id == 40 {
            Some(ClassID::Exchange)
        } else if id == 50 {
            Some(ClassID::Queue)
        } else if id == 60 {
            Some(ClassID::Basic)
        } else if id == 90 {
            Some(ClassID::Transaction)
        } else {
            None
        }
    }

    /// The number that stands for the class on the wire.
    pub fn id(&self) -> (r: u16)
        ensures
            r == self.spec_id(),
    {
        match self {
            ClassID::Connection => 10,
            ClassID::Channel => 20,
            ClassID::Exchange => 40,
            ClassID::Queue => 50,
            ClassID::Basic => 60,
            ClassID::Transaction => 90,
        }
    }

    /// The class that a number stands for, if any.
    pub fn from_id(id: u16) -> (r: Option<Self>)
        ensures
            r == Self::spec_from_id(id),
    {
        match id {
            10 => Some(ClassID::Connection),
            20 => Some(ClassID::Channel),
            40 => Some(ClassID::Exchange),
            50 => Some(ClassID::Queue),
            60 => Some(ClassID::Basic),
            90 => Some(ClassID::Transaction),
            _ => None,
        }
    }

    /// Every class is found again from its number.
    pub proof fn lemma_id_round_trip(self)
        ensures
            Self::spec_from_id(self.spec_id()) == Some(self),
    {
    }
}

impl Encode for ClassID {
    open spec fn spec_encode(&self) -> Result<Seq<u8>, EncodeError> {
        Ok(spec_u16_bytes(self.spec_id()))
    }

    fn encode(&self) -> (r: Result<Vec<u8>, EncodeError>) {
        let mut out: Vec<u8> = Vec::new();
        put_u16(&mut out, self.id());
        Ok(out)
    }
}

impl Decode for ClassID {
    open spec fn spec_decode(b: Seq<u8>, pos: int) -> Result<(ClassID, int), DecodeError> {
        match spec_decode_u16(b, pos) {
            Err(e) => Err(e),
            Ok((id, next)) => match Self::spec_from_id(id) {
                Some(v) => Ok((v, next)),
                None => Err(DecodeError::UnknownClass),
            },
        }
    }

    fn decode(buf: &[u8], pos: usize) -> (r: Result<(Self, usize), DecodeError>) {
        let (id, next) = decode_u16(buf, pos)?;
        match Self::from_id(id) {
            Some(v) => Ok((v, next)),
            None => Err(DecodeError::UnknownClass),
        }
    }
}

} // verus!
