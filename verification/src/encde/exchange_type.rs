//! Exchange types, which travel as short strings.
use vstd::prelude::*;

use crate::encde::short_string::{encode_short_string, spec_short_string_bytes};
use crate::encde::Encode;
use crate::errors::EncodeError;

verus! {

/// How an exchange routes.
#[derive(Debug, Clone, Copy, PartialEq, Eq, Structural)]
pub enum ExchangeType {
    Direct,
    Fanout,
    Headers,
    Topic,
}

impl ExchangeType {
    /// The name under which the exchange type travels.
    pub open spec fn spec_name(self) -> Seq<char> {
        match self {
            ExchangeType::Direct => "direct"@,
            ExchangeType::Fanout => "fanout"@,
            ExchangeType::Headers => "headers"@,
            ExchangeType::Topic => "topic"@,
        }
    }

    /// The name under which the exchange type travels.
    pub fn name(&self) -> (r: &'static str)
        ensures
            r@ == self.spec_name(),
    {
        match self {
            ExchangeType::Direct => "direct",
            ExchangeType::Fanout => "fanout",
            ExchangeType::Headers => "headers",
            ExchangeType::Topic => "topic",
        }
    }
}

impl Encode for ExchangeType {
    open spec fn spec_encode(&self) -> Result<Seq<u8>, EncodeError> {
        Ok(spec_short_string_bytes(self.spec_name()))
    }

    fn encode(&self) -> (r: Result<Vec<u8>, EncodeError>) {
        proof {
            reveal_strlit("direct");
            reveal_strlit("fanout");
            reveal_strlit("headers");
            reveal_strlit("topic");
            lemma_ascii_len("direct"@);
            lemma_ascii_len("fanout"@);
            lemma_ascii_len("headers"@);
            lemma_ascii_len("topic"@);
        }
        encode_short_string(self.name())
    }
}

/// ASCII text takes one byte for each character.
pub proof fn lemma_ascii_len(s: Seq<char>)
    requires
        vstd::utf8::is_ascii_chars(s),
    ensures
        vstd::utf8::encode_utf8(s).len() == s.len(),
{
    vstd::utf8::is_ascii_chars_encode_utf8(s);
}

} // verus!
