//! A message as the application sees it.
use vstd::prelude::*;

use crate::encde::properties::Properties;

verus! {

/// The bytes of a message body.
pub type Bytes = Vec<u8>;

/// What the broker says of a delivery, besides the message itself.
#[derive(Debug, Clone, Copy, PartialEq, Eq, Structural)]
pub struct AdditionalInfo {
    /// The tag by which the delivery is acknowledged.
    pub delivery_tag: u64,
}

impl AdditionalInfo {
    pub fn new(delivery_tag: u64) -> (r: Self)
        ensures
            r.delivery_tag == delivery_tag,
    {
        AdditionalInfo { delivery_tag }
    }
}

/// One delivered message, put together from a method frame, a content header and the
/// body frames.
#[derive(Debug, Clone, PartialEq, Eq)]
pub struct Message {
    pub bytes: Bytes,
    pub properties: Properties,
    pub additional_info: AdditionalInfo,
}

impl Message {
    pub fn new(bytes: Bytes, properties: Properties, additional_info: AdditionalInfo) -> (r: Self)
        ensures
            r.bytes == bytes,
            r.properties == properties,
            r.additional_info == additional_info,
    {
        Message { bytes, properties, additional_info }
    }
}

} // verus!
