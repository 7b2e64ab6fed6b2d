//! The types that an application hands to the client and gets from it.
pub mod message;
pub mod queue_definition;

pub use message::{AdditionalInfo, Bytes, Message};
pub use queue_definition::{QueueDefinition, QueueDefinitionBuilder};
