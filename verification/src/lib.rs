//! Client-side codec and handshake engine for the AMQP 0-9-1 wire protocol: the binary
//! type codec, the frame envelope, the method catalog, the negotiation of a connection,
//! and the assembly of messages from frames. The crate does no input or output: it
//! turns values into bytes and bytes into values, and says what to send next.

pub mod assembly;
pub mod communication;
pub mod connection_parameters;
pub mod encde;
pub mod errors;
pub mod frame;
pub mod negotiation;
pub mod types;

pub use connection_parameters::{ConnectionParameters, ConnectionParametersBuilder, Mechanism};
pub use encde::exchange_type::ExchangeType;
pub use encde::properties::Properties;
pub use errors::{DecodeError, EncodeError, FlowError};
pub use types::message::{AdditionalInfo, Bytes, Message};
pub use types::queue_definition::{QueueDefinition, QueueDefinitionBuilder};
