//! The method catalog, class by class, and the content frames.
pub mod basic;
pub mod body;
pub mod channel;
pub mod connection;
pub mod content;
pub mod exchange;
pub mod queue;
pub mod transaction;
