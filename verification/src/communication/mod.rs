//! Reading values one after another from bytes that came in.
pub mod decode;
