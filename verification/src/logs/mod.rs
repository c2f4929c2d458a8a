//! Decoders for program log events.

pub mod decode;
pub mod pump;
