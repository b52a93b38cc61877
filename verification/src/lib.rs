//! Column-decoding core of a native wire-protocol client for a columnar
//! analytical database: it turns a raw byte stream into typed, immutable,
//! reference-counted column buffers, and unifies the client's failure modes
//! into one error taxonomy that cooperates with a poll-driven scheduler.

pub mod column;
pub mod errors;
pub mod scalar;
pub mod source;
pub mod suspend;
pub mod timezone;
pub mod varint;
