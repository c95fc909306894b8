//! Telemetry logging for a game client's positional link: decoding of the
//! published record, projection to a flat row, and the rules of the polling
//! loop that writes rows to a CSV sink.

pub mod bytes;
pub mod context;
pub mod row;
pub mod snapshot;
pub mod poll;
pub mod trace;
