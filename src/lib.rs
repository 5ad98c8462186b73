//! Ships structured log records from a local log store to an MQTT broker.
//!
//! The library holds the record model, the mapping from raw key/value log
//! entries to records, the error taxonomy of log sources, the construction of
//! topics and payloads, and the decisions of the forwarding loop.
use vstd::prelude::*;

pub mod client;
pub mod error;
pub mod journal;
pub mod level;
pub mod mapping;
pub mod orchestrator;
pub mod record;

pub use level::LogLevel;
pub use record::{LogItem, Timestamp};

verus! {

/// A source of log records. A blocking receive waits until a record or an
/// error comes; a non-blocking one reports `NotReady` when nothing is there.
pub trait LogAdapter {
    fn recv(&mut self) -> Result<LogItem, error::RecvError>;

    fn try_recv(&mut self) -> Result<LogItem, error::TryRecvError>;
}

} // verus!
