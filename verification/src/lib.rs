//! Client library for three remote services reached over a capability-checked
//! message-passing substrate: a transactional key-value store, a graph
//! database, and a sandboxed script runner.
//!
//! The shared core is a request/response protocol: a typed action is encoded
//! into a self-describing envelope (plus an optional out-of-band blob for bulk
//! payloads), handed to a transport, and the correlated raw outcome is
//! resolved back into a typed result or a typed error. The envelope codec and
//! every resolution rule are specified and proved here; only the transport
//! itself (send, await, timeout) is left to the embedding program.

pub mod addr;
pub mod gateway;
pub mod graphdb;
pub mod kv;
pub mod python;
pub mod wire;
