//! Peer-to-peer file transfer between two nodes.
//!
//! One node exposes files; the other downloads them in fixed-size chunks
//! streamed between a pair of ephemeral workers, with progress reported back
//! to a long-lived coordinator on each node.  This crate holds the verified
//! core: the chunk plan that tiles a file, the worker state machine for both
//! the requesting and the providing endpoint, and the coordinator's dispatch
//! rules.  Message transport, file storage, and the HTTP/WebSocket surface
//! are left to the host program, which feeds decoded messages in and carries
//! the returned actions out.

pub mod chunks;
pub mod coordinator;
pub mod protocol;
pub mod worker;
