//! The message schema shared by coordinators and workers, and the error
//! kinds of the transfer protocol.
//!
//! Every message travels as a structured body; the bytes of a chunk ride
//! beside their `Chunk` message as a separate binary blob rather than
//! inside it.  Decoding bodies from the wire is the host program's job:
//! a body that matches no known schema is handed to the library as a
//! decode failure, never as a panic.

use vstd::prelude::*;

verus! {

/// Address of an endpoint on the network: the node it lives on plus the
/// identity of the process on that node.  Addresses are opaque,
/// comparable values that can be embedded in messages and later dialed.
#[derive(Debug)]
pub struct Address {
    pub node: String,
    pub process: String,
}

impl Address {
    /// An identical copy of this address.
    pub fn dup(&self) -> (a: Address)
        ensures
            a == *self,
    {
        Address { node: self.node.clone(), process: self.process.clone() }
    }

    /// Whether this address names a process on the same node as `other`.
    pub fn same_node(&self, other: &Address) -> (r: bool)
        ensures
            r == (self.node@ == other.node@),
    {
        self.node == other.node
    }
}

/// One entry of a directory listing: a file with its size, or a
/// directory with its own nested listing.
#[derive(Debug)]
pub struct FileInfo {
    pub name: String,
    pub size: u64,
    pub dir: Option<Vec<FileInfo>>,
}

/// A message accepted by a coordinator.
#[derive(Debug)]
pub enum TransferRequest {
    /// Ask for the directory listing.
    ListFiles,
    /// Start a transfer: pull `name` from the coordinator at `target`,
    /// or — when the request comes from another node — serve `name` to
    /// the worker at `target`.
    Download { name: String, target: Address },
    /// A progress tick relayed from a local worker.
    Progress { name: String, progress: u64 },
    /// Remove a file.  Honoured only for callers on the same node.
    Delete { name: String },
    /// Create a directory.  Honoured only for callers on the same node.
    CreateDir { name: String },
}

/// A coordinator's reply.
#[derive(Debug)]
pub enum TransferResponse {
    ListFiles(Vec<FileInfo>),
    /// The rendezvous point: the address of the freshly spawned worker.
    Download { name: String, worker: Address },
    Done,
    Started,
}

/// A message accepted by a worker.
#[derive(Debug)]
pub enum WorkerRequest {
    /// Bootstrap: bind the worker to one file.  With a `target_worker`
    /// the worker provides the file to that address; without one it
    /// receives the file.
    Initialize { name: String, target_worker: Option<Address> },
    /// One byte range of the file; the bytes ride in the attached blob.
    Chunk { name: String, offset: u64, length: u64 },
    /// The provider announcing the file's total size.
    Size(u64),
}

/// The error kinds of the transfer protocol.
#[derive(Clone, Copy, Debug, PartialEq, Eq, Structural)]
pub enum TransferError {
    /// A message whose body or blob does not fit any known schema, or
    /// contradicts what is already known about the transfer.  The
    /// message is dropped; the receiving loop lives on.
    MalformedMessage,
    /// A chunk arrived at a worker that has no file yet: rejected, and
    /// fatal for that transfer.
    MissingWorkerState,
    /// A file could not be opened, read or written: fatal for the
    /// affected side of the transfer.
    StorageFailure,
    /// A send-and-await call exceeded its bound.  Raised by the
    /// transport edge, never by the library itself.
    TransportTimeout,
}

impl TransferError {
    /// A short description, for the host program's log.
    pub fn describe(&self) -> (s: String)
        ensures
            s@ == self.spec_describe(),
    {
        match self {
            TransferError::MalformedMessage => "malformed message".to_owned(),
            TransferError::MissingWorkerState => "no worker state initialized".to_owned(),
            TransferError::StorageFailure => "storage failure".to_owned(),
            TransferError::TransportTimeout => "transport timeout".to_owned(),
        }
    }

    /// The description `describe` returns.
    pub open spec fn spec_describe(&self) -> Seq<char> {
        match self {
            TransferError::MalformedMessage => "malformed message"@,
            TransferError::MissingWorkerState => "no worker state initialized"@,
            TransferError::StorageFailure => "storage failure"@,
            TransferError::TransportTimeout => "transport timeout"@,
        }
    }
}

} // verus!
