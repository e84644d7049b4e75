//! The worker state machine: one ephemeral worker per transfer endpoint.
//!
//! A worker is bootstrapped by a single `Initialize` request and is bound
//! to exactly one file for its whole life.  Initialized with a target
//! worker it takes the provider role: it announces the file's size, pushes
//! every chunk of the chunk plan to its peer in one burst, reports done
//! and exits.  Initialized without a target it takes the requestor role:
//! it writes each arriving chunk at its offset, keeps a running total of
//! acknowledged bytes, reports progress after every write, and finishes
//! exactly when the acknowledged bytes reach the announced size.
//!
//! The worker owns no transport and no storage: each call hands it one
//! decoded request and returns the actions the host program must carry
//! out, together with the flag that tells the host the worker is done.

use vstd::prelude::*;
use vstd::arithmetic::div_mod::{lemma_div_is_ordered, lemma_div_multiples_vanish};
use vstd::arithmetic::mul::lemma_mul_inequality;

use crate::chunks::{
    assembled, chunk_bytes, chunk_plan, spec_chunk_count, spec_chunk_len, subvec, write_at,
    write_at_spec, CHUNK_SIZE,
};
use crate::protocol::{Address, TransferError, TransferResponse, WorkerRequest};

verus! {

/// The two ends of a transfer.
#[derive(Clone, Copy, Debug, PartialEq, Eq, Structural)]
pub enum Role {
    /// Pulls the file: writes chunks, tracks progress.
    Requestor,
    /// Serves the file: reads chunks, never writes.
    Provider,
}

/// Where a worker stands in its life.
#[derive(Clone, Copy, Debug, PartialEq, Eq, Structural)]
pub enum Phase {
    /// Before `Initialize`: no role, no file.
    Uninitialized,
    /// A requestor waiting for chunks.
    Requesting,
    /// Terminal: the transfer is over and the worker only waits to be
    /// torn down.  A provider reaches it in its initializing step, once
    /// its whole chunk burst is issued.
    Done,
}

/// What a worker asks its host program to do.  Sends are fire-and-forget
/// toward the named address; responses answer the request just handled.
pub enum WorkerAction {
    /// Announce the file's total size to the peer worker.
    SendSize { target: Address, size: u64 },
    /// Push one chunk to the peer worker; `bytes` rides as the blob.
    SendChunk { target: Address, name: String, offset: u64, length: u64, bytes: Vec<u8> },
    /// Write the received bytes into the local file at `offset`.
    WriteChunk { offset: u64, bytes: Vec<u8> },
    /// Report the percentage of the file transferred so far to the
    /// coordinator of this worker's node.
    SendProgress { name: String, progress: u64 },
    /// Answer the request just handled.
    Respond { response: TransferResponse },
}

/// The percentage reported after `acknowledged` of `total` bytes: the
/// transfer of an empty file is complete the moment it starts.
pub open spec fn progress_of(acknowledged: nat, total: nat) -> nat {
    if total == 0 {
        100
    } else {
        acknowledged * 100 / total
    }
}

/// One transfer endpoint.
pub struct Worker {
    pub phase: Phase,
    pub role: Option<Role>,
    /// The file this worker is bound to; set at `Initialize`.
    pub name: String,
    /// The peer worker, when this worker is the one that dials out.
    pub peer: Option<Address>,
    /// Total bytes of the file: known from the start for a provider,
    /// announced by the peer for a requestor.
    pub total_size: Option<u64>,
    /// Bytes written so far (requestor) or served (provider).
    pub bytes_acknowledged: u64,
    /// The local image of the file: what was read from it (provider) or
    /// what has been written to it so far (requestor).
    pub content: Vec<u8>,
}

impl Worker {
    /// The invariant every worker satisfies between requests.
    pub open spec fn wf(&self) -> bool {
        &&& (self.phase is Uninitialized <==> self.role is None)
        &&& self.phase is Uninitialized ==> self.bytes_acknowledged == 0 && self.content@.len()
            == 0
        &&& self.role == Some(Role::Provider) ==> self.phase is Done && self.total_size == Some(
            self.content@.len() as u64,
        ) && self.bytes_acknowledged == self.content@.len()
        &&& self.role == Some(Role::Requestor) ==> match self.total_size {
            Some(s) => self.bytes_acknowledged <= s && self.content@.len() <= s,
            None => true,
        }
        &&& self.role == Some(Role::Requestor) && self.phase is Done ==> self.total_size == Some(
            self.bytes_acknowledged,
        )
    }

    /// A fresh worker, waiting for its `Initialize`.
    pub fn new() -> (w: Worker)
        ensures
            w.wf(),
            w.phase is Uninitialized,
            w.role is None,
            w.peer is None,
            w.total_size is None,
            w.bytes_acknowledged == 0,
            w.content@.len() == 0,
    {
        Worker {
            phase: Phase::Uninitialized,
            role: None,
            name: String::new(),
            peer: None,
            total_size: None,
            bytes_acknowledged: 0,
            content: Vec::new(),
        }
    }
}

/// Action `a` is the push of chunk `i` of a file whose bytes are
/// `content`, addressed to `target`.
pub open spec fn send_chunk_matches(
    a: WorkerAction,
    target: Address,
    name: String,
    content: Seq<u8>,
    i: nat,
) -> bool {
    &&& a matches WorkerAction::SendChunk { target: t, name: n, offset, length, bytes }
    &&& t == target
    &&& n@ == name@
    &&& offset == i * (CHUNK_SIZE as nat)
    &&& length == spec_chunk_len(content.len(), CHUNK_SIZE as nat, i)
    &&& bytes@ == chunk_bytes(content, CHUNK_SIZE as nat, i)
}

/// The outcome of an `Initialize` handled in the `Uninitialized` phase:
/// without a file the worker fails with a storage error; with a target
/// it becomes the provider and issues its whole burst; without one it
/// becomes the requestor and reports itself started.
pub open spec fn initialize_post(
    pre: Worker,
    post: Worker,
    name: String,
    target_worker: Option<Address>,
    local_file: Option<Vec<u8>>,
    r: Result<(Vec<WorkerAction>, bool), TransferError>,
) -> bool {
    match local_file {
        None => post == pre && r == Result::<(Vec<WorkerAction>, bool), TransferError>::Err(
            TransferError::StorageFailure,
        ),
        Some(content) => match target_worker {
            Some(target) => provider_init_post(pre, post, name, target, content, r),
            None => requestor_init_post(pre, post, name, r),
        },
    }
}

/// The provider's single step: announce the size, push every chunk of
/// the plan in order, report done, and reach the terminal phase with the
/// whole file counted as served.
pub open spec fn provider_init_post(
    pre: Worker,
    post: Worker,
    name: String,
    target: Address,
    content: Vec<u8>,
    r: Result<(Vec<WorkerAction>, bool), TransferError>,
) -> bool {
    let size = content@.len();
    let count = spec_chunk_count(size, CHUNK_SIZE as nat);
    &&& post.phase is Done
    &&& post.role == Some(Role::Provider)
    &&& post.name == name
    &&& post.peer == Some(target)
    &&& post.total_size == Some(size as u64)
    &&& post.bytes_acknowledged == size
    &&& post.content == content
    &&& r matches Ok(p) && {
        &&& p.1 == true
        &&& p.0@.len() == count + 2
        &&& p.0@[0] matches WorkerAction::SendSize { target: t, size: s } && t == target && s
            == size
        &&& forall|k: int|
            0 <= k < count ==> send_chunk_matches(#[trigger] p.0@[k + 1], target, name, content@, k as nat)
        &&& p.0@[count as int + 1] matches WorkerAction::Respond { response: TransferResponse::Done }
    }
}

/// The requestor's bootstrap: it binds itself to the file, reports
/// itself started, and — when the size is already known to be zero —
/// completes on the spot with full progress and no chunk exchanged.
pub open spec fn requestor_init_post(
    pre: Worker,
    post: Worker,
    name: String,
    r: Result<(Vec<WorkerAction>, bool), TransferError>,
) -> bool {
    &&& post.role == Some(Role::Requestor)
    &&& post.name == name
    &&& post.peer is None
    &&& post.total_size == pre.total_size
    &&& post.bytes_acknowledged == 0
    &&& post.content@.len() == 0
    &&& if pre.total_size == Some(0u64) {
        &&& post.phase is Done
        &&& r matches Ok(p) && p.1 == true && p.0@.len() == 2 && (p.0@[0] matches
            WorkerAction::Respond { response: TransferResponse::Started }) && (p.0@[1] matches
            WorkerAction::SendProgress { name: n, progress } && n == name && progress == 100)
    } else {
        &&& post.phase is Requesting
        &&& r matches Ok(p) && p.1 == false && p.0@.len() == 1 && (p.0@[0] matches
            WorkerAction::Respond { response: TransferResponse::Started })
    }
}

/// The outcome of a `Chunk` handled in the `Requesting` phase.  The
/// checks come in this order: a missing blob or a blob whose length
/// disagrees with the message is malformed; a chunk reaching past the
/// announced size, or pushing the acknowledged total past it, is
/// malformed; a write the address space cannot hold, or a total that
/// would overflow its counter, is a storage failure.  An accepted chunk
/// is written at its offset, counted, and — once the size is known —
/// answered with a progress report; the transfer completes exactly when
/// the acknowledged bytes reach the size.
pub open spec fn chunk_post(
    pre: Worker,
    post: Worker,
    offset: u64,
    length: u64,
    blob: Option<Vec<u8>>,
    r: Result<(Vec<WorkerAction>, bool), TransferError>,
) -> bool {
    match blob {
        None => post == pre && r == Result::<(Vec<WorkerAction>, bool), TransferError>::Err(
            TransferError::MalformedMessage,
        ),
        Some(bytes) => if bytes@.len() != length {
            post == pre && r == Result::<(Vec<WorkerAction>, bool), TransferError>::Err(
                TransferError::MalformedMessage,
            )
        } else if pre.total_size matches Some(s) && (offset + length > s
            || pre.bytes_acknowledged + length > s) {
            post == pre && r == Result::<(Vec<WorkerAction>, bool), TransferError>::Err(
                TransferError::MalformedMessage,
            )
        } else if offset + length > usize::MAX || pre.bytes_acknowledged + length > u64::MAX {
            post == pre && r == Result::<(Vec<WorkerAction>, bool), TransferError>::Err(
                TransferError::StorageFailure,
            )
        } else {
            accepted_chunk_post(pre, post, offset, length, bytes, r)
        },
    }
}

/// The accepted-chunk step of `chunk_post`.
pub open spec fn accepted_chunk_post(
    pre: Worker,
    post: Worker,
    offset: u64,
    length: u64,
    bytes: Vec<u8>,
    r: Result<(Vec<WorkerAction>, bool), TransferError>,
) -> bool {
    let new_ba = (pre.bytes_acknowledged + length) as u64;
    &&& post.content@ == write_at_spec(pre.content@, offset as nat, bytes@)
    &&& post.bytes_acknowledged == new_ba
    &&& post.role == pre.role
    &&& post.name == pre.name
    &&& post.peer == pre.peer
    &&& post.total_size == pre.total_size
    &&& match pre.total_size {
        Some(s) => {
            &&& post.phase == if new_ba == s {
                Phase::Done
            } else {
                Phase::Requesting
            }
            &&& r matches Ok(p) && p.1 == (new_ba == s) && p.0@.len() == 2 && (p.0@[0] matches
                WorkerAction::WriteChunk { offset: o, bytes: b } && o == offset && b@ == bytes@)
                && (p.0@[1] matches WorkerAction::SendProgress { name: n, progress } && n@
                == pre.name@ && progress == progress_of(new_ba as nat, s as nat))
        },
        None => {
            &&& post.phase is Requesting
            &&& r matches Ok(p) && p.1 == false && p.0@.len() == 1 && (p.0@[0] matches
                WorkerAction::WriteChunk { offset: o, bytes: b } && o == offset && b@ == bytes@)
        },
    }
}

/// The outcome of a `Size` announcement.  The first announcement is
/// recorded — even before `Initialize`, since the peer may race the
/// bootstrap — and later ones are ignored, so the size of a transfer
/// never changes once known.  An announcement smaller than what was
/// already received is malformed.  A requestor whose acknowledged bytes
/// already equal the announced size completes on the spot.
pub open spec fn size_post(
    pre: Worker,
    post: Worker,
    size: u64,
    r: Result<(Vec<WorkerAction>, bool), TransferError>,
) -> bool {
    if pre.total_size is Some {
        &&& post == pre
        &&& r matches Ok(p) && p.0@.len() == 0 && p.1 == false
    } else if pre.phase is Uninitialized {
        &&& post == Worker { total_size: Some(size), ..pre }
        &&& r matches Ok(p) && p.0@.len() == 0 && p.1 == false
    } else if pre.bytes_acknowledged > size || pre.content@.len() > size {
        &&& post == pre
        &&& r == Result::<(Vec<WorkerAction>, bool), TransferError>::Err(
            TransferError::MalformedMessage,
        )
    } else if pre.bytes_acknowledged == size {
        &&& post == Worker { total_size: Some(size), phase: Phase::Done, ..pre }
        &&& r matches Ok(p) && p.1 == true && p.0@.len() == 1 && (p.0@[0] matches
            WorkerAction::SendProgress { name: n, progress } && n@ == pre.name@ && progress == 100)
    } else {
        &&& post == Worker { total_size: Some(size), ..pre }
        &&& r matches Ok(p) && p.0@.len() == 0 && p.1 == false
    }
}

/// Everything `Worker::handle_request` guarantees, as one relation
/// between the worker before and after the call.  A worker in the
/// terminal phase ignores every request; a requestor ignores a second
/// `Initialize`; a chunk ahead of `Initialize` is rejected with an
/// error, never dropped silently.
pub open spec fn handle_request_post(
    pre: Worker,
    post: Worker,
    request: WorkerRequest,
    blob: Option<Vec<u8>>,
    local_file: Option<Vec<u8>>,
    r: Result<(Vec<WorkerAction>, bool), TransferError>,
) -> bool {
    if pre.phase is Done {
        &&& post == pre
        &&& r matches Ok(p) && p.0@.len() == 0 && p.1 == true
    } else {
        match request {
            WorkerRequest::Initialize { name, target_worker } => if pre.phase is Requesting {
                &&& post == pre
                &&& r matches Ok(p) && p.0@.len() == 0 && p.1 == false
            } else {
                initialize_post(pre, post, name, target_worker, local_file, r)
            },
            WorkerRequest::Chunk { name: _, offset, length } => if pre.phase is Uninitialized {
                &&& post == pre
                &&& r == Result::<(Vec<WorkerAction>, bool), TransferError>::Err(
                    TransferError::MissingWorkerState,
                )
            } else {
                chunk_post(pre, post, offset, length, blob, r)
            },
            WorkerRequest::Size(size) => size_post(pre, post, size, r),
        }
    }
}

impl Worker {
    /// Handles one decoded request.  `blob` is the binary payload that
    /// rode with the message, if any; `local_file` is the content of the
    /// file named by an `Initialize`, or `None` when it could not be
    /// opened.  Returns the actions for the host to carry out and the
    /// flag that tells it the worker is finished, or the error to report
    /// back to the sender.
    pub fn handle_request(
        &mut self,
        request: WorkerRequest,
        blob: Option<Vec<u8>>,
        local_file: Option<Vec<u8>>,
    ) -> (r: Result<(Vec<WorkerAction>, bool), TransferError>)
        requires
            old(self).wf(),
        ensures
            final(self).wf(),
            final(self).bytes_acknowledged >= old(self).bytes_acknowledged,
            handle_request_post(*old(self), *final(self), request, blob, local_file, r),
    {
        if matches!(self.phase, Phase::Done) {
            return Ok((Vec::new(), true));
        }
        match request {
            WorkerRequest::Initialize { name, target_worker } => {
                if matches!(self.phase, Phase::Requesting) {
                    return Ok((Vec::new(), false));
                }
                let content = match local_file {
                    None => {
                        return Err(TransferError::StorageFailure);
                    },
                    Some(content) => content,
                };
                match target_worker {
                    Some(target) => self.init_provider(name, target, content),
                    None => self.init_requestor(name),
                }
            },
            WorkerRequest::Chunk { name: _, offset, length } => {
                if matches!(self.phase, Phase::Uninitialized) {
                    return Err(TransferError::MissingWorkerState);
                }
                self.receive_chunk(offset, length, blob)
            },
            WorkerRequest::Size(size) => self.receive_size(size),
        }
    }

    /// The provider bootstrap: one burst of the whole chunk plan.
    fn init_provider(&mut self, name: String, target: Address, content: Vec<u8>) -> (r: Result<
        (Vec<WorkerAction>, bool),
        TransferError,
    >)
        requires
            old(self).wf(),
            old(self).phase is Uninitialized,
        ensures
            final(self).wf(),
            final(self).bytes_acknowledged >= old(self).bytes_acknowledged,
            provider_init_post(*old(self), *final(self), name, target, content, r),
    {
        let size = content.len() as u64;
        let mut actions: Vec<WorkerAction> = Vec::new();
        actions.push(WorkerAction::SendSize { target: target.dup(), size });
        let plan = chunk_plan(size, CHUNK_SIZE);
        proof {
            crate::chunks::lemma_chunk_tiling(size as nat, CHUNK_SIZE as nat);
        }
        let mut k: usize = 0;
        while k < plan.len()
            invariant
                size == content@.len(),
                content@.len() <= usize::MAX,
                plan@.len() == spec_chunk_count(size as nat, CHUNK_SIZE as nat),
                forall|j: int|
                    0 <= j < plan@.len() ==> (#[trigger] plan@[j]).0 == j * CHUNK_SIZE
                        && plan@[j].1 == spec_chunk_len(size as nat, CHUNK_SIZE as nat, j as nat),
                forall|j: nat|
                    #![trigger spec_chunk_len(size as nat, CHUNK_SIZE as nat, j)]
                    #![trigger j * (CHUNK_SIZE as nat)]
                    j < plan@.len() ==> j * (CHUNK_SIZE as nat) < size && 0 < spec_chunk_len(
                        size as nat,
                        CHUNK_SIZE as nat,
                        j,
                    ) <= CHUNK_SIZE && j * (CHUNK_SIZE as nat) + spec_chunk_len(
                        size as nat,
                        CHUNK_SIZE as nat,
                        j,
                    ) <= size,
                k <= plan@.len(),
                actions@.len() == k + 1,
                actions@[0] matches WorkerAction::SendSize { target: t, size: s } && t == target
                    && s == size,
                forall|j: int|
                    0 <= j < k ==> send_chunk_matches(
                        #[trigger] actions@[j + 1],
                        target,
                        name,
                        content@,
                        j as nat,
                    ),
            decreases plan@.len() - k,
        {
            let (offset, length) = plan[k];
            proof {
                assert(offset == k as int * CHUNK_SIZE);
                assert(length == spec_chunk_len(size as nat, CHUNK_SIZE as nat, k as nat));
                assert((k as nat) * (CHUNK_SIZE as nat) + spec_chunk_len(
                    size as nat,
                    CHUNK_SIZE as nat,
                    k as nat,
                ) <= size);
                assert(offset + length <= size);
                assert(size == content@.len());
            }
            let start = offset as usize;
            let end = (offset + length) as usize;
            let bytes = subvec(&content, start, end);
            actions.push(
                WorkerAction::SendChunk {
                    target: target.dup(),
                    name: name.clone(),
                    offset,
                    length,
                    bytes,
                },
            );
            k = k + 1;
        }
        actions.push(WorkerAction::Respond { response: TransferResponse::Done });
        self.phase = Phase::Done;
        self.role = Some(Role::Provider);
        self.name = name;
        self.peer = Some(target);
        self.total_size = Some(size);
        self.bytes_acknowledged = size;
        self.content = content;
        Ok((actions, true))
    }

    /// The requestor bootstrap.
    fn init_requestor(&mut self, name: String) -> (r: Result<
        (Vec<WorkerAction>, bool),
        TransferError,
    >)
        requires
            old(self).wf(),
            old(self).phase is Uninitialized,
        ensures
            final(self).wf(),
            final(self).bytes_acknowledged >= old(self).bytes_acknowledged,
            requestor_init_post(*old(self), *final(self), name, r),
    {
        self.role = Some(Role::Requestor);
        self.peer = None;
        let mut actions: Vec<WorkerAction> = Vec::new();
        actions.push(WorkerAction::Respond { response: TransferResponse::Started });
        let done = match self.total_size {
            Some(s) => s == 0,
            None => false,
        };
        if done {
            actions.push(WorkerAction::SendProgress { name: name.clone(), progress: 100 });
            self.phase = Phase::Done;
        } else {
            self.phase = Phase::Requesting;
        }
        self.name = name;
        Ok((actions, done))
    }

    /// One incoming chunk, in the `Requesting` phase.
    fn receive_chunk(&mut self, offset: u64, length: u64, blob: Option<Vec<u8>>) -> (r: Result<
        (Vec<WorkerAction>, bool),
        TransferError,
    >)
        requires
            old(self).wf(),
            old(self).phase is Requesting,
        ensures
            final(self).wf(),
            final(self).bytes_acknowledged >= old(self).bytes_acknowledged,
            chunk_post(*old(self), *final(self), offset, length, blob, r),
    {
        let bytes = match blob {
            None => {
                return Err(TransferError::MalformedMessage);
            },
            Some(bytes) => bytes,
        };
        if bytes.len() as u64 != length {
            return Err(TransferError::MalformedMessage);
        }
        match self.total_size {
            Some(s) => {
                if length > s || offset > s - length || self.bytes_acknowledged > s - length {
                    return Err(TransferError::MalformedMessage);
                }
            },
            None => {},
        }
        if offset > (usize::MAX as u64) - length {
            return Err(TransferError::StorageFailure);
        }
        if self.bytes_acknowledged > u64::MAX - length {
            return Err(TransferError::StorageFailure);
        }
        let new_ba = self.bytes_acknowledged + length;
        write_at(&mut self.content, offset as usize, &bytes);
        self.bytes_acknowledged = new_ba;
        let mut actions: Vec<WorkerAction> = Vec::new();
        let done: bool;
        match self.total_size {
            Some(s) => {
                done = new_ba == s;
                let progress = compute_progress(new_ba, s);
                actions.push(WorkerAction::WriteChunk { offset, bytes });
                actions.push(
                    WorkerAction::SendProgress { name: self.name.clone(), progress },
                );
                if done {
                    self.phase = Phase::Done;
                }
            },
            None => {
                done = false;
                actions.push(WorkerAction::WriteChunk { offset, bytes });
            },
        }
        Ok((actions, done))
    }

    /// One size announcement.
    fn receive_size(&mut self, size: u64) -> (r: Result<(Vec<WorkerAction>, bool), TransferError>)
        requires
            old(self).wf(),
            !(old(self).phase is Done),
        ensures
            final(self).wf(),
            final(self).bytes_acknowledged >= old(self).bytes_acknowledged,
            size_post(*old(self), *final(self), size, r),
    {
        if matches!(self.total_size, Some(_)) {
            return Ok((Vec::new(), false));
        }
        if matches!(self.phase, Phase::Uninitialized) {
            self.total_size = Some(size);
            return Ok((Vec::new(), false));
        }
        if self.bytes_acknowledged > size || self.content.len() as u64 > size {
            return Err(TransferError::MalformedMessage);
        }
        self.total_size = Some(size);
        if self.bytes_acknowledged == size {
            self.phase = Phase::Done;
            let mut actions: Vec<WorkerAction> = Vec::new();
            actions.push(WorkerAction::SendProgress { name: self.name.clone(), progress: 100 });
            Ok((actions, true))
        } else {
            Ok((Vec::new(), false))
        }
    }
}

/// Computes `progress_of`: the percentage of `total` that `acknowledged`
/// amounts to.
fn compute_progress(acknowledged: u64, total: u64) -> (p: u64)
    requires
        acknowledged <= total,
    ensures
        p == progress_of(acknowledged as nat, total as nat),
        p <= 100,
{
    if total == 0 {
        100
    } else {
        let p128 = (acknowledged as u128) * 100 / (total as u128);
        proof {
            lemma_progress_bounds(acknowledged as nat, total as nat);
        }
        p128 as u64
    }
}

/// The reported percentage never leaves `[0, 100]`, and is exactly 100
/// on a complete transfer.
pub proof fn lemma_progress_bounds(acknowledged: nat, total: nat)
    requires
        acknowledged <= total,
    ensures
        progress_of(acknowledged, total) <= 100,
        acknowledged == total ==> progress_of(acknowledged, total) == 100,
{
    if total > 0 {
        lemma_mul_inequality(acknowledged as int, total as int, 100);
        assert(acknowledged * 100 <= total * 100);
        lemma_div_is_ordered((acknowledged * 100) as int, (total * 100) as int, total as int);
        lemma_div_multiples_vanish(100, total as int);
        assert((total * 100) as int / (total as int) == 100) by {
            assert(total as int * 100 == 100 * total as int) by (nonlinear_arith);
        }
    }
}

/// Role symmetry: a worker that holds the provider role never mutates
/// its acknowledged count or its file image after its initializing step,
/// and never asks for a file write; a worker that holds the requestor
/// role never pushes a chunk.
pub proof fn lemma_role_symmetry(
    pre: Worker,
    post: Worker,
    request: WorkerRequest,
    blob: Option<Vec<u8>>,
    local_file: Option<Vec<u8>>,
    r: Result<(Vec<WorkerAction>, bool), TransferError>,
)
    requires
        pre.wf(),
        handle_request_post(pre, post, request, blob, local_file, r),
    ensures
        pre.role == Some(Role::Provider) ==> post == pre,
        r matches Ok(p) ==> (post.role == Some(Role::Requestor) ==> forall|k: int|
            0 <= k < p.0@.len() ==> !((#[trigger] p.0@[k]) is SendChunk)),
        r matches Ok(p) ==> (post.role == Some(Role::Provider) ==> forall|k: int|
            0 <= k < p.0@.len() ==> !((#[trigger] p.0@[k]) is WriteChunk)),
{
    if pre.phase is Done {
        // every request is ignored with no actions
    } else {
        match request {
            WorkerRequest::Initialize { name, target_worker } => {
                if !(pre.phase is Requesting) {
                    match local_file {
                        None => {},
                        Some(content) => match target_worker {
                            Some(target) => {
                                if let Ok(p) = r {
                                    let count = spec_chunk_count(
                                        content@.len(),
                                        CHUNK_SIZE as nat,
                                    );
                                    assert forall|k: int| 0 <= k < p.0@.len() implies !((
                                    #[trigger] p.0@[k]) is WriteChunk) by {
                                        if 0 < k <= count {
                                            let j = k - 1;
                                            assert(send_chunk_matches(
                                                p.0@[j + 1],
                                                target,
                                                name,
                                                content@,
                                                j as nat,
                                            ));
                                        }
                                    }
                                }
                            },
                            None => {},
                        },
                    }
                }
            },
            WorkerRequest::Chunk { .. } => {},
            WorkerRequest::Size(_) => {},
        }
    }
}

/// Every progress report a worker emits carries the percentage of its
/// acknowledged bytes against the announced size; it never drops below
/// what the worker would have reported before the request, never leaves
/// `[0, 100]`, and is exactly 100 on the step that finishes the worker.
pub proof fn lemma_progress_reported(
    pre: Worker,
    post: Worker,
    request: WorkerRequest,
    blob: Option<Vec<u8>>,
    local_file: Option<Vec<u8>>,
    r: Result<(Vec<WorkerAction>, bool), TransferError>,
)
    requires
        pre.wf(),
        handle_request_post(pre, post, request, blob, local_file, r),
    ensures
        r matches Ok(p) ==> forall|k: int|
            0 <= k < p.0@.len() ==> ((#[trigger] p.0@[k]) matches WorkerAction::SendProgress {
                name: _,
                progress,
            } ==> post.total_size matches Some(s) && progress == progress_of(
                post.bytes_acknowledged as nat,
                s as nat,
            ) && progress_of(pre.bytes_acknowledged as nat, s as nat) <= progress <= 100 && (p.1
                ==> progress == 100)),
{
    if let Ok(p) = r {
        assert forall|k: int|
            0 <= k < p.0@.len() implies ((#[trigger] p.0@[k]) matches WorkerAction::SendProgress {
            name: _,
            progress,
        } ==> post.total_size matches Some(s) && progress == progress_of(
            post.bytes_acknowledged as nat,
            s as nat,
        ) && progress_of(pre.bytes_acknowledged as nat, s as nat) <= progress <= 100 && (p.1
            ==> progress == 100)) by {
            if p.0@[k] is SendProgress {
                if pre.phase is Done {
                    // no actions at all
                } else {
                    match request {
                        WorkerRequest::Initialize { name, target_worker } => {
                            // a provider's burst holds no progress report; of the
                            // requestor's actions only the completed empty
                            // transfer reports, with 100
                            if !(pre.phase is Requesting) {
                                if let Some(content) = local_file {
                                    if let Some(target) = target_worker {
                                        let count = spec_chunk_count(
                                            content@.len(),
                                            CHUNK_SIZE as nat,
                                        );
                                        if 0 < k <= count {
                                            let j = k - 1;
                                            assert(send_chunk_matches(
                                                p.0@[j + 1],
                                                target,
                                                name,
                                                content@,
                                                j as nat,
                                            ));
                                        }
                                    }
                                }
                            }
                        },
                        WorkerRequest::Chunk { name: _, offset, length } => {
                            if !(pre.phase is Uninitialized) {
                                if let Some(s) = pre.total_size {
                                    let new_ba = (pre.bytes_acknowledged + length) as nat;
                                    if new_ba <= s {
                                        lemma_progress_monotonic(
                                            pre.bytes_acknowledged as nat,
                                            new_ba,
                                            s as nat,
                                        );
                                    }
                                }
                            }
                        },
                        WorkerRequest::Size(size) => {
                            if pre.bytes_acknowledged <= size {
                                lemma_progress_bounds(size as nat, size as nat);
                                lemma_progress_monotonic(
                                    pre.bytes_acknowledged as nat,
                                    size as nat,
                                    size as nat,
                                );
                            }
                        },
                    }
                }
            }
        }
    }
}

/// Round-trip byte fidelity, one chunk at a time: a requestor whose file
/// image is the in-order assembly of the first `i` chunks of a file, on
/// accepting the push of chunk `i` — exactly what `provider_init_post`
/// says the provider sends at that position of its burst — holds the
/// assembly of the first `i + 1` chunks.  Starting from the empty image a
/// requestor therefore ends, after the whole burst, with
/// `assembled(content, CHUNK_SIZE, count)`, which
/// `chunks::lemma_chunks_reassemble` proves is the file itself.
pub proof fn lemma_requestor_assembles(
    pre: Worker,
    post: Worker,
    a: WorkerAction,
    blob_bytes: Vec<u8>,
    r: Result<(Vec<WorkerAction>, bool), TransferError>,
    target: Address,
    name: String,
    content: Seq<u8>,
    i: nat,
)
    requires
        i < spec_chunk_count(content.len(), CHUNK_SIZE as nat),
        pre.content@ == assembled(content, CHUNK_SIZE as nat, i),
        send_chunk_matches(a, target, name, content, i),
        a matches WorkerAction::SendChunk { offset, length, bytes, .. } && blob_bytes@ == bytes@
            && accepted_chunk_post(pre, post, offset, length, blob_bytes, r),
    ensures
        post.content@ == assembled(content, CHUNK_SIZE as nat, i + 1),
{
}

/// Progress monotonicity: as the acknowledged bytes of a transfer grow,
/// the reported percentage never decreases, stays within `[0, 100]`, and
/// reaches exactly 100 when the transfer is complete.
pub proof fn lemma_progress_monotonic(a1: nat, a2: nat, total: nat)
    requires
        a1 <= a2 <= total,
    ensures
        progress_of(a1, total) <= progress_of(a2, total) <= 100,
        a2 == total ==> progress_of(a2, total) == 100,
{
    lemma_progress_bounds(a2, total);
    if total > 0 {
        lemma_mul_inequality(a1 as int, a2 as int, 100);
        lemma_div_is_ordered((a1 * 100) as int, (a2 * 100) as int, total as int);
    }
}

} // verus!
