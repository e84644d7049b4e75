//! The coordinator's decision rules: one long-lived coordinator per node
//! answers listing queries, relays progress, honours administrative
//! requests only from its own node, and — on a download — decides which
//! side of the transfer it is on and how to wire the two workers up.
//!
//! The coordinator owns no transport, storage or worker processes: the
//! host program decodes each incoming body (handing over `None` when the
//! body matches no known schema), calls the functions here, and carries
//! the returned actions out.  A malformed request yields no actions and
//! no response at all: the loop drops it and lives on.

use vstd::prelude::*;

use crate::protocol::{Address, FileInfo, TransferRequest, TransferResponse, WorkerRequest};

verus! {

/// One raw directory entry, as the storage layer reports it: its name,
/// whether it is a plain file, and its size — `None` when the metadata
/// query failed.
pub struct DirEntry {
    pub name: String,
    pub is_file: bool,
    pub size: Option<u64>,
}

/// What a coordinator asks its host program to do.
pub enum CoordinatorAction {
    /// Read the directory and answer with its listing.
    SendListing,
    /// Spawn a fresh worker for a transfer of `name` involving `target`,
    /// then wire it up as `plan_download` says.
    SpawnWorker { name: String, target: Address },
    /// Pass a progress tick on to the observers of this node.
    EmitProgress { name: String, progress: u64 },
    /// Remove the named file.
    DeleteFile { name: String },
    /// Create the named directory under the files root.
    CreateDirectory { name: String },
    /// Tell the observers of this node that the listing changed.
    NotifyFilesChanged,
}

/// The listing built from `entries`: every plain file whose size is
/// known, in order, with no nested listing.
pub open spec fn spec_listed(entries: Seq<DirEntry>) -> Seq<FileInfo>
    decreases entries.len(),
{
    if entries.len() == 0 {
        Seq::empty()
    } else {
        let rest = spec_listed(entries.drop_last());
        let e = entries.last();
        if e.is_file {
            match e.size {
                Some(size) => rest.push(FileInfo { name: e.name, size, dir: None }),
                None => rest,
            }
        } else {
            rest
        }
    }
}

/// Builds the listing of one directory: keeps every plain file whose
/// metadata was found, in order, and drops the rest.  Directories are
/// listed by the host program, which attaches each one's own listing.
pub fn ls_files(entries: &Vec<DirEntry>) -> (files: Vec<FileInfo>)
    ensures
        files@ == spec_listed(entries@),
{
    let mut files: Vec<FileInfo> = Vec::new();
    let mut i: usize = 0;
    while i < entries.len()
        invariant
            i <= entries@.len(),
            files@ == spec_listed(entries@.take(i as int)),
        decreases entries@.len() - i,
    {
        let e = &entries[i];
        if e.is_file {
            match e.size {
                Some(size) => files.push(FileInfo { name: e.name.clone(), size, dir: None }),
                None => {},
            }
        }
        proof {
            assert(entries@.take(i + 1).drop_last() =~= entries@.take(i as int));
            assert(entries@.take(i + 1).last() == entries@[i as int]);
        }
        i = i + 1;
    }
    proof {
        assert(entries@.take(entries@.len() as int) =~= entries@);
    }
    files
}

/// The actions a coordinator owes for one decoded request, or for a body
/// that decoded to nothing.
pub open spec fn transfer_request_actions(
    our: Address,
    source: Address,
    request: Option<TransferRequest>,
    a: Seq<CoordinatorAction>,
) -> bool {
    match request {
        None => a.len() == 0,
        Some(req) => match req {
            TransferRequest::ListFiles => a.len() == 1 && a[0] is SendListing,
            TransferRequest::Download { name, target } => a.len() == 1 && (a[0] matches
                CoordinatorAction::SpawnWorker { name: n, target: t } && n == name && t == target),
            TransferRequest::Progress { name, progress } => a.len() == 1 && (a[0] matches
                CoordinatorAction::EmitProgress { name: n, progress: p } && n == name && p
                == progress),
            TransferRequest::Delete { name } => if source.node@ == our.node@ {
                a.len() == 2 && (a[0] matches CoordinatorAction::DeleteFile { name: n } && n
                    == name) && a[1] is NotifyFilesChanged
            } else {
                a.len() == 0
            },
            TransferRequest::CreateDir { name } => if source.node@ == our.node@ {
                a.len() == 2 && (a[0] matches CoordinatorAction::CreateDirectory { name: n } && n
                    == name) && a[1] is NotifyFilesChanged
            } else {
                a.len() == 0
            },
        },
    }
}

/// Handles one request addressed to the coordinator at `our`, sent by
/// `source`.  A request whose body could not be decoded (`None`) is
/// dropped without any action and without an answer.  `Delete` and
/// `CreateDir` are honoured only when the caller lives on this node: a
/// remote caller's attempt is accepted and silently produces nothing.
pub fn handle_transfer_request(
    our: &Address,
    source: &Address,
    request: Option<TransferRequest>,
) -> (actions: Vec<CoordinatorAction>)
    ensures
        transfer_request_actions(*our, *source, request, actions@),
{
    let mut actions: Vec<CoordinatorAction> = Vec::new();
    match request {
        None => {},
        Some(req) => match req {
            TransferRequest::ListFiles => {
                actions.push(CoordinatorAction::SendListing);
            },
            TransferRequest::Download { name, target } => {
                actions.push(CoordinatorAction::SpawnWorker { name, target });
            },
            TransferRequest::Progress { name, progress } => {
                actions.push(CoordinatorAction::EmitProgress { name, progress });
            },
            TransferRequest::Delete { name } => {
                if source.same_node(our) {
                    actions.push(CoordinatorAction::DeleteFile { name });
                    actions.push(CoordinatorAction::NotifyFilesChanged);
                }
            },
            TransferRequest::CreateDir { name } => {
                if source.same_node(our) {
                    actions.push(CoordinatorAction::CreateDirectory { name });
                    actions.push(CoordinatorAction::NotifyFilesChanged);
                }
            },
        },
    }
    actions
}

/// How a freshly spawned worker is wired into the transfer that a
/// `Download { name, target }` from `source` asked the coordinator at
/// `our` for.
pub struct DownloadPlan {
    /// The bootstrap request for the local worker.
    pub worker_init: WorkerRequest,
    /// Whether to await the worker's answer before going on: the
    /// requestor side must know its worker is ready before announcing
    /// it to the peer node.
    pub await_init: bool,
    /// A request to pass on and the coordinator to dial: the download
    /// announcement that carries the rendezvous address.
    pub forward: Option<(Address, TransferRequest)>,
}

/// What `plan_download` owes.  The origin of the request is the
/// tie-break: a request from this coordinator's own node means "pull
/// `name` from the coordinator at `target`", so the local worker becomes
/// the requestor and the remote coordinator is told where it lives; a
/// request from another node means "serve `name` to the worker at
/// `target`", so the local worker becomes the provider aimed at that
/// address, and nothing is forwarded.
pub open spec fn download_plan_matches(
    our: Address,
    source: Address,
    name: String,
    target: Address,
    worker: Address,
    plan: DownloadPlan,
) -> bool {
    if source.node@ == our.node@ {
        &&& plan.worker_init matches WorkerRequest::Initialize { name: n, target_worker: None }
            && n@ == name@
        &&& plan.await_init
        &&& plan.forward matches Some(f) && f.0 == target && (f.1 matches
            TransferRequest::Download { name: n2, target: w } && n2 == name && w == worker)
    } else {
        &&& plan.worker_init matches WorkerRequest::Initialize {
            name: n,
            target_worker: Some(t),
        } && n == name && t == target
        &&& !plan.await_init
        &&& plan.forward is None
    }
}

/// Decides how to wire up the worker spawned for a download: see
/// `download_plan_matches`.  `worker` is the address of the fresh
/// worker.
pub fn plan_download(
    our: &Address,
    source: &Address,
    name: String,
    target: Address,
    worker: Address,
) -> (plan: DownloadPlan)
    ensures
        download_plan_matches(*our, *source, name, target, worker, plan),
{
    if source.same_node(our) {
        DownloadPlan {
            worker_init: WorkerRequest::Initialize { name: name.clone(), target_worker: None },
            await_init: true,
            forward: Some((target, TransferRequest::Download { name, target: worker })),
        }
    } else {
        DownloadPlan {
            worker_init: WorkerRequest::Initialize { name, target_worker: Some(target) },
            await_init: false,
            forward: None,
        }
    }
}

/// Handles a response that came back to the coordinator.  Only a listing
/// is of interest, and only a caller waiting on the web surface gets it
/// passed on: the returned listing, when there is one, is what the host
/// program serves out.
pub fn handle_transfer_response(response: Option<TransferResponse>, is_http: bool) -> (forward:
    Option<Vec<FileInfo>>)
    ensures
        match response {
            Some(TransferResponse::ListFiles(files)) => if is_http {
                forward == Some(files)
            } else {
                forward is None
            },
            _ => forward is None,
        },
{
    match response {
        Some(TransferResponse::ListFiles(files)) => if is_http {
            Some(files)
        } else {
            None
        },
        _ => None,
    }
}

} // verus!
