use file_transfer::chunks::CHUNK_SIZE;
use file_transfer::protocol::{Address, TransferError, TransferResponse, WorkerRequest};
use file_transfer::worker::{Phase, Role, Worker, WorkerAction};

fn addr(node: &str, process: &str) -> Address {
    Address { node: node.to_string(), process: process.to_string() }
}

fn pseudo_random_bytes(len: usize, seed: u64) -> Vec<u8> {
    let mut state = seed;
    let mut out = Vec::with_capacity(len);
    for _ in 0..len {
        state = state.wrapping_mul(6364136223846793005).wrapping_add(1442695040888963407);
        out.push((state >> 33) as u8);
    }
    out
}

/// Runs one whole transfer through a provider/requestor pair and returns
/// the bytes the requestor assembled, the progress reports it emitted,
/// and the number of chunk messages exchanged.
fn run_transfer(name: &str, content: &[u8]) -> (Vec<u8>, Vec<u64>, usize) {
    let mut provider = Worker::new();
    let (burst, provider_done) = provider
        .handle_request(
            WorkerRequest::Initialize {
                name: name.to_string(),
                target_worker: Some(addr("node-b", "worker:peer")),
            },
            None,
            Some(content.to_vec()),
        )
        .unwrap();
    assert!(provider_done, "the provider pushes everything in one burst and exits");
    assert_eq!(provider.role, Some(Role::Provider));

    let mut requestor = Worker::new();
    let (started, started_done) = requestor
        .handle_request(
            WorkerRequest::Initialize { name: name.to_string(), target_worker: None },
            None,
            Some(Vec::new()),
        )
        .unwrap();
    assert!(matches!(
        started[0],
        WorkerAction::Respond { response: TransferResponse::Started }
    ));
    assert_eq!(requestor.role, Some(Role::Requestor));

    let mut progress_reports: Vec<u64> = Vec::new();
    if started_done {
        for a in &started {
            if let WorkerAction::SendProgress { progress, .. } = a {
                progress_reports.push(*progress);
            }
        }
    }
    let mut chunk_messages = 0usize;
    for action in burst {
        match action {
            WorkerAction::SendSize { size, .. } => {
                let (acts, done) = requestor
                    .handle_request(WorkerRequest::Size(size), None, None)
                    .unwrap();
                for a in acts {
                    if let WorkerAction::SendProgress { progress, .. } = a {
                        progress_reports.push(progress);
                    }
                }
                assert_eq!(done, size == 0);
            }
            WorkerAction::SendChunk { name, offset, length, bytes, .. } => {
                chunk_messages += 1;
                let (acts, _done) = requestor
                    .handle_request(
                        WorkerRequest::Chunk { name, offset, length },
                        Some(bytes),
                        None,
                    )
                    .unwrap();
                assert!(matches!(acts[0], WorkerAction::WriteChunk { .. }));
                for a in acts {
                    if let WorkerAction::SendProgress { progress, .. } = a {
                        progress_reports.push(progress);
                    }
                }
            }
            WorkerAction::Respond { response } => {
                assert!(matches!(response, TransferResponse::Done));
            }
            other => panic!("unexpected provider action: {:?}", kind_of(&other)),
        }
    }
    assert_eq!(requestor.phase, Phase::Done);
    (requestor.content, progress_reports, chunk_messages)
}

fn kind_of(a: &WorkerAction) -> &'static str {
    match a {
        WorkerAction::SendSize { .. } => "SendSize",
        WorkerAction::SendChunk { .. } => "SendChunk",
        WorkerAction::WriteChunk { .. } => "WriteChunk",
        WorkerAction::SendProgress { .. } => "SendProgress",
        WorkerAction::Respond { .. } => "Respond",
    }
}

#[test]
fn round_trip_reproduces_the_bytes() {
    let content = pseudo_random_bytes(2 * CHUNK_SIZE as usize + 12345, 7);
    let (received, _progress, _chunks) = run_transfer("blob.bin", &content);
    assert_eq!(received, content);
}

#[test]
fn round_trip_of_a_short_file() {
    let content = b"hello, peer".to_vec();
    let (received, progress, chunks) = run_transfer("hello.txt", &content);
    assert_eq!(received, content);
    assert_eq!(chunks, 1);
    assert_eq!(progress, vec![100]);
}

#[test]
fn progress_is_monotonic_and_ends_at_100() {
    let content = pseudo_random_bytes(3 * CHUNK_SIZE as usize + 99, 21);
    let (_received, progress, _chunks) = run_transfer("big.bin", &content);
    assert!(!progress.is_empty());
    for pair in progress.windows(2) {
        assert!(pair[0] <= pair[1]);
    }
    assert!(progress.iter().all(|p| *p <= 100));
    assert_eq!(*progress.last().unwrap(), 100);
}

#[test]
fn first_of_two_equal_chunks_reports_half() {
    let content = pseudo_random_bytes(2 * CHUNK_SIZE as usize, 3);
    let mut provider = Worker::new();
    let (burst, _) = provider
        .handle_request(
            WorkerRequest::Initialize {
                name: "two.bin".to_string(),
                target_worker: Some(addr("node-b", "worker:peer")),
            },
            None,
            Some(content),
        )
        .unwrap();
    let mut requestor = Worker::new();
    requestor
        .handle_request(
            WorkerRequest::Initialize { name: "two.bin".to_string(), target_worker: None },
            None,
            Some(Vec::new()),
        )
        .unwrap();
    requestor
        .handle_request(WorkerRequest::Size(2 * CHUNK_SIZE), None, None)
        .unwrap();
    if let WorkerAction::SendChunk { name, offset, length, bytes, .. } = &burst[1] {
        let (acts, done) = requestor
            .handle_request(
                WorkerRequest::Chunk { name: name.clone(), offset: *offset, length: *length },
                Some(bytes.clone()),
                None,
            )
            .unwrap();
        assert!(!done);
        assert!(matches!(acts[1], WorkerAction::SendProgress { progress: 50, .. }));
    } else {
        panic!("expected the first chunk push right after the size announcement");
    }
}

#[test]
fn zero_byte_transfer_completes_without_chunks() {
    let (received, progress, chunks) = run_transfer("empty.txt", &[]);
    assert_eq!(received, Vec::<u8>::new());
    assert_eq!(chunks, 0, "no chunk message is exchanged for an empty file");
    assert_eq!(progress, vec![100]);
}

#[test]
fn exact_multiple_takes_exactly_two_chunks() {
    let content = pseudo_random_bytes(2 * CHUNK_SIZE as usize, 11);
    let mut provider = Worker::new();
    let (burst, _) = provider
        .handle_request(
            WorkerRequest::Initialize {
                name: "twomib.bin".to_string(),
                target_worker: Some(addr("node-b", "worker:peer")),
            },
            None,
            Some(content.clone()),
        )
        .unwrap();
    let chunk_pushes: Vec<_> = burst
        .iter()
        .filter(|a| matches!(a, WorkerAction::SendChunk { .. }))
        .collect();
    assert_eq!(chunk_pushes.len(), 2);
    for push in chunk_pushes {
        if let WorkerAction::SendChunk { length, bytes, .. } = push {
            assert_eq!(*length, 1048576);
            assert_eq!(bytes.len(), 1048576);
        }
    }
    let (received, _progress, chunks) = run_transfer("twomib.bin", &content);
    assert_eq!(chunks, 2);
    assert_eq!(received, content);
}

#[test]
fn two_interleaved_transfers_stay_isolated() {
    let content_a = pseudo_random_bytes(CHUNK_SIZE as usize + 17, 1);
    let content_b = pseudo_random_bytes(CHUNK_SIZE as usize + 4242, 2);
    assert_ne!(content_a, content_b);

    let mut provider_a = Worker::new();
    let (burst_a, _) = provider_a
        .handle_request(
            WorkerRequest::Initialize {
                name: "a.bin".to_string(),
                target_worker: Some(addr("node-b", "worker:a")),
            },
            None,
            Some(content_a.clone()),
        )
        .unwrap();
    let mut provider_b = Worker::new();
    let (burst_b, _) = provider_b
        .handle_request(
            WorkerRequest::Initialize {
                name: "b.bin".to_string(),
                target_worker: Some(addr("node-b", "worker:b")),
            },
            None,
            Some(content_b.clone()),
        )
        .unwrap();

    let mut requestor_a = Worker::new();
    requestor_a
        .handle_request(
            WorkerRequest::Initialize { name: "a.bin".to_string(), target_worker: None },
            None,
            Some(Vec::new()),
        )
        .unwrap();
    let mut requestor_b = Worker::new();
    requestor_b
        .handle_request(
            WorkerRequest::Initialize { name: "b.bin".to_string(), target_worker: None },
            None,
            Some(Vec::new()),
        )
        .unwrap();

    // deliver the two bursts strictly interleaved
    let mut queue_a = burst_a.into_iter();
    let mut queue_b = burst_b.into_iter();
    loop {
        let next_a = queue_a.next();
        let next_b = queue_b.next();
        if next_a.is_none() && next_b.is_none() {
            break;
        }
        for (action, requestor) in
            [(next_a, &mut requestor_a), (next_b, &mut requestor_b)]
        {
            match action {
                Some(WorkerAction::SendSize { size, .. }) => {
                    requestor.handle_request(WorkerRequest::Size(size), None, None).unwrap();
                }
                Some(WorkerAction::SendChunk { name, offset, length, bytes, .. }) => {
                    requestor
                        .handle_request(
                            WorkerRequest::Chunk { name, offset, length },
                            Some(bytes),
                            None,
                        )
                        .unwrap();
                }
                Some(WorkerAction::Respond { .. }) | None => {}
                Some(other) => panic!("unexpected provider action: {:?}", kind_of(&other)),
            }
        }
    }
    assert_eq!(requestor_a.phase, Phase::Done);
    assert_eq!(requestor_b.phase, Phase::Done);
    assert_eq!(requestor_a.content, content_a);
    assert_eq!(requestor_b.content, content_b);
    assert_ne!(requestor_a.content, requestor_b.content);
}

#[test]
fn provider_ignores_chunks_and_keeps_its_state() {
    let mut provider = Worker::new();
    let (_burst, _) = provider
        .handle_request(
            WorkerRequest::Initialize {
                name: "served.bin".to_string(),
                target_worker: Some(addr("node-b", "worker:peer")),
            },
            None,
            Some(vec![1, 2, 3]),
        )
        .unwrap();
    let served = provider.bytes_acknowledged;
    let content_before = provider.content.clone();
    let (acts, done) = provider
        .handle_request(
            WorkerRequest::Chunk { name: "served.bin".to_string(), offset: 0, length: 3 },
            Some(vec![9, 9, 9]),
            None,
        )
        .unwrap();
    assert!(acts.is_empty());
    assert!(done);
    assert_eq!(provider.bytes_acknowledged, served);
    assert_eq!(provider.content, content_before);
}

#[test]
fn requestor_never_pushes_and_provider_never_writes() {
    let content = pseudo_random_bytes(CHUNK_SIZE as usize + 5, 13);
    let mut provider = Worker::new();
    let (burst, _) = provider
        .handle_request(
            WorkerRequest::Initialize {
                name: "sym.bin".to_string(),
                target_worker: Some(addr("node-b", "worker:peer")),
            },
            None,
            Some(content.clone()),
        )
        .unwrap();
    assert!(burst.iter().all(|a| !matches!(a, WorkerAction::WriteChunk { .. })));

    let mut requestor = Worker::new();
    let mut requestor_actions: Vec<WorkerAction> = Vec::new();
    let (acts, _) = requestor
        .handle_request(
            WorkerRequest::Initialize { name: "sym.bin".to_string(), target_worker: None },
            None,
            Some(Vec::new()),
        )
        .unwrap();
    requestor_actions.extend(acts);
    for action in burst {
        match action {
            WorkerAction::SendSize { size, .. } => {
                let (acts, _) =
                    requestor.handle_request(WorkerRequest::Size(size), None, None).unwrap();
                requestor_actions.extend(acts);
            }
            WorkerAction::SendChunk { name, offset, length, bytes, .. } => {
                let (acts, _) = requestor
                    .handle_request(
                        WorkerRequest::Chunk { name, offset, length },
                        Some(bytes),
                        None,
                    )
                    .unwrap();
                requestor_actions.extend(acts);
            }
            _ => {}
        }
    }
    assert!(requestor_actions.iter().all(|a| !matches!(a, WorkerAction::SendChunk { .. })));
}

#[test]
fn chunk_before_initialize_is_rejected() {
    let mut worker = Worker::new();
    let r = worker.handle_request(
        WorkerRequest::Chunk { name: "f".to_string(), offset: 0, length: 1 },
        Some(vec![0]),
        None,
    );
    match r {
        Err(e) => assert_eq!(e, TransferError::MissingWorkerState),
        Ok(_) => panic!("expected an error"),
    }
}

#[test]
fn initialize_without_a_file_is_a_storage_failure() {
    let mut worker = Worker::new();
    let r = worker.handle_request(
        WorkerRequest::Initialize { name: "gone.txt".to_string(), target_worker: None },
        None,
        None,
    );
    match r {
        Err(e) => assert_eq!(e, TransferError::StorageFailure),
        Ok(_) => panic!("expected an error"),
    }
}

#[test]
fn chunk_without_blob_is_malformed() {
    let mut requestor = Worker::new();
    requestor
        .handle_request(
            WorkerRequest::Initialize { name: "f".to_string(), target_worker: None },
            None,
            Some(Vec::new()),
        )
        .unwrap();
    let r = requestor.handle_request(
        WorkerRequest::Chunk { name: "f".to_string(), offset: 0, length: 4 },
        None,
        None,
    );
    match r {
        Err(e) => assert_eq!(e, TransferError::MalformedMessage),
        Ok(_) => panic!("expected an error"),
    }
}

#[test]
fn chunk_beyond_the_announced_size_is_malformed() {
    let mut requestor = Worker::new();
    requestor
        .handle_request(
            WorkerRequest::Initialize { name: "f".to_string(), target_worker: None },
            None,
            Some(Vec::new()),
        )
        .unwrap();
    requestor.handle_request(WorkerRequest::Size(4), None, None).unwrap();
    let r = requestor.handle_request(
        WorkerRequest::Chunk { name: "f".to_string(), offset: 2, length: 3 },
        Some(vec![7, 7, 7]),
        None,
    );
    match r {
        Err(e) => assert_eq!(e, TransferError::MalformedMessage),
        Ok(_) => panic!("expected an error"),
    }
}

#[test]
fn reinitialization_is_ignored() {
    let mut requestor = Worker::new();
    requestor
        .handle_request(
            WorkerRequest::Initialize { name: "first".to_string(), target_worker: None },
            None,
            Some(Vec::new()),
        )
        .unwrap();
    let (acts, done) = requestor
        .handle_request(
            WorkerRequest::Initialize { name: "second".to_string(), target_worker: None },
            None,
            Some(Vec::new()),
        )
        .unwrap();
    assert!(acts.is_empty());
    assert!(!done);
    assert_eq!(requestor.name, "first");
}

#[test]
fn size_announcement_is_recorded_once() {
    let mut requestor = Worker::new();
    requestor
        .handle_request(
            WorkerRequest::Initialize { name: "f".to_string(), target_worker: None },
            None,
            Some(Vec::new()),
        )
        .unwrap();
    requestor.handle_request(WorkerRequest::Size(10), None, None).unwrap();
    assert_eq!(requestor.total_size, Some(10));
    requestor.handle_request(WorkerRequest::Size(99), None, None).unwrap();
    assert_eq!(requestor.total_size, Some(10), "the size of a transfer never changes");
}

#[test]
fn error_descriptions_name_the_failure() {
    assert_eq!(TransferError::MalformedMessage.describe(), "malformed message");
    assert_eq!(
        TransferError::MissingWorkerState.describe(),
        "no worker state initialized"
    );
    assert_eq!(TransferError::StorageFailure.describe(), "storage failure");
    assert_eq!(TransferError::TransportTimeout.describe(), "transport timeout");
}
