use libxcp::engine::{copy_start, copy_step, CopyAction, CopyEvent, CopyMode, CopyParams, CopyState};
use libxcp::errors::XcpError;
use libxcp::options::{Opts, Reflink};
use libxcp::status::{StatSender, StatusUpdate};

fn params(reflink: Reflink, len: u64, batch: u64) -> CopyParams {
    let opts = Opts::new(
        match reflink {
            Reflink::Always => "always",
            Reflink::Auto => "auto",
            Reflink::Never => "never",
        },
        1024,
        batch,
        false,
        false,
        false,
        false,
    )
    .unwrap();
    CopyParams::new(&opts, len)
}

/// Drives a dense (non-sparse) copy to completion, answering every chunk
/// request in full, and returns (chunk sizes, finish total).
fn drive_dense(p: &CopyParams, first: (CopyState, CopyAction)) -> (Vec<u64>, u64) {
    let mut chunks: Vec<u64> = Vec::new();
    let (mut state, mut action) = first;
    loop {
        match action {
            CopyAction::ProbeSparse => {
                let r = copy_step(p, &state, &CopyEvent::ProbeResult(false));
                state = r.0;
                action = r.1;
            }
            CopyAction::CopyChunk { bytes } => {
                chunks.push(bytes);
                let r = copy_step(p, &state, &CopyEvent::ChunkDone(bytes));
                state = r.0;
                action = r.1;
            }
            CopyAction::Finish { total } => {
                assert!(matches!(state, CopyState::Done { .. }));
                return (chunks, total);
            }
            other => panic!("unexpected action in dense drive: {:?}", other),
        }
    }
}

#[test]
fn dense_copy_accounts_every_byte() {
    let p = params(Reflink::Never, 100, 8);
    let first = copy_start(&p);
    assert!(matches!(first.1, CopyAction::ProbeSparse));
    let (chunks, total) = drive_dense(&p, first);
    assert_eq!(total, 100);
    assert_eq!(chunks.iter().sum::<u64>(), 100);
    assert_eq!(chunks.len(), 13); // twelve chunks of 8 and one of 4
    assert!(chunks.iter().all(|c| *c <= 8));
}

#[test]
fn dense_copy_zero_length_file() {
    let p = params(Reflink::Never, 0, 8);
    let (state, action) = copy_start(&p);
    let (state, action) = match action {
        CopyAction::ProbeSparse => copy_step(&p, &state, &CopyEvent::ProbeResult(false)),
        other => panic!("unexpected action: {:?}", other),
    };
    assert!(matches!(action, CopyAction::Finish { total: 0 }));
    assert!(matches!(state, CopyState::Done { total: 0, copied: 0, mode: CopyMode::Dense }));
}

#[test]
fn short_chunk_answers_are_rerequested() {
    let p = params(Reflink::Never, 10, 8);
    let (state, action) = copy_start(&p);
    let (state, action) = match action {
        CopyAction::ProbeSparse => copy_step(&p, &state, &CopyEvent::ProbeResult(false)),
        other => panic!("unexpected action: {:?}", other),
    };
    assert!(matches!(action, CopyAction::CopyChunk { bytes: 8 }));
    // The filesystem moved only 3 of the 8 requested bytes.
    let (state, action) = copy_step(&p, &state, &CopyEvent::ChunkDone(3));
    assert!(matches!(action, CopyAction::CopyChunk { bytes: 7 }));
    let (state, action) = copy_step(&p, &state, &CopyEvent::ChunkDone(7));
    assert!(matches!(action, CopyAction::Finish { total: 10 }));
    assert!(matches!(state, CopyState::Done { total: 10, copied: 10, mode: CopyMode::Dense }));
}

#[test]
fn reflink_success_copies_no_bytes() {
    let p = params(Reflink::Auto, 1000, 8);
    let (state, action) = copy_start(&p);
    assert!(matches!(action, CopyAction::TryReflink));
    let (state, action) = copy_step(&p, &state, &CopyEvent::ReflinkResult(true));
    assert!(matches!(action, CopyAction::Finish { total: 1000 }));
    assert!(matches!(
        state,
        CopyState::Done { total: 1000, copied: 0, mode: CopyMode::Reflinked }
    ));
}

#[test]
fn reflink_always_clone_failure_is_fatal() {
    let p = params(Reflink::Always, 1000, 8);
    let (state, action) = copy_start(&p);
    assert!(matches!(action, CopyAction::TryReflink));
    let (state, action) = copy_step(&p, &state, &CopyEvent::ReflinkResult(false));
    // A reflink-failure error, no fallback, and so no chunk copy at all.
    assert!(matches!(action, CopyAction::Abort { error: XcpError::ReflinkFailed }));
    assert!(matches!(state, CopyState::Failed));
}

#[test]
fn reflink_auto_clone_failure_falls_back_to_full_copy() {
    let p = params(Reflink::Auto, 20, 8);
    let (state, action) = copy_start(&p);
    assert!(matches!(action, CopyAction::TryReflink));
    let next = copy_step(&p, &state, &CopyEvent::ReflinkResult(false));
    assert!(matches!(next.1, CopyAction::ProbeSparse));
    let (chunks, total) = drive_dense(&p, next);
    assert_eq!(total, 20);
    assert_eq!(chunks.iter().sum::<u64>(), 20);
}

#[test]
fn sparse_copy_skips_holes() {
    // A 30-byte file: a hole of 10 at offset 0, then 20 bytes of data.
    let p = params(Reflink::Never, 30, 8);
    let (state, action) = copy_start(&p);
    let (state, action) = match action {
        CopyAction::ProbeSparse => copy_step(&p, &state, &CopyEvent::ProbeResult(true)),
        other => panic!("unexpected action: {:?}", other),
    };
    assert!(matches!(action, CopyAction::QuerySegments { pos: 0 }));
    let (state, action) = copy_step(&p, &state, &CopyEvent::Segments { data: 10, hole: 30 });
    // Only the 20 data bytes are requested, never the hole.
    assert!(matches!(action, CopyAction::CopyChunk { bytes: 8 }));
    let (state, action) = copy_step(&p, &state, &CopyEvent::ChunkDone(8));
    assert!(matches!(action, CopyAction::CopyChunk { bytes: 8 }));
    let (state, action) = copy_step(&p, &state, &CopyEvent::ChunkDone(8));
    assert!(matches!(action, CopyAction::CopyChunk { bytes: 4 }));
    let (state, action) = copy_step(&p, &state, &CopyEvent::ChunkDone(4));
    // The span reaches the file end: the copy completes at the full length,
    // with only the data bytes actually copied.
    assert!(matches!(action, CopyAction::Finish { total: 30 }));
    assert!(matches!(state, CopyState::Done { total: 30, copied: 20, mode: CopyMode::Sparse }));
}

#[test]
fn sparse_copy_trailing_hole() {
    // 16 bytes of data, then a hole to the end of a 64-byte file.
    let p = params(Reflink::Never, 64, 16);
    let (state, action) = copy_start(&p);
    let (state, _) = match action {
        CopyAction::ProbeSparse => copy_step(&p, &state, &CopyEvent::ProbeResult(true)),
        other => panic!("unexpected action: {:?}", other),
    };
    let (state, action) = copy_step(&p, &state, &CopyEvent::Segments { data: 0, hole: 16 });
    assert!(matches!(action, CopyAction::CopyChunk { bytes: 16 }));
    let (state, action) = copy_step(&p, &state, &CopyEvent::ChunkDone(16));
    // The span ends before the file does: the next query starts at the hole.
    assert!(matches!(action, CopyAction::QuerySegments { pos: 16 }));
    // The final all-hole answer finishes the file.
    let (state, action) = copy_step(&p, &state, &CopyEvent::Segments { data: 64, hole: 64 });
    assert!(matches!(action, CopyAction::Finish { total: 64 }));
    assert!(matches!(state, CopyState::Done { total: 64, copied: 16, mode: CopyMode::Sparse }));
}

#[test]
fn end_to_end_ten_mib_dense_copy_with_batched_progress() {
    const MIB: u64 = 1024 * 1024;
    let p = params(Reflink::Never, 10 * MIB, MIB);
    let opts =
        Opts::new("never", MIB, MIB, false, false, false, false).unwrap();
    let (tx, rx) = crossbeam_channel::unbounded();
    let stats = StatSender::new(tx, &opts);

    // The walker announces the file's size, then the engine copies it.
    stats.send(StatusUpdate::Size(10 * MIB)).unwrap();
    let first = copy_start(&p);
    let mut chunks: Vec<u64> = Vec::new();
    let (mut state, mut action) = first;
    loop {
        match action {
            CopyAction::ProbeSparse => {
                let r = copy_step(&p, &state, &CopyEvent::ProbeResult(false));
                state = r.0;
                action = r.1;
            }
            CopyAction::CopyChunk { bytes } => {
                chunks.push(bytes);
                stats.send(StatusUpdate::Copied(bytes)).unwrap();
                let r = copy_step(&p, &state, &CopyEvent::ChunkDone(bytes));
                state = r.0;
                action = r.1;
            }
            CopyAction::Finish { total } => {
                assert_eq!(total, 10 * MIB);
                break;
            }
            other => panic!("unexpected action: {:?}", other),
        }
    }
    drop(stats);

    assert_eq!(chunks, vec![MIB; 10]);
    let received: Vec<StatusUpdate> = rx.iter().collect();
    assert_eq!(received.len(), 11);
    assert!(matches!(received[0], StatusUpdate::Size(n) if n == 10 * MIB));
    for update in &received[1..] {
        assert!(matches!(update, StatusUpdate::Copied(n) if *n == MIB));
    }
}
