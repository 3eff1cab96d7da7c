use vstd::prelude::*;

use crate::errors::XcpError;
use crate::options::{Opts, Reflink};

verus! {

// The per-file copy engine, as a state machine. The shell that owns the two
// file descriptors performs one `CopyAction` at a time (reflink attempt,
// sparseness probe, segment query, chunk copy) against the filesystem
// primitives, feeds the outcome back as a `CopyEvent`, and reports
// `Copied(n)` for every chunk it completes. Every decision — reflink versus
// sparse versus dense, chunk sizing, hole skipping, byte accounting — is
// made here.

/// What one file copy needs from the configuration: the policy, the source
/// length from its metadata, and the transfer granularity.
#[derive(Clone, Copy, Debug)]
pub struct CopyParams {
    pub reflink: Reflink,
    pub len: u64,
    pub batch: u64,
}

impl CopyParams {
    /// A chunked copy with a zero batch size could make no progress.
    pub open spec fn wf(&self) -> bool {
        self.batch > 0
    }

    pub fn new(opts: &Opts, len: u64) -> (r: CopyParams)
        ensures
            r.reflink == opts.reflink,
            r.len == len,
            r.batch == opts.batch_size,
            opts.wf() ==> r.wf(),
    {
        CopyParams { reflink: opts.reflink, len, batch: opts.batch_size }
    }
}

/// How a completed copy moved its data.
#[derive(Clone, Copy, Debug, PartialEq, Eq, Structural)]
pub enum CopyMode {
    /// A copy-on-write clone; no bytes were read or written.
    Reflinked,
    /// A whole-length chunked copy.
    Dense,
    /// A segment-by-segment copy that skipped the holes.
    Sparse,
}

/// The engine's state between two actions.
#[derive(Clone, Copy, Debug)]
pub enum CopyState {
    /// A reflink attempt is outstanding.
    AwaitReflink,
    /// A sparseness probe is outstanding.
    AwaitProbe,
    /// A segment query at offset `pos` is outstanding; `copied` bytes of
    /// data have been copied so far.
    AwaitSegments { pos: u64, copied: u64 },
    /// A dense copy has moved `written` of the file's bytes.
    DenseRun { written: u64 },
    /// A sparse copy is inside a data span that ends at `hole`: of the
    /// span's `span` bytes, `written` are done; `copied` counts all data
    /// bytes so far, the current span's included.
    SparseRun { hole: u64, span: u64, written: u64, copied: u64 },
    /// The copy is complete: `total` bytes are accounted to the file, of
    /// which `copied` actually travelled through chunk copies.
    Done { total: u64, copied: u64, mode: CopyMode },
    /// The copy failed; no further event is accepted.
    Failed,
}

/// What the engine asks the filesystem shell to do next.
#[derive(Clone, Debug)]
pub enum CopyAction {
    /// Attempt a copy-on-write clone of the whole file.
    TryReflink,
    /// Ask whether the source is probably sparse.
    ProbeSparse,
    /// Ask for the next (data start, hole start) pair at or after `pos`.
    QuerySegments { pos: u64 },
    /// Copy up to `bytes` from the current cursors, report
    /// `Copied(actual)`, and feed back `ChunkDone(actual)`.
    CopyChunk { bytes: u64 },
    /// The copy is complete; account `total` bytes to this file.
    Finish { total: u64 },
    /// Stop: the copy failed with `error`.
    Abort { error: XcpError },
}

/// The filesystem's answer to the engine's last action.
#[derive(Clone, Copy, Debug)]
pub enum CopyEvent {
    /// Whether the reflink attempt worked.
    ReflinkResult(bool),
    /// Whether the source is probably sparse.
    ProbeResult(bool),
    /// The next data span starts at `data` and ends at `hole`.
    Segments { data: u64, hole: u64 },
    /// A chunk copy moved this many bytes.
    ChunkDone(u64),
}

/// The engine's invariant, relative to the file's parameters.
pub open spec fn state_wf(p: CopyParams, s: CopyState) -> bool {
    match s {
        CopyState::AwaitReflink => true,
        CopyState::AwaitProbe => true,
        CopyState::AwaitSegments { pos, copied } => copied <= pos && pos < p.len,
        CopyState::DenseRun { written } => written < p.len,
        CopyState::SparseRun { hole, span, written, copied } => {
            &&& 0 < span
            &&& written < span
            &&& written <= copied
            &&& copied + span <= hole + written
            &&& hole <= p.len
        },
        CopyState::Done { total, copied, mode } => {
            &&& total == p.len
            &&& copied <= p.len
            &&& (mode is Reflinked ==> copied == 0)
            &&& (mode is Dense ==> copied == p.len)
        },
        CopyState::Failed => true,
    }
}

/// Which events the filesystem shell may feed in a given state. A chunk
/// never exceeds what the engine asked for: the remaining bytes of the
/// current run, capped by the batch size.
pub open spec fn event_ok(p: CopyParams, s: CopyState, e: CopyEvent) -> bool {
    match (s, e) {
        (CopyState::AwaitReflink, CopyEvent::ReflinkResult(_)) => true,
        (CopyState::AwaitProbe, CopyEvent::ProbeResult(_)) => true,
        (CopyState::AwaitSegments { pos, .. }, CopyEvent::Segments { data, hole }) => pos <= data
            && data <= hole && hole <= p.len,
        (CopyState::DenseRun { written }, CopyEvent::ChunkDone(b)) => b <= p.len - written && b
            <= p.batch,
        (CopyState::SparseRun { span, written, .. }, CopyEvent::ChunkDone(b)) => b <= span
            - written && b <= p.batch,
        _ => false,
    }
}

/// The size of the next chunk to request: the remaining bytes, capped by
/// the batch size.
pub open spec fn chunk_of(remaining: int, batch: int) -> int {
    if remaining < batch {
        remaining
    } else {
        batch
    }
}

/// The engine's initial state and first action: attempt a reflink unless
/// the policy forbids it, else go straight to the sparseness probe.
pub open spec fn spec_start(p: CopyParams) -> (CopyState, CopyAction) {
    if p.reflink is Never {
        (CopyState::AwaitProbe, CopyAction::ProbeSparse)
    } else {
        (CopyState::AwaitReflink, CopyAction::TryReflink)
    }
}

pub open spec fn start_state(p: CopyParams) -> CopyState {
    spec_start(p).0
}

/// One transition: from a state and the outcome of its outstanding action
/// to the next state and the next action.
pub open spec fn spec_step(p: CopyParams, s: CopyState, e: CopyEvent) -> (CopyState, CopyAction) {
    match (s, e) {
        (CopyState::AwaitReflink, CopyEvent::ReflinkResult(worked)) => {
            if worked {
                (
                    CopyState::Done { total: p.len, copied: 0, mode: CopyMode::Reflinked },
                    CopyAction::Finish { total: p.len },
                )
            } else if p.reflink is Always {
                (CopyState::Failed, CopyAction::Abort { error: XcpError::ReflinkFailed })
            } else {
                (CopyState::AwaitProbe, CopyAction::ProbeSparse)
            }
        },
        (CopyState::AwaitProbe, CopyEvent::ProbeResult(sparse)) => {
            if p.len == 0 {
                (
                    CopyState::Done {
                        total: 0,
                        copied: 0,
                        mode: if sparse {
                            CopyMode::Sparse
                        } else {
                            CopyMode::Dense
                        },
                    },
                    CopyAction::Finish { total: 0 },
                )
            } else if sparse {
                (
                    CopyState::AwaitSegments { pos: 0, copied: 0 },
                    CopyAction::QuerySegments { pos: 0 },
                )
            } else {
                (
                    CopyState::DenseRun { written: 0 },
                    CopyAction::CopyChunk { bytes: chunk_of(p.len as int, p.batch as int) as u64 },
                )
            }
        },
        (CopyState::AwaitSegments { pos, copied }, CopyEvent::Segments { data, hole }) => {
            if data == hole {
                if hole < p.len {
                    (
                        CopyState::AwaitSegments { pos: hole, copied },
                        CopyAction::QuerySegments { pos: hole },
                    )
                } else {
                    (
                        CopyState::Done { total: p.len, copied, mode: CopyMode::Sparse },
                        CopyAction::Finish { total: p.len },
                    )
                }
            } else {
                (
                    CopyState::SparseRun {
                        hole,
                        span: (hole - data) as u64,
                        written: 0,
                        copied,
                    },
                    CopyAction::CopyChunk { bytes: chunk_of(hole - data, p.batch as int) as u64 },
                )
            }
        },
        (CopyState::DenseRun { written }, CopyEvent::ChunkDone(b)) => {
            let w = (written + b) as u64;
            if w < p.len {
                (
                    CopyState::DenseRun { written: w },
                    CopyAction::CopyChunk {
                        bytes: chunk_of(p.len - w, p.batch as int) as u64,
                    },
                )
            } else {
                (
                    CopyState::Done { total: p.len, copied: w, mode: CopyMode::Dense },
                    CopyAction::Finish { total: p.len },
                )
            }
        },
        (CopyState::SparseRun { hole, span, written, copied }, CopyEvent::ChunkDone(b)) => {
            let w = (written + b) as u64;
            let c = (copied + b) as u64;
            if w < span {
                (
                    CopyState::SparseRun { hole, span, written: w, copied: c },
                    CopyAction::CopyChunk {
                        bytes: chunk_of(span - w, p.batch as int) as u64,
                    },
                )
            } else if hole < p.len {
                (
                    CopyState::AwaitSegments { pos: hole, copied: c },
                    CopyAction::QuerySegments { pos: hole },
                )
            } else {
                (
                    CopyState::Done { total: p.len, copied: c, mode: CopyMode::Sparse },
                    CopyAction::Finish { total: p.len },
                )
            }
        },
        // No other event is admitted by `event_ok`.
        _ => (CopyState::Failed, CopyAction::Abort { error: XcpError::EarlyShutdown }),
    }
}

/// A valid transition preserves the invariant.
pub proof fn lemma_step_wf(p: CopyParams, s: CopyState, e: CopyEvent)
    requires
        p.wf(),
        state_wf(p, s),
        event_ok(p, s, e),
    ensures
        state_wf(p, spec_step(p, s, e).0),
{
}

/// Starts one file copy.
pub fn copy_start(p: &CopyParams) -> (r: (CopyState, CopyAction))
    requires
        p.wf(),
    ensures
        r == spec_start(*p),
        state_wf(*p, r.0),
{
    match p.reflink {
        Reflink::Never => (CopyState::AwaitProbe, CopyAction::ProbeSparse),
        _ => (CopyState::AwaitReflink, CopyAction::TryReflink),
    }
}

/// The next chunk size for `remaining` bytes under a `batch` cap.
fn next_chunk(remaining: u64, batch: u64) -> (r: u64)
    ensures
        r == chunk_of(remaining as int, batch as int),
{
    if remaining < batch {
        remaining
    } else {
        batch
    }
}

/// Advances the engine by one event.
pub fn copy_step(p: &CopyParams, s: &CopyState, e: &CopyEvent) -> (r: (CopyState, CopyAction))
    requires
        p.wf(),
        state_wf(*p, *s),
        event_ok(*p, *s, *e),
    ensures
        r == spec_step(*p, *s, *e),
        state_wf(*p, r.0),
{
    let sv = *s;
    let ev = *e;
    match (sv, ev) {
        (CopyState::AwaitReflink, CopyEvent::ReflinkResult(worked)) => {
            if worked {
                (
                    CopyState::Done { total: p.len, copied: 0, mode: CopyMode::Reflinked },
                    CopyAction::Finish { total: p.len },
                )
            } else if p.reflink == Reflink::Always {
                (CopyState::Failed, CopyAction::Abort { error: XcpError::ReflinkFailed })
            } else {
                (CopyState::AwaitProbe, CopyAction::ProbeSparse)
            }
        },
        (CopyState::AwaitProbe, CopyEvent::ProbeResult(sparse)) => {
            if p.len == 0 {
                (
                    CopyState::Done {
                        total: 0,
                        copied: 0,
                        mode: if sparse {
                            CopyMode::Sparse
                        } else {
                            CopyMode::Dense
                        },
                    },
                    CopyAction::Finish { total: 0 },
                )
            } else if sparse {
                (
                    CopyState::AwaitSegments { pos: 0, copied: 0 },
                    CopyAction::QuerySegments { pos: 0 },
                )
            } else {
                (
                    CopyState::DenseRun { written: 0 },
                    CopyAction::CopyChunk { bytes: next_chunk(p.len, p.batch) },
                )
            }
        },
        (CopyState::AwaitSegments { pos, copied }, CopyEvent::Segments { data, hole }) => {
            if data == hole {
                if hole < p.len {
                    (
                        CopyState::AwaitSegments { pos: hole, copied },
                        CopyAction::QuerySegments { pos: hole },
                    )
                } else {
                    (
                        CopyState::Done { total: p.len, copied, mode: CopyMode::Sparse },
                        CopyAction::Finish { total: p.len },
                    )
                }
            } else {
                let span = hole - data;
                (
                    CopyState::SparseRun { hole, span, written: 0, copied },
                    CopyAction::CopyChunk { bytes: next_chunk(span, p.batch) },
                )
            }
        },
        (CopyState::DenseRun { written }, CopyEvent::ChunkDone(b)) => {
            let w = written + b;
            if w < p.len {
                (
                    CopyState::DenseRun { written: w },
                    CopyAction::CopyChunk { bytes: next_chunk(p.len - w, p.batch) },
                )
            } else {
                (
                    CopyState::Done { total: p.len, copied: w, mode: CopyMode::Dense },
                    CopyAction::Finish { total: p.len },
                )
            }
        },
        (CopyState::SparseRun { hole, span, written, copied }, CopyEvent::ChunkDone(b)) => {
            let w = written + b;
            let c = copied + b;
            if w < span {
                (
                    CopyState::SparseRun { hole, span, written: w, copied: c },
                    CopyAction::CopyChunk { bytes: next_chunk(span - w, p.batch) },
                )
            } else if hole < p.len {
                (
                    CopyState::AwaitSegments { pos: hole, copied: c },
                    CopyAction::QuerySegments { pos: hole },
                )
            } else {
                (
                    CopyState::Done { total: p.len, copied: c, mode: CopyMode::Sparse },
                    CopyAction::Finish { total: p.len },
                )
            }
        },
        _ => (CopyState::Failed, CopyAction::Abort { error: XcpError::EarlyShutdown }),
    }
}

// Whole-copy laws, over traces of events. A trace is the serialisation of
// the filesystem's answers during one file copy; a run folds the transition
// over it.

/// The state after consuming `evs` from `s`.
pub open spec fn run_from(p: CopyParams, s: CopyState, evs: Seq<CopyEvent>) -> CopyState
    decreases evs.len(),
{
    if evs.len() == 0 {
        s
    } else {
        run_from(p, spec_step(p, s, evs[0]).0, evs.drop_first())
    }
}

/// Every event of `evs` is admitted in the state it meets.
pub open spec fn trace_ok_from(p: CopyParams, s: CopyState, evs: Seq<CopyEvent>) -> bool
    decreases evs.len(),
{
    evs.len() == 0 || (event_ok(p, s, evs[0]) && trace_ok_from(
        p,
        spec_step(p, s, evs[0]).0,
        evs.drop_first(),
    ))
}

pub open spec fn copy_run(p: CopyParams, evs: Seq<CopyEvent>) -> CopyState {
    run_from(p, start_state(p), evs)
}

pub open spec fn copy_trace_ok(p: CopyParams, evs: Seq<CopyEvent>) -> bool {
    trace_ok_from(p, start_state(p), evs)
}

/// The data bytes a state has accounted as actually copied.
pub open spec fn copied_of(s: CopyState) -> int {
    match s {
        CopyState::AwaitReflink => 0,
        CopyState::AwaitProbe => 0,
        CopyState::AwaitSegments { copied, .. } => copied as int,
        CopyState::DenseRun { written } => written as int,
        CopyState::SparseRun { copied, .. } => copied as int,
        CopyState::Done { copied, .. } => copied as int,
        CopyState::Failed => 0,
    }
}

/// The sum of the chunk sizes reported in a trace.
pub open spec fn events_chunk_sum(evs: Seq<CopyEvent>) -> int
    decreases evs.len(),
{
    if evs.len() == 0 {
        0
    } else {
        (match evs[0] {
            CopyEvent::ChunkDone(b) => b as int,
            _ => 0,
        }) + events_chunk_sum(evs.drop_first())
    }
}

/// How many chunk copies a trace contains.
pub open spec fn events_chunk_count(evs: Seq<CopyEvent>) -> int
    decreases evs.len(),
{
    if evs.len() == 0 {
        0
    } else {
        (match evs[0] {
            CopyEvent::ChunkDone(_) => 1int,
            _ => 0,
        }) + events_chunk_count(evs.drop_first())
    }
}

/// The total width of the data spans a trace's segment answers declared.
pub open spec fn events_span_sum(evs: Seq<CopyEvent>) -> int
    decreases evs.len(),
{
    if evs.len() == 0 {
        0
    } else {
        (match evs[0] {
            CopyEvent::Segments { data, hole } => hole - data,
            _ => 0,
        }) + events_span_sum(evs.drop_first())
    }
}

/// A valid run preserves the invariant.
pub proof fn lemma_run_wf(p: CopyParams, s: CopyState, evs: Seq<CopyEvent>)
    requires
        p.wf(),
        state_wf(p, s),
        trace_ok_from(p, s, evs),
    ensures
        state_wf(p, run_from(p, s, evs)),
    decreases evs.len(),
{
    if evs.len() > 0 {
        lemma_step_wf(p, s, evs[0]);
        lemma_run_wf(p, spec_step(p, s, evs[0]).0, evs.drop_first());
    }
}

/// No event is admitted once the copy is done or failed, so a valid trace
/// ends there.
pub proof fn lemma_terminal(p: CopyParams, s: CopyState, evs: Seq<CopyEvent>)
    requires
        s is Done || s is Failed,
        trace_ok_from(p, s, evs),
    ensures
        evs.len() == 0,
{
}

/// Byte accounting: along any valid run, the copied count grows by exactly
/// the chunk sizes the trace reports.
pub proof fn lemma_copied_counts_chunks(p: CopyParams, s: CopyState, evs: Seq<CopyEvent>)
    requires
        p.wf(),
        state_wf(p, s),
        trace_ok_from(p, s, evs),
    ensures
        copied_of(run_from(p, s, evs)) == copied_of(s) + events_chunk_sum(evs),
    decreases evs.len(),
{
    if evs.len() > 0 {
        lemma_step_wf(p, s, evs[0]);
        lemma_copied_counts_chunks(p, spec_step(p, s, evs[0]).0, evs.drop_first());
    }
}

/// The total a completed copy accounts, whatever the path taken.
pub open spec fn done_total(s: CopyState) -> int {
    match s {
        CopyState::Done { total, .. } => total as int,
        _ => -1,
    }
}

pub open spec fn done_mode(s: CopyState) -> CopyMode {
    match s {
        CopyState::Done { mode, .. } => mode,
        _ => CopyMode::Reflinked,
    }
}

/// Every completed copy accounts exactly the source length, on every path.
pub proof fn lemma_done_total_is_len(p: CopyParams, evs: Seq<CopyEvent>)
    requires
        p.wf(),
        copy_trace_ok(p, evs),
        copy_run(p, evs) is Done,
    ensures
        done_total(copy_run(p, evs)) == p.len,
{
    lemma_run_wf(p, start_state(p), evs);
}

/// For a file copied densely — no reflink, not sparse — the sum of the
/// chunk sizes the copy moved equals the source length exactly, and the
/// accounted total equals it too.
pub proof fn lemma_dense_copy_total(p: CopyParams, evs: Seq<CopyEvent>)
    requires
        p.wf(),
        copy_trace_ok(p, evs),
        copy_run(p, evs) is Done,
        done_mode(copy_run(p, evs)) is Dense,
    ensures
        events_chunk_sum(evs) == p.len,
        done_total(copy_run(p, evs)) == p.len,
{
    lemma_run_wf(p, start_state(p), evs);
    lemma_copied_counts_chunks(p, start_state(p), evs);
}

/// Reflink policy `Always`, clone failure: the copy fails with a
/// reflink-failure error at once — the trace ends there, and no chunk was
/// ever copied.
pub proof fn lemma_reflink_always_no_fallback(p: CopyParams, evs: Seq<CopyEvent>)
    requires
        p.wf(),
        p.reflink is Always,
        copy_trace_ok(p, evs),
        evs.len() >= 1,
        evs[0] == CopyEvent::ReflinkResult(false),
    ensures
        copy_run(p, evs) is Failed,
        spec_step(p, start_state(p), evs[0]).1 == (CopyAction::Abort {
            error: XcpError::ReflinkFailed,
        }),
        evs.len() == 1,
        events_chunk_count(evs) == 0,
{
    let s1 = spec_step(p, start_state(p), evs[0]).0;
    assert(s1 is Failed);
    assert(trace_ok_from(p, s1, evs.drop_first()));
    lemma_terminal(p, s1, evs.drop_first());
    assert(copy_run(p, evs) == run_from(p, s1, evs.drop_first()));
    assert(events_chunk_count(evs.drop_first()) == 0);
}

/// States on the sparse path.
pub open spec fn sparse_path(s: CopyState) -> bool {
    ||| s is AwaitSegments
    ||| s is SparseRun
    ||| (s is Done && done_mode(s) is Sparse)
}

/// States before the copy method is decided.
pub open spec fn pre_path(s: CopyState) -> bool {
    s is AwaitReflink || s is AwaitProbe
}

/// Data bytes a sparse-path state still owes for its current span.
pub open spec fn pending_span(s: CopyState) -> int {
    match s {
        CopyState::SparseRun { span, written, .. } => span - written,
        _ => 0,
    }
}

pub open spec fn span_acc(s: CopyState) -> int {
    if sparse_path(s) {
        copied_of(s) + pending_span(s)
    } else {
        0
    }
}

/// Sparse accounting: if a run ends on the sparse path, it got there
/// through sparse and pre-decision states only, and the data it copied (or
/// still owes) is exactly the width of the data spans the segment answers
/// declared — chunk copies never reach into hole territory.
pub proof fn lemma_span_accounting(p: CopyParams, s: CopyState, evs: Seq<CopyEvent>)
    requires
        p.wf(),
        state_wf(p, s),
        trace_ok_from(p, s, evs),
        sparse_path(run_from(p, s, evs)),
    ensures
        sparse_path(s) || pre_path(s),
        span_acc(run_from(p, s, evs)) == span_acc(s) + events_span_sum(evs),
    decreases evs.len(),
{
    if evs.len() > 0 {
        lemma_step_wf(p, s, evs[0]);
        lemma_span_accounting(p, spec_step(p, s, evs[0]).0, evs.drop_first());
    }
}

/// Sparse copy: a copy that completed in sparse mode accounts the full
/// source length, while the bytes moved by chunk copies are exactly the
/// declared data-span widths — the holes were skipped, never read or
/// written.
pub proof fn lemma_sparse_copy_layout(p: CopyParams, evs: Seq<CopyEvent>)
    requires
        p.wf(),
        copy_trace_ok(p, evs),
        copy_run(p, evs) is Done,
        done_mode(copy_run(p, evs)) is Sparse,
    ensures
        done_total(copy_run(p, evs)) == p.len,
        events_chunk_sum(evs) == events_span_sum(evs),
        events_span_sum(evs) <= p.len,
{
    lemma_run_wf(p, start_state(p), evs);
    lemma_copied_counts_chunks(p, start_state(p), evs);
    lemma_span_accounting(p, start_state(p), evs);
}

/// States from which no reflinked completion is reachable.
pub open spec fn no_reflink(s: CopyState) -> bool {
    !(s is AwaitReflink) && !(s is Done && done_mode(s) is Reflinked)
}

pub proof fn lemma_no_reflink_preserved(p: CopyParams, s: CopyState, evs: Seq<CopyEvent>)
    requires
        p.wf(),
        state_wf(p, s),
        trace_ok_from(p, s, evs),
        no_reflink(s),
    ensures
        no_reflink(run_from(p, s, evs)),
    decreases evs.len(),
{
    if evs.len() > 0 {
        lemma_step_wf(p, s, evs[0]);
        lemma_no_reflink_preserved(p, spec_step(p, s, evs[0]).0, evs.drop_first());
    }
}

/// States committed to a dense copy.
pub open spec fn dense_path(s: CopyState) -> bool {
    s is DenseRun || (s is Done && done_mode(s) is Dense)
}

pub proof fn lemma_dense_path_preserved(p: CopyParams, s: CopyState, evs: Seq<CopyEvent>)
    requires
        p.wf(),
        state_wf(p, s),
        trace_ok_from(p, s, evs),
        dense_path(s),
    ensures
        dense_path(run_from(p, s, evs)),
    decreases evs.len(),
{
    if evs.len() > 0 {
        lemma_step_wf(p, s, evs[0]);
        lemma_dense_path_preserved(p, spec_step(p, s, evs[0]).0, evs.drop_first());
    }
}

/// Reflink policy `Auto`, clone failure: the copy falls back to a byte
/// copy — no reflinked completion is possible any more, yet a completed run
/// still accounts the full source length; and if the sparseness probe then
/// said dense, the fallback moved every byte of the file through chunk
/// copies.
pub proof fn lemma_reflink_auto_fallback(p: CopyParams, evs: Seq<CopyEvent>)
    requires
        p.wf(),
        p.reflink is Auto,
        copy_trace_ok(p, evs),
        evs.len() >= 1,
        evs[0] == CopyEvent::ReflinkResult(false),
        copy_run(p, evs) is Done,
    ensures
        done_total(copy_run(p, evs)) == p.len,
        !(done_mode(copy_run(p, evs)) is Reflinked),
        evs.len() >= 2 && evs[1] == CopyEvent::ProbeResult(false) && p.len > 0 ==> done_mode(
            copy_run(p, evs),
        ) is Dense && events_chunk_sum(evs) == p.len,
{
    lemma_run_wf(p, start_state(p), evs);
    let s1 = spec_step(p, start_state(p), evs[0]).0;
    lemma_no_reflink_preserved(p, s1, evs.drop_first());
    if evs.len() >= 2 && evs[1] == CopyEvent::ProbeResult(false) && p.len > 0 {
        let rest = evs.drop_first();
        assert(rest[0] == evs[1]);
        assert(trace_ok_from(p, s1, rest));
        lemma_step_wf(p, start_state(p), evs[0]);
        let s2 = spec_step(p, s1, rest[0]).0;
        assert(trace_ok_from(p, s2, rest.drop_first()));
        lemma_step_wf(p, s1, rest[0]);
        assert(dense_path(s2));
        lemma_dense_path_preserved(p, s2, rest.drop_first());
        assert(run_from(p, s2, rest.drop_first()) == copy_run(p, evs));
        lemma_copied_counts_chunks(p, start_state(p), evs);
    }
}

} // verus!
