use vstd::prelude::*;

use vstd::arithmetic::div_mod::{
    lemma_div_is_ordered, lemma_div_multiples_vanish_fancy, lemma_fundamental_div_mod,
    lemma_mod_division_less_than_divisor,
};

use core::sync::atomic::{AtomicU64, Ordering};
use std::sync::Arc;

use crate::errors::XcpError;
use crate::options::Opts;

verus! {

/// One message on the status channel.
#[derive(Clone, Debug)]
pub enum StatusUpdate {
    /// Incremental byte progress, coalesced by the batching discipline.
    Copied(u64),
    /// One file's contribution to the expected total, never coalesced.
    Size(u64),
    /// A structured failure, never coalesced.
    Error(XcpError),
}

/// Whether adding `add` bytes to a cumulative count of `prev` crosses a
/// multiple of `bsize`: exactly then is a `Copied` update forwarded.
pub open spec fn crosses_boundary(prev: nat, add: nat, bsize: nat) -> bool
    recommends
        bsize > 0,
{
    (prev + add) / bsize > prev / bsize
}

/// The batching decision: forward a `Copied(bytes)` update exactly when the
/// addition crossed a multiple of the block size.
pub fn should_forward(prev: u64, bytes: u64, bsize: u64) -> (r: bool)
    requires
        bsize > 0,
    ensures
        r == crosses_boundary(prev as nat, bytes as nat, bsize as nat),
{
    let total: u128 = prev as u128 + bytes as u128;
    total / (bsize as u128) > (prev as u128) / (bsize as u128)
}

/// The sum of a sequence of chunk sizes.
pub open spec fn chunk_sum(chunks: Seq<u64>) -> nat
    decreases chunks.len(),
{
    if chunks.len() == 0 {
        0
    } else {
        chunks[0] as nat + chunk_sum(chunks.drop_first())
    }
}

/// How many `Copied` updates the batching discipline forwards for the given
/// serialisation of chunk additions, starting from a cumulative count of
/// `start`.
pub open spec fn forwarded_count(chunks: Seq<u64>, start: nat, bsize: nat) -> nat
    decreases chunks.len(),
{
    if chunks.len() == 0 {
        0
    } else {
        (if crosses_boundary(start, chunks[0] as nat, bsize) {
            1nat
        } else {
            0nat
        }) + forwarded_count(chunks.drop_first(), start + chunks[0] as nat, bsize)
    }
}

/// An addition of at most one block crosses at most one boundary, so the
/// quotient advances by exactly one when it crosses and by nothing otherwise.
proof fn lemma_single_crossing(s: nat, c: nat, b: nat)
    requires
        b > 0,
        c <= b,
    ensures
        (s + c) / b == s / b + (if crosses_boundary(s, c, b) {
            1nat
        } else {
            0nat
        }),
{
    let si = s as int;
    let bi = b as int;
    let q = si / bi;
    let r = si % bi;
    lemma_fundamental_div_mod(si, bi);
    lemma_mod_division_less_than_divisor(si, bi);
    assert(bi * (q + 1) == bi * q + bi) by (nonlinear_arith);
    assert(si + c <= bi * (q + 1) + r);
    lemma_div_multiples_vanish_fancy(q + 1, r, bi);
    lemma_div_is_ordered(si + c, bi * (q + 1) + r, bi);
    lemma_div_is_ordered(si, si + c, bi);
}

/// Progress batching is distribution-free: over any serialisation of chunk
/// additions, each of at most one block, the number of forwarded `Copied`
/// updates equals the number of block boundaries crossed in total.
pub proof fn lemma_forwarded_count(chunks: Seq<u64>, start: nat, bsize: nat)
    requires
        bsize > 0,
        forall|i: int| 0 <= i < chunks.len() ==> chunks[i] as nat <= bsize,
    ensures
        forwarded_count(chunks, start, bsize) + start / bsize == (start + chunk_sum(chunks))
            / bsize,
    decreases chunks.len(),
{
    if chunks.len() == 0 {
    } else {
        let c = chunks[0] as nat;
        let rest = chunks.drop_first();
        assert(forall|i: int| 0 <= i < rest.len() ==> rest[i] as nat <= bsize) by {
            assert(forall|i: int| 0 <= i < rest.len() ==> rest[i] == chunks[i + 1]);
        }
        lemma_forwarded_count(rest, start + c, bsize);
        lemma_single_crossing(start, c, bsize);
    }
}

/// Given block size B and any interleaving of chunk sizes summing to T, each
/// chunk at most B, the channel receives exactly T / B (rounded down)
/// `Copied` messages, however the chunks are sized or interleaved: the
/// shared counter serialises the additions, and the count depends only on
/// the sum.
pub proof fn lemma_batched_update_count(chunks: Seq<u64>, bsize: nat)
    requires
        bsize > 0,
        forall|i: int| 0 <= i < chunks.len() ==> chunks[i] as nat <= bsize,
    ensures
        forwarded_count(chunks, 0, bsize) == chunk_sum(chunks) / bsize,
{
    lemma_forwarded_count(chunks, 0, bsize);
    assert(0nat / bsize == 0) by {
        lemma_div_multiples_vanish_fancy(0, 0, bsize as int);
    }
}

/// Wraps the status channel's sending half, coalescing `Copied` updates.
///
/// The cumulative byte counter is created with the sender and lives with
/// the run; workers share the sender behind a shared pointer (`send` only
/// ever borrows it), and whichever worker's addition crosses a block
/// boundary forwards the update, so no worker is privileged.
pub struct StatSender {
    chan: crossbeam_channel::Sender<StatusUpdate>,
    counter: Arc<AtomicU64>,
    opts: Opts,
}

impl StatSender {
    pub closed spec fn wf(&self) -> bool {
        self.opts.wf()
    }

    pub closed spec fn opts_of(&self) -> Opts {
        self.opts
    }

    pub fn new(chan: crossbeam_channel::Sender<StatusUpdate>, opts: &Opts) -> (r: StatSender)
        ensures
            r.opts_of() == *opts,
            opts.wf() ==> r.wf(),
    {
        StatSender { chan, counter: Arc::new(AtomicU64::new(0)), opts: *opts }
    }

    /// Sends one status update. A `Copied` update is added to the shared
    /// counter with relaxed ordering and forwarded only when the addition
    /// crossed a multiple of the block size; `Size` and `Error` updates are
    /// always forwarded. Fails only when the receiver is gone.
    pub fn send(&self, update: StatusUpdate) -> (r: Result<(), XcpError>)
        requires
            self.wf(),
        ensures
            r matches Err(e) ==> e is ChannelClosed,
    {
        let forward: bool = match &update {
            StatusUpdate::Copied(bytes) => {
                let prev = self.counter.fetch_add(*bytes, Ordering::Relaxed);
                should_forward(prev, *bytes, self.opts.block_size)
            },
            _ => true,
        };
        if forward {
            match self.chan.send(update) {
                Ok(()) => Ok(()),
                Err(_) => Err(XcpError::ChannelClosed),
            }
        } else {
            Ok(())
        }
    }
}

} // verus!
