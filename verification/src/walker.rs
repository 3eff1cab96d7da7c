use vstd::prelude::*;

use crate::errors::XcpError;
use crate::options::Opts;
use crate::paths::{empty_path, joined, FsPath};
use crate::status::{StatSender, StatusUpdate};

verus! {

// The tree walker's decision core. The shell enumerates a source tree in
// parents-first order — pruning whatever its ignore predicate rejects —
// classifies each entry, and calls `process_entry` for one entry at a time;
// the directory target handed back is created synchronously, before the
// next entry is looked at, because workers drain the queue concurrently and
// give no ordering guarantee of their own.

/// The classification of one directory entry.
#[derive(Clone, Copy, Debug, PartialEq, Eq, Structural)]
pub enum FileKind {
    File,
    Symlink,
    Dir,
    Socket,
    Char,
    Fifo,
    Other,
}

/// One enumerated entry, reduced to the plain values the walk decides on.
#[derive(Clone, Debug)]
pub struct EntryInfo {
    /// The entry's own path under the source root.
    pub from: FsPath,
    /// The entry's path relative to the source root; empty for the root.
    pub rel: FsPath,
    pub kind: FileKind,
    /// A regular file's length.
    pub len: u64,
    /// A symlink's target.
    pub link: FsPath,
    /// Whether the entry's computed target path already exists.
    pub target_exists: bool,
}

/// One unit of work for a copy worker.
#[derive(Clone, Debug)]
pub enum Operation {
    /// Copy a regular file's data: source path, target path.
    Copy(FsPath, FsPath),
    /// Recreate a symlink: link target, target path.
    Link(FsPath, FsPath),
    /// Recreate a non-regular file: source path, target path.
    Special(FsPath, FsPath),
}

/// Where one source root's entries are copied to: nested under the
/// destination by the source's basename when the destination exists and
/// nesting is not suppressed, else the destination itself. A source with no
/// final component is rejected.
pub open spec fn spec_target_base(
    dest: Seq<Seq<char>>,
    source: Seq<Seq<char>>,
    dest_exists: bool,
    no_target_directory: bool,
) -> Seq<Seq<char>> {
    if dest_exists && !no_target_directory {
        dest.push(source.last())
    } else {
        dest
    }
}

pub fn plan_target_base(
    dest: &FsPath,
    source: &FsPath,
    dest_exists: bool,
    no_target_directory: bool,
) -> (r: Result<FsPath, XcpError>)
    ensures
        match r {
            Ok(base) => source@.len() > 0 && base@ == spec_target_base(
                dest@,
                source@,
                dest_exists,
                no_target_directory,
            ),
            Err(e) => source@.len() == 0 && e is InvalidSource,
        },
{
    if source.parts.len() == 0 {
        Err(XcpError::InvalidSource)
    } else if dest_exists && !no_target_directory {
        let mut base = dest.duplicate();
        let last = source.parts.len() - 1;
        base.push(source.parts[last].clone());
        Ok(base)
    } else {
        Ok(dest.duplicate())
    }
}

/// An entry's target path: the base itself for the root entry, else the
/// relative path joined under the base.
pub open spec fn entry_target(base: Seq<Seq<char>>, e: EntryInfo) -> Seq<Seq<char>> {
    if e.rel@.len() == 0 {
        base
    } else {
        base + e.rel@
    }
}

pub fn target_for(base: &FsPath, rel: &FsPath) -> (r: FsPath)
    ensures
        r@ == (if rel@.len() == 0 {
            base@
        } else {
            base@ + rel@
        }),
{
    if empty_path(rel) {
        base.duplicate()
    } else {
        joined(base, rel)
    }
}

/// Handles one walk entry, in walk order: checks the no-clobber policy,
/// classifies the entry, sends the size update and the work item it calls
/// for, and hands a directory's target back to the caller, who creates it
/// before the next entry is looked at. On a no-clobber conflict the
/// `DestinationExists` report is sent and the whole walk is told to stop
/// with an early-shutdown failure; on an unrecognised kind the walk fails
/// with an unknown-file-type error; a send failure means the consumer went
/// away and stops the walk too.
pub fn process_entry(
    opts: &Opts,
    base: &FsPath,
    e: &EntryInfo,
    work: &crossbeam_channel::Sender<Operation>,
    stats: &StatSender,
) -> (r: Result<Option<FsPath>, XcpError>)
    requires
        stats.wf(),
    ensures
        match r {
            Ok(d) => {
                &&& entry_plan(*opts, base@, *e).1 is None
                &&& (e.kind is Dir <==> d is Some)
                &&& (d matches Some(dir) ==> dir@ == entry_target(base@, *e))
            },
            Err(err) => {
                ||| err is ChannelClosed
                ||| (err is EarlyShutdown && entry_plan(*opts, base@, *e).1 == Some(
                    WalkFailure::Conflict(entry_target(base@, *e)),
                ))
                ||| (err matches XcpError::UnknownFileType(p) && p@ == entry_target(base@, *e)
                    && entry_plan(*opts, base@, *e).1 == Some(
                    WalkFailure::UnknownKind(entry_target(base@, *e)),
                ))
            },
        },
        entry_plan(*opts, base@, *e).1 is Some ==> r is Err,
        // Arms that touch no channel have their outcome pinned entirely.
        entry_plan(*opts, base@, *e).1 is None && e.kind is Dir ==> r is Ok,
        entry_plan(*opts, base@, *e).1 matches Some(WalkFailure::UnknownKind(t)) ==> (r matches Err(
            XcpError::UnknownFileType(p),
        ) && p@ == t),
{
    let target = target_for(base, &e.rel);
    if opts.no_clobber && e.target_exists {
        match stats.send(StatusUpdate::Error(XcpError::DestinationExists(target))) {
            Ok(()) => Err(XcpError::EarlyShutdown),
            Err(err) => Err(err),
        }
    } else {
        match e.kind {
            FileKind::File => {
                match stats.send(StatusUpdate::Size(e.len)) {
                    Ok(()) => {},
                    Err(err) => {
                        return Err(err);
                    },
                }
                match work.send(Operation::Copy(e.from.duplicate(), target)) {
                    Ok(()) => Ok(None),
                    Err(_) => Err(XcpError::ChannelClosed),
                }
            },
            FileKind::Symlink => {
                match work.send(Operation::Link(e.link.duplicate(), target)) {
                    Ok(()) => Ok(None),
                    Err(_) => Err(XcpError::ChannelClosed),
                }
            },
            FileKind::Dir => Ok(Some(target)),
            FileKind::Socket => {
                match work.send(Operation::Special(e.from.duplicate(), target)) {
                    Ok(()) => Ok(None),
                    Err(_) => Err(XcpError::ChannelClosed),
                }
            },
            FileKind::Char => {
                match work.send(Operation::Special(e.from.duplicate(), target)) {
                    Ok(()) => Ok(None),
                    Err(_) => Err(XcpError::ChannelClosed),
                }
            },
            FileKind::Fifo => {
                match work.send(Operation::Special(e.from.duplicate(), target)) {
                    Ok(()) => Ok(None),
                    Err(_) => Err(XcpError::ChannelClosed),
                }
            },
            FileKind::Other => Err(XcpError::UnknownFileType(target)),
        }
    }
}

// The walk's side effects, modelled: what is sent on the status channel,
// what is enqueued for the workers, and which directories are created, in
// the order the walk performs them.

/// One side effect of the walk, in order.
pub enum PlanAction {
    /// A `Size` update on the status channel.
    SendSize(u64),
    /// A `DestinationExists` error for this target on the status channel.
    SendConflict(Seq<Seq<char>>),
    /// A `Copy(from, target)` work item on the queue.
    EnqueueCopy(Seq<Seq<char>>, Seq<Seq<char>>),
    /// A `Link(link, target)` work item on the queue.
    EnqueueLink(Seq<Seq<char>>, Seq<Seq<char>>),
    /// A `Special(from, target)` work item on the queue.
    EnqueueSpecial(Seq<Seq<char>>, Seq<Seq<char>>),
    /// The synchronous creation of the target directory.
    MakeDir(Seq<Seq<char>>),
}

/// Why a walk stops early.
pub enum WalkFailure {
    /// A no-clobber conflict on this target: the whole walk is abandoned.
    Conflict(Seq<Seq<char>>),
    /// An entry of a kind the core does not recognise.
    UnknownKind(Seq<Seq<char>>),
}

/// The side effects one entry calls for, and the failure it raises, if any.
pub open spec fn entry_plan(opts: Opts, base: Seq<Seq<char>>, e: EntryInfo) -> (
    Seq<PlanAction>,
    Option<WalkFailure>,
) {
    let target = entry_target(base, e);
    if opts.no_clobber && e.target_exists {
        (seq![PlanAction::SendConflict(target)], Some(WalkFailure::Conflict(target)))
    } else {
        match e.kind {
            FileKind::File => (
                seq![PlanAction::SendSize(e.len), PlanAction::EnqueueCopy(e.from@, target)],
                None,
            ),
            FileKind::Symlink => (seq![PlanAction::EnqueueLink(e.link@, target)], None),
            FileKind::Dir => (seq![PlanAction::MakeDir(target)], None),
            FileKind::Socket => (seq![PlanAction::EnqueueSpecial(e.from@, target)], None),
            FileKind::Char => (seq![PlanAction::EnqueueSpecial(e.from@, target)], None),
            FileKind::Fifo => (seq![PlanAction::EnqueueSpecial(e.from@, target)], None),
            FileKind::Other => (
                Seq::<PlanAction>::empty(),
                Some(WalkFailure::UnknownKind(target)),
            ),
        }
    }
}

/// The walk over a sequence of entries: each entry's side effects in entry
/// order, stopping at the first failure; entries after a failure contribute
/// nothing.
pub open spec fn walk_plan(opts: Opts, base: Seq<Seq<char>>, entries: Seq<EntryInfo>) -> (
    Seq<PlanAction>,
    Option<WalkFailure>,
)
    decreases entries.len(),
{
    if entries.len() == 0 {
        (Seq::<PlanAction>::empty(), None::<WalkFailure>)
    } else {
        let head = entry_plan(opts, base, entries[0]);
        if head.1 is Some {
            head
        } else {
            let rest = walk_plan(opts, base, entries.drop_first());
            (head.0 + rest.0, rest.1)
        }
    }
}

/// An entry that raises no failure under the given options.
pub open spec fn entry_clean(opts: Opts, e: EntryInfo) -> bool {
    !(opts.no_clobber && e.target_exists) && !(e.kind is Other)
}

/// No conflict report anywhere in a sequence of side effects.
pub open spec fn no_conflict_action(acts: Seq<PlanAction>) -> bool {
    forall|k: int| 0 <= k < acts.len() ==> !(#[trigger] acts[k] is SendConflict)
}

/// A walk over clean entries completes, and reports no conflict.
pub proof fn lemma_clean_walk(opts: Opts, base: Seq<Seq<char>>, entries: Seq<EntryInfo>)
    requires
        forall|i: int| 0 <= i < entries.len() ==> entry_clean(opts, #[trigger] entries[i]),
    ensures
        walk_plan(opts, base, entries).1 is None,
        no_conflict_action(walk_plan(opts, base, entries).0),
    decreases entries.len(),
{
    if entries.len() > 0 {
        let head = entry_plan(opts, base, entries[0]);
        assert(entry_clean(opts, entries[0]));
        lemma_clean_walk(opts, base, entries.drop_first());
        let rest = walk_plan(opts, base, entries.drop_first());
        assert forall|k: int| 0 <= k < (head.0 + rest.0).len() implies !(#[trigger] (head.0
            + rest.0)[k] is SendConflict) by {
            if k >= head.0.len() {
                assert((head.0 + rest.0)[k] == rest.0[k - head.0.len()]);
            }
        }
    }
}

/// No-clobber: if the entries before index `j` are conflict-free and entry
/// `j`'s target pre-exists, the walk performs exactly the clean prefix's
/// side effects followed by a single `DestinationExists` report — no work
/// item is enqueued for entry `j` or for anything discovered after it — and
/// the walk as a whole fails with the conflict.
pub proof fn lemma_no_clobber(opts: Opts, base: Seq<Seq<char>>, entries: Seq<EntryInfo>, j: int)
    requires
        opts.no_clobber,
        0 <= j < entries.len(),
        forall|i: int| 0 <= i < j ==> entry_clean(opts, #[trigger] entries[i]),
        entries[j].target_exists,
    ensures
        walk_plan(opts, base, entries).1 == Some(
            WalkFailure::Conflict(entry_target(base, entries[j])),
        ),
        walk_plan(opts, base, entries).0 == walk_plan(opts, base, entries.take(j)).0 + seq![
            PlanAction::SendConflict(entry_target(base, entries[j])),
        ],
        no_conflict_action(walk_plan(opts, base, entries.take(j)).0),
    decreases j,
{
    assert forall|i: int| 0 <= i < entries.take(j).len() implies entry_clean(
        opts,
        #[trigger] entries.take(j)[i],
    ) by {
        assert(entries.take(j)[i] == entries[i]);
    }
    lemma_clean_walk(opts, base, entries.take(j));
    if j == 0 {
        assert(walk_plan(opts, base, entries.take(0)).0 =~= Seq::<PlanAction>::empty());
        assert(walk_plan(opts, base, entries).0 =~= Seq::<PlanAction>::empty() + seq![
            PlanAction::SendConflict(entry_target(base, entries[0])),
        ]);
    } else {
        let head = entry_plan(opts, base, entries[0]);
        assert(entry_clean(opts, entries[0]));
        let rest = entries.drop_first();
        assert(rest[j - 1] == entries[j]);
        assert forall|i: int| 0 <= i < j - 1 implies entry_clean(opts, #[trigger] rest[i]) by {
            assert(rest[i] == entries[i + 1]);
        }
        lemma_no_clobber(opts, base, rest, j - 1);
        // The clean prefix of the full walk decomposes the same way.
        assert(entries.take(j)[0] == entries[0]);
        assert(entries.take(j).drop_first() =~= rest.take(j - 1));
        assert(walk_plan(opts, base, entries.take(j)).0 == head.0 + walk_plan(
            opts,
            base,
            rest.take(j - 1),
        ).0);
        assert(walk_plan(opts, base, entries).0 =~= (head.0 + walk_plan(
            opts,
            base,
            rest.take(j - 1),
        ).0) + seq![PlanAction::SendConflict(entry_target(base, entries[j]))]);
    }
}

/// A walk decomposes at any point its prefix completes: the side effects of
/// the whole are those of the first `j` entries followed by those of the
/// rest, in that order.
pub proof fn lemma_walk_split(opts: Opts, base: Seq<Seq<char>>, entries: Seq<EntryInfo>, j: int)
    requires
        0 <= j <= entries.len(),
        walk_plan(opts, base, entries.take(j)).1 is None,
    ensures
        walk_plan(opts, base, entries).0 == walk_plan(opts, base, entries.take(j)).0 + walk_plan(
            opts,
            base,
            entries.skip(j),
        ).0,
        walk_plan(opts, base, entries).1 == walk_plan(opts, base, entries.skip(j)).1,
    decreases j,
{
    if j == 0 {
        assert(entries.skip(0) =~= entries);
        assert(walk_plan(opts, base, entries).0 =~= walk_plan(opts, base, entries.take(0)).0
            + walk_plan(opts, base, entries).0);
    } else {
        let head = entry_plan(opts, base, entries[0]);
        assert(entries.take(j)[0] == entries[0]);
        let rest = entries.drop_first();
        assert(entries.take(j).drop_first() =~= rest.take(j - 1));
        lemma_walk_split(opts, base, rest, j - 1);
        assert(rest.skip(j - 1) =~= entries.skip(j));
        assert(walk_plan(opts, base, entries).0 =~= (head.0 + walk_plan(
            opts,
            base,
            rest.take(j - 1),
        ).0) + walk_plan(opts, base, entries.skip(j)).0);
    }
}

/// Directory ordering: once the walk reaches a directory entry, that
/// directory's creation stands in the walk's side-effect order before every
/// effect of every later entry — in particular before any work item whose
/// target lies beneath it is enqueued. The walk performs its effects in
/// order and creates each directory synchronously, so the creation has
/// completed before any later entry is even examined, and a fortiori before
/// the walk returns.
pub proof fn lemma_dir_created_before_later_entries(
    opts: Opts,
    base: Seq<Seq<char>>,
    entries: Seq<EntryInfo>,
    i: int,
)
    requires
        0 <= i < entries.len(),
        entries[i].kind is Dir,
        !(opts.no_clobber && entries[i].target_exists),
        walk_plan(opts, base, entries.take(i)).1 is None,
    ensures
        walk_plan(opts, base, entries).0 == walk_plan(opts, base, entries.take(i)).0 + (seq![
            PlanAction::MakeDir(entry_target(base, entries[i])),
        ] + walk_plan(opts, base, entries.skip(i + 1)).0),
{
    lemma_walk_split(opts, base, entries, i);
    let tail = entries.skip(i);
    assert(tail[0] == entries[i]);
    assert(tail.drop_first() =~= entries.skip(i + 1));
    assert(walk_plan(opts, base, tail).0 == seq![
        PlanAction::MakeDir(entry_target(base, entries[i])),
    ] + walk_plan(opts, base, entries.skip(i + 1)).0);
}

} // verus!
