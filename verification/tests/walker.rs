use libxcp::errors::XcpError;
use libxcp::options::Opts;
use libxcp::paths::{empty_path, FsPath};
use libxcp::status::{StatSender, StatusUpdate};
use libxcp::walker::{plan_target_base, process_entry, EntryInfo, FileKind, Operation};

fn path(parts: &[&str]) -> FsPath {
    FsPath { parts: parts.iter().map(|p| p.to_string()).collect() }
}

fn parts_of(p: &FsPath) -> Vec<String> {
    p.parts.clone()
}

fn entry(rel: &[&str], kind: FileKind) -> EntryInfo {
    let mut from = vec!["srcroot"];
    from.extend_from_slice(rel);
    EntryInfo {
        from: path(&from),
        rel: path(rel),
        kind,
        len: 0,
        link: path(&[]),
        target_exists: false,
    }
}

fn opts(no_clobber: bool) -> Opts {
    Opts::new("never", 1024, 4096, false, false, no_clobber, false).unwrap()
}

#[test]
fn empty_path_is_only_the_root_relative_path() {
    assert!(empty_path(&path(&[])));
    assert!(!empty_path(&path(&["a"])));
}

#[test]
fn target_base_nests_under_an_existing_destination() {
    let base = plan_target_base(&path(&["dest"]), &path(&["tree", "src"]), true, false).unwrap();
    assert_eq!(parts_of(&base), vec!["dest", "src"]);
}

#[test]
fn target_base_is_the_destination_itself_otherwise() {
    let fresh = plan_target_base(&path(&["dest"]), &path(&["src"]), false, false).unwrap();
    assert_eq!(parts_of(&fresh), vec!["dest"]);
    let direct = plan_target_base(&path(&["dest"]), &path(&["src"]), true, true).unwrap();
    assert_eq!(parts_of(&direct), vec!["dest"]);
}

#[test]
fn target_base_rejects_an_empty_source() {
    let r = plan_target_base(&path(&["dest"]), &path(&[]), true, false);
    assert!(matches!(r, Err(XcpError::InvalidSource)));
}

/// Runs entries through the walk loop the way the driving shell does:
/// in order, creating each directory target as soon as it is handed back,
/// stopping at the first failure.
fn walk(
    opts: &Opts,
    base: &FsPath,
    entries: &[EntryInfo],
) -> (Result<(), XcpError>, Vec<Operation>, Vec<StatusUpdate>, Vec<Vec<String>>) {
    let (work_tx, work_rx) = crossbeam_channel::unbounded();
    let (stat_tx, stat_rx) = crossbeam_channel::unbounded();
    let stats = StatSender::new(stat_tx, opts);
    let mut created: Vec<Vec<String>> = Vec::new();
    let mut result = Ok(());
    for e in entries {
        match process_entry(opts, base, e, &work_tx, &stats) {
            Ok(Some(dir)) => created.push(parts_of(&dir)),
            Ok(None) => {}
            Err(err) => {
                result = Err(err);
                break;
            }
        }
    }
    drop(work_tx);
    drop(stats);
    (result, work_rx.iter().collect(), stat_rx.iter().collect(), created)
}

#[test]
fn a_regular_file_sends_its_size_then_a_copy_item() {
    let mut e = entry(&["a.txt"], FileKind::File);
    e.len = 42;
    let (result, ops, updates, created) = walk(&opts(false), &path(&["dest"]), &[e]);
    assert!(result.is_ok());
    assert!(created.is_empty());
    assert_eq!(updates.len(), 1);
    assert!(matches!(updates[0], StatusUpdate::Size(42)));
    assert_eq!(ops.len(), 1);
    match &ops[0] {
        Operation::Copy(from, target) => {
            assert_eq!(parts_of(from), vec!["srcroot", "a.txt"]);
            assert_eq!(parts_of(target), vec!["dest", "a.txt"]);
        }
        other => panic!("expected a copy item, got {:?}", other),
    }
}

#[test]
fn a_symlink_enqueues_its_link_target() {
    let mut e = entry(&["ln"], FileKind::Symlink);
    e.link = path(&["elsewhere", "file"]);
    let (result, ops, updates, _) = walk(&opts(false), &path(&["dest"]), &[e]);
    assert!(result.is_ok());
    assert!(updates.is_empty()); // no size contribution for links
    assert_eq!(ops.len(), 1);
    match &ops[0] {
        Operation::Link(link, target) => {
            assert_eq!(parts_of(link), vec!["elsewhere", "file"]);
            assert_eq!(parts_of(target), vec!["dest", "ln"]);
        }
        other => panic!("expected a link item, got {:?}", other),
    }
}

#[test]
fn a_special_file_enqueues_a_special_item() {
    let (result, ops, _, _) = walk(&opts(false), &path(&["dest"]), &[entry(&["s"], FileKind::Fifo)]);
    assert!(result.is_ok());
    assert!(matches!(&ops[0], Operation::Special(_, _)));
}

#[test]
fn the_root_entry_targets_the_base_itself() {
    let (result, _, _, created) = walk(&opts(false), &path(&["dest"]), &[entry(&[], FileKind::Dir)]);
    assert!(result.is_ok());
    assert_eq!(created, vec![vec!["dest".to_string()]]);
}

#[test]
fn an_unknown_kind_aborts_the_walk() {
    let (result, ops, _, _) = walk(&opts(false), &path(&["dest"]), &[entry(&["x"], FileKind::Other)]);
    match result {
        Err(XcpError::UnknownFileType(p)) => assert_eq!(parts_of(&p), vec!["dest", "x"]),
        other => panic!("expected an unknown-file-type error, got {:?}", other),
    }
    assert!(ops.is_empty());
}

#[test]
fn one_preexisting_target_aborts_the_whole_walk() {
    let mut before = entry(&["a"], FileKind::File);
    before.len = 1;
    let mut conflict = entry(&["b"], FileKind::File);
    conflict.target_exists = true;
    let mut after = entry(&["c"], FileKind::File);
    after.len = 3;
    let (result, ops, updates, _) =
        walk(&opts(true), &path(&["dest"]), &[before, conflict, after]);

    // The walk itself fails with the early shutdown.
    assert!(matches!(result, Err(XcpError::EarlyShutdown)));
    // Exactly one destination-exists report, after the clean entry's size.
    let errors: Vec<&StatusUpdate> = updates
        .iter()
        .filter(|u| matches!(u, StatusUpdate::Error(_)))
        .collect();
    assert_eq!(errors.len(), 1);
    match errors[0] {
        StatusUpdate::Error(XcpError::DestinationExists(p)) => {
            assert_eq!(parts_of(p), vec!["dest", "b"]);
        }
        other => panic!("expected a destination-exists report, got {:?}", other),
    }
    // No work item for the conflicting entry or anything after it.
    assert_eq!(ops.len(), 1);
    assert!(matches!(&ops[0], Operation::Copy(_, t) if parts_of(t) == vec!["dest", "a"]));
}

#[test]
fn without_no_clobber_a_preexisting_target_is_overwritten() {
    let mut e = entry(&["a"], FileKind::File);
    e.target_exists = true;
    let (result, ops, _, _) = walk(&opts(false), &path(&["dest"]), &[e]);
    assert!(result.is_ok());
    assert_eq!(ops.len(), 1);
}

#[test]
fn directories_are_created_before_any_later_entry_is_processed() {
    let d1 = entry(&[], FileKind::Dir);
    let d2 = entry(&["sub"], FileKind::Dir);
    let mut f = entry(&["sub", "f"], FileKind::File);
    f.len = 5;
    let (result, ops, _, created) = walk(&opts(false), &path(&["dest"]), &[d1, d2, f]);
    assert!(result.is_ok());
    // Both directory creations happened, in walk order, and had completed
    // by the time the file beneath them was enqueued.
    assert_eq!(
        created,
        vec![vec!["dest".to_string()], vec!["dest".to_string(), "sub".to_string()]]
    );
    assert_eq!(ops.len(), 1);
    assert!(matches!(&ops[0], Operation::Copy(_, t) if parts_of(t) == vec!["dest", "sub", "f"]));
}
