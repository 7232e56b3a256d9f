use kslauncher::bitmap::{convert_icon, resolve_icon, IconError, RawIcon};
use kslauncher::queue::{EventQueue, Offer, OverflowPolicy};
use kslauncher::state::{entry_for, Child, Entry, FolderState};
use kslauncher::watch::{classify, RawKind, RawModify, RawRename, WatchEvent};

fn icon() -> Result<RawIcon, IconError> {
    Ok(RawIcon { width: 1, height: 1, bgra: vec![10, 20, 30, 40] })
}

fn state_of(paths: &[&str]) -> FolderState {
    let mut s = FolderState::new();
    for p in paths {
        s.apply_created(p.to_string(), icon());
    }
    s
}

fn paths(s: &FolderState) -> Vec<String> {
    s.entries
        .iter()
        .map(|e| match e {
            Entry::Item { path, .. } => path.clone(),
            Entry::Error { message } => format!("error: {message}"),
        })
        .collect()
}

fn events(v: &[WatchEvent]) -> Vec<String> {
    v.iter()
        .map(|e| match e {
            WatchEvent::Created(p) => format!("created {p}"),
            WatchEvent::Removed(p) => format!("removed {p}"),
            WatchEvent::Modified => "modified".to_string(),
        })
        .collect()
}

#[test]
fn created_appends_at_end() {
    let mut s = state_of(&["a.txt", "b.exe"]);
    s.apply_created("c.png".to_string(), icon());
    assert_eq!(paths(&s), vec!["a.txt", "b.exe", "c.png"]);
}

#[test]
fn created_twice_keeps_duplicates() {
    let mut s = state_of(&["a.txt"]);
    s.apply_created("d.txt".to_string(), icon());
    s.apply_created("d.txt".to_string(), icon());
    assert_eq!(s.len(), 3);
    assert_eq!(paths(&s), vec!["a.txt", "d.txt", "d.txt"]);
}

#[test]
fn created_with_failed_icon_is_error_entry() {
    let mut s = state_of(&["a.txt"]);
    s.apply_created("x.lnk".to_string(), Err(IconError::IconUnavailable));
    assert_eq!(s.len(), 2);
    match &s.entries[1] {
        Entry::Error { message } => assert_eq!(message, "no icon is available: x.lnk"),
        Entry::Item { .. } => panic!("expected an error entry"),
    }
}

#[test]
fn removed_twice_empties_then_stays_empty() {
    let mut s = state_of(&["a.txt"]);
    s.apply_removed(&"a.txt".to_string());
    assert_eq!(s.len(), 0);
    s.apply_removed(&"a.txt".to_string());
    assert_eq!(s.len(), 0);
}

#[test]
fn removed_drops_every_item_and_keeps_errors() {
    let mut s = state_of(&["a.txt", "b.exe", "a.txt"]);
    s.entries.insert(1, Entry::Error { message: "denied".to_string() });
    s.apply_removed(&"a.txt".to_string());
    assert_eq!(paths(&s), vec!["error: denied", "b.exe"]);
}

#[test]
fn removed_absent_path_is_noop() {
    let mut s = state_of(&["a.txt", "b.exe"]);
    s.apply_removed(&"zzz".to_string());
    assert_eq!(paths(&s), vec!["a.txt", "b.exe"]);
}

#[test]
fn modified_changes_nothing() {
    let mut s = state_of(&["a.txt", "b.exe"]);
    s.apply_modified();
    s.apply(WatchEvent::Modified, Err(IconError::PlatformCallFailed));
    assert_eq!(paths(&s), vec!["a.txt", "b.exe"]);
}

#[test]
fn apply_dispatches_each_event() {
    let mut s = state_of(&["a.txt"]);
    s.apply(WatchEvent::Created("b.exe".to_string()), icon());
    s.apply(WatchEvent::Removed("a.txt".to_string()), icon());
    assert_eq!(paths(&s), vec!["b.exe"]);
}

#[test]
fn scan_keeps_listing_order_and_counts() {
    let listing = vec![
        Child::Listed { path: "a.txt".to_string(), icon: icon() },
        Child::Unreadable { message: "bad entry".to_string() },
        Child::Listed { path: "b.exe".to_string(), icon: icon() },
        Child::Listed { path: "c.png".to_string(), icon: Err(IconError::IconUnavailable) },
    ];
    let s = FolderState::scan(Ok(listing));
    assert_eq!(
        paths(&s),
        vec!["a.txt", "error: bad entry", "b.exe", "error: no icon is available: c.png"]
    );
    let items = s.entries.iter().filter(|e| matches!(e, Entry::Item { .. })).count();
    assert_eq!(items, 2);
    assert_eq!(s.len() - items, 2);
}

#[test]
fn scan_of_empty_directory_is_empty() {
    let s = FolderState::scan(Ok(vec![]));
    assert_eq!(s.len(), 0);
}

#[test]
fn scan_failure_is_single_error() {
    let s = FolderState::scan(Err("access denied".to_string()));
    assert_eq!(s.len(), 1);
    match &s.entries[0] {
        Entry::Error { message } => assert!(message.contains("access denied")),
        Entry::Item { .. } => panic!("expected an error entry"),
    }
}

#[test]
fn convert_swaps_blue_and_red() {
    let raw = RawIcon { width: 2, height: 1, bgra: vec![1, 2, 3, 4, 5, 6, 7, 8] };
    let b = convert_icon(raw).unwrap();
    assert_eq!(b.width, 2);
    assert_eq!(b.height, 1);
    assert_eq!(b.pixels, vec![3, 2, 1, 4, 7, 6, 5, 8]);
}

#[test]
fn convert_twice_is_identical() {
    let raw = RawIcon { width: 2, height: 2, bgra: (0u8..16).collect() };
    let a = convert_icon(raw.clone()).unwrap();
    let b = convert_icon(raw).unwrap();
    assert_eq!(a.width, b.width);
    assert_eq!(a.height, b.height);
    assert_eq!(a.pixels, b.pixels);
}

#[test]
fn convert_empty_icon() {
    let b = convert_icon(RawIcon { width: 0, height: 0, bgra: vec![] }).unwrap();
    assert_eq!(b.pixels.len(), 0);
}

#[test]
fn convert_rejects_negative_size() {
    let r = convert_icon(RawIcon { width: -1, height: 1, bgra: vec![] });
    assert_eq!(r.unwrap_err(), IconError::PlatformCallFailed);
}

#[test]
fn convert_rejects_wrong_buffer_length() {
    let r = convert_icon(RawIcon { width: 1, height: 1, bgra: vec![1, 2, 3] });
    assert_eq!(r.unwrap_err(), IconError::PlatformCallFailed);
}

#[test]
fn convert_rejects_huge_dimensions() {
    let r = convert_icon(RawIcon { width: i32::MAX, height: i32::MAX, bgra: vec![] });
    assert_eq!(r.unwrap_err(), IconError::PlatformCallFailed);
}

#[test]
fn resolve_passes_failure_on() {
    let r = resolve_icon(Err(IconError::IconUnavailable));
    assert_eq!(r.unwrap_err(), IconError::IconUnavailable);
}

#[test]
fn entry_for_failed_platform_call() {
    match entry_for("q.bin".to_string(), Err(IconError::PlatformCallFailed)) {
        Entry::Error { message } => assert_eq!(message, "a platform call failed: q.bin"),
        Entry::Item { .. } => panic!("expected an error entry"),
    }
}

#[test]
fn classify_creation_and_rename_in() {
    let ps = vec!["a".to_string(), "b".to_string()];
    assert_eq!(events(&classify(RawKind::Create, ps.clone())), vec!["created a", "created b"]);
    assert_eq!(
        events(&classify(RawKind::Modify(RawModify::Name(RawRename::To)), ps)),
        vec!["created a", "created b"]
    );
}

#[test]
fn classify_removal_and_rename_out() {
    let ps = vec!["a".to_string()];
    assert_eq!(events(&classify(RawKind::Remove, ps.clone())), vec!["removed a"]);
    assert_eq!(
        events(&classify(RawKind::Modify(RawModify::Name(RawRename::From)), ps)),
        vec!["removed a"]
    );
}

#[test]
fn classify_other_modifications() {
    let ps = vec!["a".to_string(), "b".to_string()];
    assert_eq!(events(&classify(RawKind::Modify(RawModify::Data), ps.clone())), vec!["modified"]);
    assert_eq!(
        events(&classify(RawKind::Modify(RawModify::Name(RawRename::Both)), ps)),
        vec!["modified"]
    );
}

#[test]
fn classify_drops_other_kinds() {
    let ps = vec!["a".to_string()];
    assert!(classify(RawKind::Access, ps.clone()).is_empty());
    assert!(classify(RawKind::Any, ps.clone()).is_empty());
    assert!(classify(RawKind::Other, ps).is_empty());
}

#[test]
fn queue_is_fifo() {
    let mut q = EventQueue::new(16, OverflowPolicy::Block);
    assert!(matches!(q.offer(WatchEvent::Created("a".to_string())), Offer::Queued));
    assert!(matches!(q.offer(WatchEvent::Removed("a".to_string())), Offer::Queued));
    assert_eq!(q.len(), 2);
    assert!(matches!(q.take(), Some(WatchEvent::Created(p)) if p == "a"));
    assert!(matches!(q.take(), Some(WatchEvent::Removed(p)) if p == "a"));
    assert!(q.take().is_none());
}

#[test]
fn queue_block_refuses_when_full() {
    let mut q = EventQueue::new(1, OverflowPolicy::Block);
    q.offer(WatchEvent::Modified);
    assert!(q.is_full());
    assert!(matches!(q.offer(WatchEvent::Created("b".to_string())), Offer::Refused(WatchEvent::Created(p)) if p == "b"));
    assert_eq!(q.len(), 1);
    assert_eq!(q.dropped(), 0);
}

#[test]
fn queue_drop_oldest_displaces_front() {
    let mut q = EventQueue::new(2, OverflowPolicy::DropOldest);
    q.offer(WatchEvent::Created("a".to_string()));
    q.offer(WatchEvent::Created("b".to_string()));
    assert!(matches!(q.offer(WatchEvent::Created("c".to_string())), Offer::Displaced(WatchEvent::Created(p)) if p == "a"));
    assert_eq!(q.dropped(), 1);
    assert!(matches!(q.take(), Some(WatchEvent::Created(p)) if p == "b"));
    assert!(matches!(q.take(), Some(WatchEvent::Created(p)) if p == "c"));
}

#[test]
fn queue_drop_newest_discards_offer() {
    let mut q = EventQueue::new(1, OverflowPolicy::DropNewest);
    q.offer(WatchEvent::Created("a".to_string()));
    assert!(matches!(q.offer(WatchEvent::Created("b".to_string())), Offer::Discarded));
    assert_eq!(q.dropped(), 1);
    assert!(matches!(q.take(), Some(WatchEvent::Created(p)) if p == "a"));
    assert!(q.take().is_none());
}
