use hexed::events::{event_invalidates, FsEventKind};
use hexed::file_source::FileWatcher;

#[test]
fn only_access_events_are_irrelevant() {
    assert!(event_invalidates(FsEventKind::Any));
    assert!(!event_invalidates(FsEventKind::Access));
    assert!(event_invalidates(FsEventKind::Create));
    assert!(event_invalidates(FsEventKind::Modify));
    assert!(event_invalidates(FsEventKind::Remove));
    assert!(event_invalidates(FsEventKind::Other));
}

#[test]
fn every_relevant_kind_clears_the_cache() {
    for kind in [
        FsEventKind::Any,
        FsEventKind::Create,
        FsEventKind::Modify,
        FsEventKind::Remove,
        FsEventKind::Other,
    ] {
        let mut w = FileWatcher::with_page_size(8);
        w.insert_page(0, vec![1, 2, 3]);
        w.handle_fs_event(kind);
        assert_eq!(w.cached_page_count(), 0, "kind {:?}", kind);
    }
}

#[test]
fn access_event_keeps_the_cache() {
    let mut w = FileWatcher::with_page_size(8);
    w.insert_page(0, vec![1, 2, 3]);
    w.handle_fs_event(FsEventKind::Access);
    assert_eq!(w.cached_page_count(), 1);
    assert!(w.has_cached_page(0));
}
