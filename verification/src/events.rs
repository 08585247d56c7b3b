//! Classification of filesystem events.
//!
//! A directory watch delivers events of many kinds.  Only some of them mean
//! that cached file content may be stale: creations, modifications, removals
//! and kinds the watcher could not classify are treated conservatively as
//! relevant, while pure access notifications are not — they occur on every
//! read and clearing the cache for them would defeat caching entirely.

use vstd::prelude::*;

verus! {

/// The kind of a filesystem event, as far as the cache cares about it.
///
/// Mirrors the classification of the watcher backend's event kinds; the
/// application converts each delivered event into one of these before handing
/// it to the accessor.
#[derive(Clone, Copy, Debug, PartialEq, Eq, Structural)]
pub enum FsEventKind {
    /// An event the backend could not classify at all.
    Any,
    /// A pure access (read) notification.
    Access,
    /// A file or directory was created.
    Create,
    /// A file or directory was modified.
    Modify,
    /// A file or directory was removed.
    Remove,
    /// An event of a kind outside the backend's taxonomy.
    Other,
}

/// Whether an event of this kind invalidates cached file content.
pub open spec fn spec_event_invalidates(kind: FsEventKind) -> bool {
    !(kind is Access)
}

/// Classifies an event kind: every kind except a pure access notification
/// invalidates the cache.
pub fn event_invalidates(kind: FsEventKind) -> (r: bool)
    ensures
        r == spec_event_invalidates(kind),
{
    match kind {
        FsEventKind::Access => false,
        _ => true,
    }
}

} // verus!
