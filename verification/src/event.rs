use vstd::prelude::*;

verus! {

/// What a filesystem change notification reported about a watched file,
/// reduced to the distinctions the reload pipeline acts on. The embedding
/// program translates its change-detection backend's events into this form,
/// one variant per kind of report.
#[derive(Clone, Copy, Debug, PartialEq, Eq, Structural)]
pub enum FsEventKind {
    /// The bytes of the file changed.
    ContentModified,
    /// Only metadata changed: a timestamp touch, permissions, ownership.
    MetadataChanged,
    /// The file was created.
    Created,
    /// The file was removed.
    Removed,
    /// The file was renamed.
    Renamed,
    /// Any other report, including errors from the backend.
    Other,
}

/// A reload is attempted exactly for a genuine content change.
pub open spec fn spec_should_reload(event: FsEventKind) -> bool {
    event == FsEventKind::ContentModified
}

/// Decides whether a change notification qualifies for a reload attempt:
/// only a content modification does.
pub fn should_reload(event: FsEventKind) -> (r: bool)
    ensures
        r == spec_should_reload(event),
{
    match event {
        FsEventKind::ContentModified => true,
        _ => false,
    }
}

/// A notification that does not report a content change never qualifies for
/// a reload: metadata-only touches, creations, removals and renames are all
/// suppressed.
pub proof fn lemma_touch_never_reloads(event: FsEventKind)
    requires
        event != FsEventKind::ContentModified,
    ensures
        !spec_should_reload(event),
{
}

} // verus!
