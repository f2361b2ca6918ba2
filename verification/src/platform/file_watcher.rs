//! The operating-system watcher's event categories and the file event kind each becomes.

use vstd::prelude::*;
use crate::domain::file_monitoring::FileEventKind;

verus! {

/// What kind of creation the watcher reported.
#[derive(Clone, Copy, Debug, PartialEq, Eq, Structural)]
pub enum CreateKind {
    Any,
    File,
    Folder,
    Other,
}

/// What kind of removal the watcher reported.
#[derive(Clone, Copy, Debug, PartialEq, Eq, Structural)]
pub enum RemoveKind {
    Any,
    File,
    Folder,
    Other,
}

/// What kind of modification the watcher reported.
#[derive(Clone, Copy, Debug, PartialEq, Eq, Structural)]
pub enum ModifyKind {
    Any,
    Data,
    Metadata,
    Name,
    Other,
}

/// The category of a watcher event, as the `notify` crate's `EventKind` reports it.
#[derive(Clone, Copy, Debug, PartialEq, Eq, Structural)]
pub enum WatchEventKind {
    Any,
    Access,
    Create(CreateKind),
    Modify(ModifyKind),
    Remove(RemoveKind),
    Other,
}

/// The file event kind recorded for a watcher event.
pub open spec fn spec_event_kind(kind: WatchEventKind) -> FileEventKind {
    match kind {
        WatchEventKind::Create(_) => FileEventKind::Created,
        WatchEventKind::Remove(_) => FileEventKind::Deleted,
        WatchEventKind::Modify(ModifyKind::Name) => FileEventKind::Renamed,
        WatchEventKind::Modify(ModifyKind::Metadata) => FileEventKind::MetadataChanged,
        WatchEventKind::Modify(_) => FileEventKind::Modified,
        _ => FileEventKind::Unknown,
    }
}

/// Normalizes a watcher event: creations and removals of any kind, renames, metadata
/// changes and other modifications keep their meaning; access and unspecified events
/// are unknown.
pub fn classify_event_kind(kind: WatchEventKind) -> (r: FileEventKind)
    ensures
        r == spec_event_kind(kind),
{
    match kind {
        WatchEventKind::Create(
            CreateKind::Any | CreateKind::File | CreateKind::Folder | CreateKind::Other,
        ) => FileEventKind::Created,
        WatchEventKind::Remove(
            RemoveKind::Any | RemoveKind::File | RemoveKind::Folder | RemoveKind::Other,
        ) => FileEventKind::Deleted,
        WatchEventKind::Modify(ModifyKind::Name) => FileEventKind::Renamed,
        WatchEventKind::Modify(ModifyKind::Metadata) => FileEventKind::MetadataChanged,
        WatchEventKind::Modify(_) => FileEventKind::Modified,
        _ => FileEventKind::Unknown,
    }
}

} // verus!
