//! Plain records describing watched folders and their file activity.

use vstd::prelude::*;

verus! {

#[derive(Clone, Debug)]
pub struct MonitoredPath {
    pub id: i64,
    pub path: String,
    pub active: bool,
    pub baseline_status: String,
    pub last_scanned_at: Option<String>,
    pub last_error: Option<String>,
}

#[derive(Clone, Copy, Debug, PartialEq, Eq, Structural)]
pub enum FileEventKind {
    Created,
    Modified,
    Deleted,
    Renamed,
    MetadataChanged,
    Unknown,
}

#[derive(Clone, Debug)]
pub struct FileEvent {
    pub id: i64,
    pub monitored_path_id: i64,
    pub kind: FileEventKind,
    pub path: String,
    pub previous_path: Option<String>,
    pub severity: String,
    pub detected_at: String,
    pub reviewed: bool,
}

} // verus!
