//! Baseline scans: which directory entries are hashed, and how a scan's outcome is
//! recorded on its monitored path.

use vstd::prelude::*;

verus! {

/// What a baseline scan does with one directory entry.
#[derive(Clone, Copy, Debug, PartialEq, Eq, Structural)]
pub enum EntryAction {
    /// Symbolic links and special files are not followed or hashed.
    Skip,
    /// Directories are scanned recursively.
    Descend,
    /// Regular files are hashed into the baseline.
    Hash,
}

/// Symbolic links are skipped first, then directories are descended into and regular
/// files hashed; anything else is skipped.
pub fn baseline_entry_action(is_symlink: bool, is_dir: bool, is_file: bool) -> (a: EntryAction)
    ensures
        is_symlink ==> a == EntryAction::Skip,
        !is_symlink && is_dir ==> a == EntryAction::Descend,
        !is_symlink && !is_dir && is_file ==> a == EntryAction::Hash,
        !is_symlink && !is_dir && !is_file ==> a == EntryAction::Skip,
{
    if is_symlink {
        EntryAction::Skip
    } else if is_dir {
        EntryAction::Descend
    } else if is_file {
        EntryAction::Hash
    } else {
        EntryAction::Skip
    }
}

/// The modification time stored for a file: whole seconds since the Unix epoch, or 0
/// when the time is unavailable or before the epoch.
pub fn baseline_modified_at(seconds_since_epoch: Option<u64>) -> (t: i64)
    ensures
        seconds_since_epoch is None ==> t == 0,
        seconds_since_epoch matches Some(s) ==> t == s as i64,
{
    match seconds_since_epoch {
        Some(seconds) => seconds as i64,
        None => 0,
    }
}

/// The baseline status recorded when a scan ends: "complete" with no error after a
/// successful scan, "failed" with the error otherwise.
pub fn baseline_outcome(result: &Result<usize, String>) -> (r: (&'static str, Option<String>))
    ensures
        result is Ok ==> r.0@ == "complete"@ && r.1 is None,
        result matches Err(e) ==> r.0@ == "failed"@ && r.1 == Some(*e),
{
    match result {
        Ok(_) => ("complete", None),
        Err(error) => ("failed", Some(error.clone())),
    }
}

} // verus!
