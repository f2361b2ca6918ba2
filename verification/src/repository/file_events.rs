//! Raw file activity: how an event kind is stored, and when an event differs from the
//! integrity baseline.

use vstd::prelude::*;
use crate::domain::file_monitoring::FileEventKind;
use crate::text::str_eq;

verus! {

/// The stored name of an event kind.
pub open spec fn kind_name(kind: FileEventKind) -> Seq<char> {
    match kind {
        FileEventKind::Created => "created"@,
        FileEventKind::Modified => "modified"@,
        FileEventKind::Deleted => "deleted"@,
        FileEventKind::Renamed => "renamed"@,
        FileEventKind::MetadataChanged => "metadata_changed"@,
        FileEventKind::Unknown => "unknown"@,
    }
}

pub fn event_kind_name(kind: FileEventKind) -> (name: &'static str)
    ensures
        name@ == kind_name(kind),
{
    match kind {
        FileEventKind::Created => "created",
        FileEventKind::Modified => "modified",
        FileEventKind::Deleted => "deleted",
        FileEventKind::Renamed => "renamed",
        FileEventKind::MetadataChanged => "metadata_changed",
        FileEventKind::Unknown => "unknown",
    }
}

pub open spec fn text_of(o: Option<String>) -> Option<Seq<char>> {
    match o {
        Some(h) => Some(h@),
        None => None,
    }
}

/// An event departs from the baseline when it creates a file the baseline does not
/// hold, deletes one it holds, or modifies one so that its SHA-256 no longer matches.
/// Renames, metadata changes and unknown events are never compared.
pub open spec fn spec_differs_from_baseline(
    kind: FileEventKind,
    baseline_hash: Option<Seq<char>>,
    current_hash: Option<Seq<char>>,
) -> bool {
    match kind {
        FileEventKind::Deleted => baseline_hash is Some,
        FileEventKind::Created => baseline_hash is None,
        FileEventKind::Modified => baseline_hash is Some && current_hash is Some
            && current_hash->0 != baseline_hash->0,
        _ => false,
    }
}

/// Compares an event with the baseline. `current_hash` is the file's present digest,
/// or `None` when it could not be read; it is only consulted for a modification of a
/// file that has a baseline.
pub fn differs_from_baseline(
    kind: FileEventKind,
    baseline_hash: &Option<String>,
    current_hash: &Option<String>,
) -> (r: bool)
    ensures
        r == spec_differs_from_baseline(kind, text_of(*baseline_hash), text_of(*current_hash)),
{
    match kind {
        FileEventKind::Deleted => match baseline_hash {
            Some(_) => true,
            None => false,
        },
        FileEventKind::Created => match baseline_hash {
            Some(_) => false,
            None => true,
        },
        FileEventKind::Modified => match (baseline_hash, current_hash) {
            (Some(expected), Some(actual)) => !str_eq(actual.as_str(), expected.as_str()),
            _ => false,
        },
        _ => false,
    }
}

/// Whether the present digest of a file must be computed to compare `kind` with the
/// baseline: only for a modification of a file that has a baseline.
pub fn needs_current_hash(kind: FileEventKind, baseline_hash: &Option<String>) -> (r: bool)
    ensures
        r == (kind == FileEventKind::Modified && baseline_hash is Some),
{
    kind == FileEventKind::Modified && baseline_hash.is_some()
}

/// Only creations, deletions and modifications are compared with the baseline: a rename,
/// a metadata change or an unknown event never departs from it, whatever the digests. A
/// deletion departs exactly when the file had a baseline, a creation exactly when it had
/// none, and a modification exactly when both digests are known and differ. Only a
/// modification looks at the present digest.
pub proof fn lemma_baseline_comparison_by_kind(
    kind: FileEventKind,
    baseline_hash: Option<Seq<char>>,
    current_hash: Option<Seq<char>>,
    other_current_hash: Option<Seq<char>>,
)
    ensures
        kind != FileEventKind::Deleted && kind != FileEventKind::Created && kind
            != FileEventKind::Modified ==> !spec_differs_from_baseline(kind, baseline_hash, current_hash),
        kind == FileEventKind::Deleted ==> (spec_differs_from_baseline(kind, baseline_hash, current_hash)
            <==> baseline_hash is Some),
        kind == FileEventKind::Created ==> (spec_differs_from_baseline(kind, baseline_hash, current_hash)
            <==> baseline_hash is None),
        kind == FileEventKind::Modified ==> (spec_differs_from_baseline(kind, baseline_hash, current_hash)
            <==> (baseline_hash matches Some(b) && current_hash matches Some(c) && b != c)),
        kind != FileEventKind::Modified ==> spec_differs_from_baseline(kind, baseline_hash, current_hash)
            == spec_differs_from_baseline(kind, baseline_hash, other_current_hash),
{
}

} // verus!
