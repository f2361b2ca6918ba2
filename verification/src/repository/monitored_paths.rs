//! The folders the user asked Nightingale to watch, and which of them are restored.

use vstd::prelude::*;
use crate::repository::models::MonitoredPath;
use crate::text::str_eq;

verus! {

/// The paths whose watch is switched on, in their stored order.
pub open spec fn enabled_only(paths: Seq<MonitoredPath>) -> Seq<MonitoredPath>
    decreases paths.len(),
{
    if paths.len() == 0 {
        Seq::empty()
    } else if paths.last().enabled {
        enabled_only(paths.drop_last()).push(paths.last())
    } else {
        enabled_only(paths.drop_last())
    }
}

/// The stored paths that are watched again when the application starts.
pub fn enabled_monitored_paths(paths: &Vec<MonitoredPath>) -> (r: Vec<MonitoredPath>)
    ensures
        r@ == enabled_only(paths@),
{
    let mut r: Vec<MonitoredPath> = Vec::new();
    let mut i: usize = 0;
    while i < paths.len()
        invariant
            i <= paths.len(),
            r@ == enabled_only(paths@.take(i as int)),
        decreases paths.len() - i,
    {
        proof {
            assert(paths@.take(i + 1).drop_last() =~= paths@.take(i as int));
        }
        if paths[i].enabled {
            r.push(paths[i].duplicate());
        }
        i = i + 1;
    }
    assert(paths@.take(paths.len() as int) =~= paths@);
    r
}

/// Every restored path is enabled and is one of the stored paths.
pub proof fn lemma_enabled_paths_are_enabled(paths: Seq<MonitoredPath>)
    ensures
        forall|i: int|
            0 <= i < enabled_only(paths).len() ==> (#[trigger] enabled_only(paths)[i]).enabled
                && paths.contains(enabled_only(paths)[i]),
    decreases paths.len(),
{
    if paths.len() > 0 {
        lemma_enabled_paths_are_enabled(paths.drop_last());
        let before = enabled_only(paths.drop_last());
        assert forall|i: int| 0 <= i < enabled_only(paths).len() implies (#[trigger] enabled_only(
            paths,
        )[i]).enabled && paths.contains(enabled_only(paths)[i]) by {
            if i < before.len() {
                assert(enabled_only(paths)[i] == before[i]);
                let k = choose|k: int| 0 <= k < paths.drop_last().len() && paths.drop_last()[k] == before[i];
                assert(paths[k] == before[i]);
            } else {
                assert(paths[paths.len() - 1] == paths.last());
            }
        }
    }
}

proof fn lemma_enabled_path_is_kept(paths: Seq<MonitoredPath>, i: int)
    requires
        0 <= i < paths.len(),
        paths[i].enabled,
    ensures
        enabled_only(paths).contains(paths[i]),
    decreases paths.len(),
{
    if i == paths.len() - 1 {
        let r = enabled_only(paths);
        assert(r[r.len() - 1] == paths[i]);
    } else {
        lemma_enabled_path_is_kept(paths.drop_last(), i);
        let before = enabled_only(paths.drop_last());
        let k = choose|k: int| 0 <= k < before.len() && before[k] == paths.drop_last()[i];
        assert(enabled_only(paths)[k] == before[k]);
    }
}

/// A stored path whose enabled flag was set from `status` (as `set_monitoring_status`
/// does) is restored at start exactly when that status is "running".
pub proof fn lemma_restored_iff_running(paths: Seq<MonitoredPath>, i: int, status: Seq<char>)
    requires
        0 <= i < paths.len(),
        paths[i].enabled == (status == "running"@),
    ensures
        enabled_only(paths).contains(paths[i]) <==> status == "running"@,
{
    lemma_enabled_paths_are_enabled(paths);
    if paths[i].enabled {
        lemma_enabled_path_is_kept(paths, i);
    } else if enabled_only(paths).contains(paths[i]) {
        let k = choose|k: int| 0 <= k < enabled_only(paths).len() && enabled_only(paths)[k] == paths[i];
        assert((enabled_only(paths)[k]).enabled);
    }
}

/// Whether a path whose watch status is set to `status` is restored on the next start:
/// only a running watch is.
pub fn monitoring_enabled_for_status(status: &str) -> (enabled: bool)
    ensures
        enabled == (status@ == "running"@),
{
    str_eq(status, "running")
}

} // verus!
