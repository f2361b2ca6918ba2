//! Versioned detection policy storage: the policy in force and the next saved version.

use vstd::prelude::*;
use crate::domain::policy::{SecurityPolicy, Sensitivity};

verus! {

/// `p` is the built-in default policy.
pub open spec fn is_default_policy(p: SecurityPolicy) -> bool {
    &&& p.version == 1
    &&& p.sensitivity == Sensitivity::Medium
    &&& p.features.all_enabled()
    &&& p.monitored_paths@.len() == 0
    &&& p.excluded_paths@.len() == 0
}

/// The policy in force: the latest stored one, or the default when none was stored.
pub fn detection_policy(latest: Option<SecurityPolicy>) -> (p: SecurityPolicy)
    ensures
        latest matches Some(l) ==> p == l,
        latest is None ==> is_default_policy(p),
{
    match latest {
        Some(policy) => policy,
        None => SecurityPolicy::default(),
    }
}

/// Checks a policy and stamps it with the version it is stored under, one above the
/// latest stored version.
pub fn save_detection_policy(policy: SecurityPolicy, next_version: u32) -> (r: Result<
    SecurityPolicy,
    String,
>)
    ensures
        r is Ok <==> policy.is_valid(),
        r matches Ok(p) ==> p == (SecurityPolicy { version: next_version, ..policy }),
        policy.version == 0 ==> (r matches Err(m) && m@ == "policy version must be positive"@),
        policy.version != 0 && !policy.is_valid() ==> (r matches Err(m) && m@
            == "monitored paths cannot be empty"@),
{
    match policy.validate() {
        Err(message) => Err(message.to_owned()),
        Ok(()) => {
            let mut saved = policy;
            saved.version = next_version;
            Ok(saved)
        },
    }
}

/// A policy that was accepted for saving, stamped with a positive version, is valid again
/// when it is read back as the policy in force.
pub proof fn lemma_saved_policy_stays_valid(policy: SecurityPolicy, next_version: u32)
    requires
        policy.is_valid(),
        next_version != 0,
    ensures
        (SecurityPolicy { version: next_version, ..policy }).is_valid(),
{
}

/// Position `i` holds the latest stored version: the highest, and the first row that has it.
pub open spec fn is_latest_version(versions: Seq<u32>, i: int) -> bool {
    &&& 0 <= i < versions.len()
    &&& forall|j: int| 0 <= j < versions.len() ==> #[trigger] versions[j] <= versions[i]
    &&& forall|j: int| 0 <= j < i ==> #[trigger] versions[j] < versions[i]
}

/// Which of the stored policies, given by their versions, is the one in force: the one with
/// the highest version, or none when nothing is stored.
pub fn latest_policy_index(versions: &Vec<u32>) -> (r: Option<usize>)
    ensures
        r is None <==> versions.len() == 0,
        r matches Some(i) ==> is_latest_version(versions@, i as int),
{
    if versions.len() == 0 {
        return None;
    }
    let mut best: usize = 0;
    let mut k: usize = 1;
    while k < versions.len()
        invariant
            1 <= k <= versions.len(),
            best < k,
            forall|j: int| 0 <= j < k ==> #[trigger] versions@[j] <= versions@[best as int],
            forall|j: int| 0 <= j < best ==> #[trigger] versions@[j] < versions@[best as int],
        decreases versions.len() - k,
    {
        if versions[k] > versions[best] {
            best = k;
        }
        k = k + 1;
    }
    Some(best)
}

/// The version a newly saved policy is stored under: one above every stored version, and 1
/// when none is stored. `None` when the highest stored version is already `u32::MAX`.
pub fn next_policy_version(versions: &Vec<u32>) -> (r: Option<u32>)
    ensures
        r is None <==> exists|i: int| 0 <= i < versions.len() && #[trigger] versions@[i] == u32::MAX,
        r matches Some(v) ==> {
            &&& forall|i: int| 0 <= i < versions.len() ==> #[trigger] versions@[i] < v
            &&& versions.len() == 0 ==> v == 1
            &&& versions.len() > 0 ==> exists|i: int| 0 <= i < versions.len() && #[trigger] versions@[i] + 1 == v
        },
{
    match latest_policy_index(versions) {
        None => Some(1),
        Some(i) => {
            if versions[i] == u32::MAX {
                None
            } else {
                Some(versions[i] + 1)
            }
        },
    }
}

/// Reading the policy in force right after a save gives back the saved policy: it is stored
/// under a version above every stored one, so it becomes the latest, and the policy in
/// force is the latest stored one.
pub proof fn lemma_saved_policy_is_read_back(versions: Seq<u32>, next: u32, saved: SecurityPolicy)
    requires
        forall|i: int| 0 <= i < versions.len() ==> #[trigger] versions[i] < next,
        saved.version == next,
    ensures
        is_latest_version(versions.push(saved.version), versions.len() as int),
        forall|i: int| #[trigger] is_latest_version(versions.push(saved.version), i) ==> i == versions.len(),
{
    let stored = versions.push(saved.version);
    assert forall|i: int| #[trigger] is_latest_version(stored, i) implies i == versions.len() by {
        if i < versions.len() {
            assert(stored[i] == versions[i]);
            assert(stored[versions.len() as int] == next);
        }
    }
}

} // verus!
