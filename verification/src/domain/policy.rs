//! The detection policy: how sensitive the detector is and which signals it uses.

use vstd::prelude::*;
use crate::text::{is_blank, str_is_blank};

verus! {

#[derive(Clone, Copy, Debug, PartialEq, Eq, Structural)]
pub enum Sensitivity {
    Low,
    Medium,
    High,
}

#[derive(Clone, Copy, Debug, PartialEq, Eq, Structural)]
pub struct DetectionFeatures {
    pub mass_file_changes: bool,
    pub mass_extension_changes: bool,
    pub suspicious_file_activity: bool,
    pub integrity_changes: bool,
    pub phishing_url_analysis: bool,
    pub system_anomaly_detection: bool,
}

#[derive(Clone, Debug, PartialEq, Eq)]
pub struct SecurityPolicy {
    pub version: u32,
    pub sensitivity: Sensitivity,
    pub features: DetectionFeatures,
    pub monitored_paths: Vec<String>,
    pub excluded_paths: Vec<String>,
}

impl DetectionFeatures {
    /// Every detection signal switched on.
    pub open spec fn all_enabled(self) -> bool {
        &&& self.mass_file_changes
        &&& self.mass_extension_changes
        &&& self.suspicious_file_activity
        &&& self.integrity_changes
        &&& self.phishing_url_analysis
        &&& self.system_anomaly_detection
    }
}

impl SecurityPolicy {
    /// The policy is well formed: a positive version and no blank monitored path.
    pub open spec fn is_valid(self) -> bool {
        &&& self.version != 0
        &&& forall|i: int|
            0 <= i < self.monitored_paths.len() ==> !is_blank(#[trigger] self.monitored_paths@[i]@)
    }

    /// Checks the policy before it is stored or used.
    pub fn validate(&self) -> (r: Result<(), &'static str>)
        ensures
            r is Ok <==> self.is_valid(),
            self.version == 0 ==> (r matches Err(m) && m@ == "policy version must be positive"@),
            self.version != 0 && !self.is_valid() ==> (r matches Err(m) && m@
                == "monitored paths cannot be empty"@),
    {
        if self.version == 0 {
            return Err("policy version must be positive");
        }
        let mut i: usize = 0;
        while i < self.monitored_paths.len()
            invariant
                self.version != 0,
                i <= self.monitored_paths.len(),
                forall|j: int| 0 <= j < i ==> !is_blank(#[trigger] self.monitored_paths@[j]@),
            decreases self.monitored_paths.len() - i,
        {
            if str_is_blank(self.monitored_paths[i].as_str()) {
                return Err("monitored paths cannot be empty");
            }
            i = i + 1;
        }
        Ok(())
    }
}

impl Default for SecurityPolicy {
    /// Version 1, medium sensitivity, every signal enabled, no paths.
    fn default() -> (p: Self)
        ensures
            p.version == 1,
            p.sensitivity == Sensitivity::Medium,
            p.features.all_enabled(),
            p.monitored_paths@.len() == 0,
            p.excluded_paths@.len() == 0,
    {
        SecurityPolicy {
            version: 1,
            sensitivity: Sensitivity::Medium,
            features: DetectionFeatures {
                mass_file_changes: true,
                mass_extension_changes: true,
                suspicious_file_activity: true,
                integrity_changes: true,
                phishing_url_analysis: true,
                system_anomaly_detection: true,
            },
            monitored_paths: Vec::new(),
            excluded_paths: Vec::new(),
        }
    }
}

/// The default policy is valid.
pub proof fn lemma_default_policy_is_valid(p: SecurityPolicy)
    requires
        p.version == 1,
        p.monitored_paths@.len() == 0,
    ensures
        p.is_valid(),
{
}

} // verus!
