//! Row shapes returned across the storage boundary.

use vstd::prelude::*;
use crate::domain::policy::SecurityPolicy;

verus! {

#[derive(Clone, Debug)]
pub struct MonitoredPath {
    pub id: i64,
    pub path: String,
    pub enabled: bool,
    pub monitoring_status: String,
    pub baseline_status: String,
    pub last_scan_at: Option<String>,
    pub last_event_at: Option<String>,
    pub last_error: Option<String>,
}

impl MonitoredPath {
    /// A field-by-field copy.
    pub fn duplicate(&self) -> (r: Self)
        ensures
            r == *self,
    {
        MonitoredPath {
            id: self.id,
            path: self.path.clone(),
            enabled: self.enabled,
            monitoring_status: self.monitoring_status.clone(),
            baseline_status: self.baseline_status.clone(),
            last_scan_at: match &self.last_scan_at {
                Some(v) => Some(v.clone()),
                None => None,
            },
            last_event_at: match &self.last_event_at {
                Some(v) => Some(v.clone()),
                None => None,
            },
            last_error: match &self.last_error {
                Some(v) => Some(v.clone()),
                None => None,
            },
        }
    }
}

#[derive(Clone, Debug)]
pub struct FileEvent {
    pub id: i64,
    pub event_kind: String,
    pub file_path: String,
    pub severity: String,
    pub occurred_at: String,
}

#[derive(Clone, Debug)]
pub struct SecurityEvent {
    pub id: i64,
    pub event_type: String,
    pub severity: String,
    pub title: String,
    pub description: String,
    pub occurred_at: String,
    pub reviewed: bool,
}

impl SecurityEvent {
    /// A field-by-field copy.
    pub fn duplicate(&self) -> (r: Self)
        ensures
            r == *self,
    {
        SecurityEvent {
            id: self.id,
            event_type: self.event_type.clone(),
            severity: self.severity.clone(),
            title: self.title.clone(),
            description: self.description.clone(),
            occurred_at: self.occurred_at.clone(),
            reviewed: self.reviewed,
        }
    }
}

#[derive(Clone, Debug)]
pub struct Incident {
    pub id: i64,
    pub severity: String,
    pub status: String,
    pub title: String,
    pub description: String,
    pub event_count: i64,
    pub first_detected_at: String,
    pub last_detected_at: String,
}

/// An explainable signal that contributed to an incident, with the file event behind it.
#[derive(Clone, Debug)]
pub struct IncidentTimelineEvent {
    pub security_event_id: i64,
    pub event_type: String,
    pub severity: String,
    pub title: String,
    pub description: String,
    pub occurred_at: String,
    pub reviewed: bool,
    pub file_event_id: Option<i64>,
    pub file_event_kind: Option<String>,
    pub file_path: Option<String>,
}

#[derive(Clone, Debug)]
pub struct AllowlistEntry {
    pub id: i64,
    pub entry_type: String,
    pub value: String,
    pub expires_at: Option<String>,
    pub created_at: String,
}

#[derive(Clone, Debug)]
pub struct AllowlistAuditEntry {
    pub id: i64,
    pub entry_id: Option<i64>,
    pub action: String,
    pub entry_type: String,
    pub value: String,
    pub occurred_at: String,
}

#[derive(Clone, Copy, Debug, PartialEq, Eq, Structural)]
pub struct SecurityScore {
    pub score: i64,
    pub open_incident_count: i64,
    pub critical_incident_count: i64,
}

#[derive(Clone, Debug)]
pub struct Notification {
    pub id: i64,
    pub incident_id: Option<i64>,
    pub severity: String,
    pub title: String,
    pub message: String,
    pub read: bool,
    pub created_at: String,
}

#[derive(Clone, Debug)]
pub struct SecurityReport {
    pub generated_at: String,
    pub security_score: SecurityScore,
    pub total_incidents: i64,
    pub severity_counts: SeverityCounts,
    pub monitored_folder_count: i64,
    pub file_event_count: i64,
    pub recent_detections: Vec<SecurityEvent>,
    pub recent_risk_events: Vec<SecurityEvent>,
}

#[derive(Clone, Copy, Debug, PartialEq, Eq, Structural)]
pub struct SeverityCounts {
    pub info: i64,
    pub low: i64,
    pub medium: i64,
    pub high: i64,
    pub critical: i64,
}

/// Values the detector needs about one file event, read together.
#[derive(Clone, Debug)]
pub struct FileEventAnalysisContext {
    pub threat_detection_enabled: bool,
    pub allowlisted: bool,
    pub policy: SecurityPolicy,
    pub differs_from_baseline: bool,
    pub recent_changes: i64,
}

} // verus!
