use nightingale::domain::file_monitoring::FileEventKind;
use nightingale::domain::policy::{SecurityPolicy, Sensitivity};
use nightingale::domain::threat_detection::{Severity, ThreatAssessment};
use nightingale::repository::allowlist::{allowlist_extension, normalize_allowlist_entry};
use nightingale::repository::file_events::{differs_from_baseline, event_kind_name, needs_current_hash};
use nightingale::repository::models::{MonitoredPath, SecurityEvent, SecurityScore, SeverityCounts};
use nightingale::repository::monitored_paths::{enabled_monitored_paths, monitoring_enabled_for_status};
use nightingale::repository::policy::{
    detection_policy, latest_policy_index, next_policy_version, save_detection_policy,
};
use nightingale::repository::reports::security_report;
use nightingale::repository::security_events::{
    persist_threat_assessment, security_score, update_incident_status, CorrelatedIncident,
    IncidentWrite,
};
use nightingale::repository::settings::retention_age;
use nightingale::repository::{migration_plan, MigrationStep};

fn labels(values: &[&str]) -> Vec<String> {
    values.iter().map(|v| v.to_string()).collect()
}

fn assessment(severity: Severity) -> ThreatAssessment {
    ThreatAssessment {
        event_type: "mass_file_change",
        severity,
        title: "대량 파일 변경 감지",
        description: "test",
        correlation_key: "mass_file_change:/tmp".to_string(),
    }
}

#[test]
fn correlated_assessments_extend_one_incident_and_score() {
    // One open high incident, as two correlated high assessments leave behind.
    let first = persist_threat_assessment(None, &assessment(Severity::High));
    assert!(matches!(first.incident, IncidentWrite::Open));
    let second = persist_threat_assessment(
        Some(CorrelatedIncident { id: 7, severity: "high".to_string() }),
        &assessment(Severity::High),
    );
    match second.incident {
        IncidentWrite::Extend { incident_id, severity } => {
            assert_eq!(incident_id, 7);
            assert_eq!(severity, "high");
        }
        IncidentWrite::Open => panic!("expected the incident to be extended"),
    }
    assert_eq!(security_score(&labels(&["high"])).score, 75);
}

#[test]
fn score_counts_open_and_critical_incidents() {
    assert_eq!(
        security_score(&labels(&[])),
        SecurityScore { score: 100, open_incident_count: 0, critical_incident_count: 0 }
    );
    assert_eq!(
        security_score(&labels(&["low", "medium", "bogus", "critical"])),
        SecurityScore { score: 42, open_incident_count: 4, critical_incident_count: 1 }
    );
    assert_eq!(security_score(&labels(&["critical", "critical", "critical"])).score, 0);
}

#[test]
fn escalation_only_raises_low_grade_incidents() {
    let extend = |current: &str, incoming| {
        match persist_threat_assessment(
            Some(CorrelatedIncident { id: 1, severity: current.to_string() }),
            &assessment(incoming),
        )
        .incident
        {
            IncidentWrite::Extend { severity, .. } => severity,
            IncidentWrite::Open => panic!("expected extend"),
        }
    };
    assert_eq!(extend("low", Severity::Critical), "critical");
    assert_eq!(extend("medium", Severity::High), "high");
    assert_eq!(extend("info", Severity::Medium), "info");
    assert_eq!(extend("high", Severity::Critical), "high");
    assert!(!persist_threat_assessment(None, &assessment(Severity::Info)).notify);
    assert!(persist_threat_assessment(None, &assessment(Severity::Low)).notify);
}

#[test]
fn incident_status_is_checked() {
    assert_eq!(update_incident_status("resolved"), Ok(true));
    assert_eq!(update_incident_status("investigating"), Ok(false));
    assert_eq!(update_incident_status("open"), Ok(false));
    assert_eq!(
        update_incident_status("closed"),
        Err("지원하지 않는 Incident 상태입니다.".to_string())
    );
}

#[test]
fn allowlist_extension_matches_and_policy_save_stamps_version() {
    let value = normalize_allowlist_entry("extension", ".log", Some(30)).expect("allowlist entry");
    assert_eq!(value, "log");
    assert_eq!(allowlist_extension("/tmp/nightingale-allow/build.log"), value);
    let mut policy = detection_policy(None);
    assert_eq!(policy, SecurityPolicy::default());
    policy.sensitivity = Sensitivity::High;
    let saved = save_detection_policy(policy, 2).expect("saved policy");
    assert_eq!(saved.sensitivity, Sensitivity::High);
    assert_eq!(saved.version, 2);
}

#[test]
fn allowlist_entries_are_normalized_and_checked() {
    assert_eq!(normalize_allowlist_entry("extension", "  ..LOG ", None), Ok("log".to_string()));
    assert_eq!(normalize_allowlist_entry("path", " /var/tmp// ", None), Ok("/var/tmp".to_string()));
    assert_eq!(
        normalize_allowlist_entry("hash", "abc", None),
        Err("신뢰 항목 형식이 올바르지 않습니다.".to_string())
    );
    assert_eq!(
        normalize_allowlist_entry("path", "   ", None),
        Err("신뢰 항목 형식이 올바르지 않습니다.".to_string())
    );
    assert_eq!(
        normalize_allowlist_entry("path", "/tmp", Some(0)),
        Err("만료 기간은 1~3650일이어야 합니다.".to_string())
    );
    assert_eq!(
        normalize_allowlist_entry("extension", "...", Some(3650)),
        Err("신뢰 항목 값이 비어 있습니다.".to_string())
    );
    assert_eq!(allowlist_extension("/tmp/Build.TXT"), "txt");
    assert_eq!(allowlist_extension("/tmp/.bashrc"), "");
    assert_eq!(allowlist_extension("/tmp/archive.tar.GZ"), "gz");
    assert_eq!(allowlist_extension("/tmp/noext"), "");
}

#[test]
fn baseline_comparison_by_event_kind() {
    let some = |v: &str| Some(v.to_string());
    assert!(differs_from_baseline(FileEventKind::Deleted, &some("aa"), &None));
    assert!(!differs_from_baseline(FileEventKind::Deleted, &None, &None));
    assert!(differs_from_baseline(FileEventKind::Created, &None, &None));
    assert!(!differs_from_baseline(FileEventKind::Created, &some("aa"), &None));
    assert!(differs_from_baseline(FileEventKind::Modified, &some("aa"), &some("bb")));
    assert!(!differs_from_baseline(FileEventKind::Modified, &some("aa"), &some("aa")));
    assert!(!differs_from_baseline(FileEventKind::Modified, &some("aa"), &None));
    assert!(!differs_from_baseline(FileEventKind::Renamed, &None, &None));
    assert!(needs_current_hash(FileEventKind::Modified, &some("aa")));
    assert!(!needs_current_hash(FileEventKind::Created, &some("aa")));
    assert_eq!(event_kind_name(FileEventKind::MetadataChanged), "metadata_changed");
    assert_eq!(event_kind_name(FileEventKind::Created), "created");
}

#[test]
fn policy_save_rejects_invalid_policy() {
    let mut policy = SecurityPolicy::default();
    policy.monitored_paths = vec!["".to_string()];
    assert_eq!(
        save_detection_policy(policy, 5).err(),
        Some("monitored paths cannot be empty".to_string())
    );
    let stored = SecurityPolicy { version: 4, sensitivity: Sensitivity::Low, ..SecurityPolicy::default() };
    assert_eq!(detection_policy(Some(stored.clone())), stored);
}

fn security_event(id: i64, severity: &str) -> SecurityEvent {
    SecurityEvent {
        id,
        event_type: "file_activity".to_string(),
        severity: severity.to_string(),
        title: "t".to_string(),
        description: "d".to_string(),
        occurred_at: "2024-01-01 00:00:00".to_string(),
        reviewed: false,
    }
}

#[test]
fn report_lists_at_most_ten_risk_events() {
    let mut events = Vec::new();
    for id in 0..15 {
        events.push(security_event(id, if id % 3 == 0 { "info" } else { "high" }));
    }
    events.push(security_event(99, "medium"));
    let report = security_report(
        "2024-01-01 00:00:00".to_string(),
        SecurityScore { score: 75, open_incident_count: 1, critical_incident_count: 0 },
        3,
        SeverityCounts { info: 5, low: 0, medium: 1, high: 10, critical: 0 },
        2,
        40,
        events,
    );
    assert_eq!(report.recent_detections.len(), 16);
    let ids: Vec<i64> = report.recent_risk_events.iter().map(|e| e.id).collect();
    assert_eq!(ids, vec![1, 2, 4, 5, 7, 8, 10, 11, 13, 14]);
    assert_eq!(report.total_incidents, 3);
    assert_eq!(report.security_score.score, 75);
}

fn monitored(id: i64, enabled: bool) -> MonitoredPath {
    MonitoredPath {
        id,
        path: format!("/watch/{id}"),
        enabled,
        monitoring_status: if enabled { "running" } else { "paused" }.to_string(),
        baseline_status: "complete".to_string(),
        last_scan_at: None,
        last_event_at: None,
        last_error: None,
    }
}

#[test]
fn only_enabled_paths_are_restored() {
    let paths = vec![monitored(1, true), monitored(2, false), monitored(3, true)];
    let ids: Vec<i64> = enabled_monitored_paths(&paths).iter().map(|p| p.id).collect();
    assert_eq!(ids, vec![1, 3]);
    assert!(monitoring_enabled_for_status("running"));
    assert!(!monitoring_enabled_for_status("paused"));
}

#[test]
fn migration_plan_runs_each_step_once() {
    assert_eq!(
        migration_plan(1, false),
        vec![
            MigrationStep::FileMonitoring,
            MigrationStep::ThreatDetection,
            MigrationStep::SecurityManagement,
            MigrationStep::Performance,
            MigrationStep::AllowlistAndDetectionPolicy
        ]
    );
    assert_eq!(migration_plan(1, true)[0], MigrationStep::RecordFileMonitoringVersion);
    assert_eq!(migration_plan(4, false), vec![MigrationStep::Performance, MigrationStep::AllowlistAndDetectionPolicy]);
    assert!(migration_plan(6, false).is_empty());
}

#[test]
fn retention_age_modifier() {
    assert_eq!(retention_age(90), "-90 days");
    assert_eq!(retention_age(3650), "-3650 days");
    assert_eq!(retention_age(0), "-0 days");
    assert_eq!(retention_age(-5), "--5 days");
}

#[test]
fn latest_policy_is_the_highest_version() {
    assert_eq!(latest_policy_index(&vec![]), None);
    assert_eq!(latest_policy_index(&vec![1, 3, 2]), Some(1));
    assert_eq!(latest_policy_index(&vec![4, 1, 4]), Some(0));
}

#[test]
fn next_policy_version_is_one_above_the_highest() {
    assert_eq!(next_policy_version(&vec![]), Some(1));
    assert_eq!(next_policy_version(&vec![2, 7, 5]), Some(8));
    assert_eq!(next_policy_version(&vec![1, u32::MAX]), None);
}

#[test]
fn saved_policy_is_read_back_as_the_policy_in_force() {
    let mut versions = vec![1, 2];
    let policy = SecurityPolicy { version: 9, ..SecurityPolicy::default() };
    let next = next_policy_version(&versions).unwrap();
    let saved = save_detection_policy(policy, next).unwrap();
    assert_eq!(saved.version, 3);
    versions.push(saved.version);
    let mut stored = vec![SecurityPolicy::default(), SecurityPolicy::default()];
    stored.push(saved.clone());
    let latest = latest_policy_index(&versions).map(|index| stored[index].clone());
    assert_eq!(detection_policy(latest), saved);
}
