use nightingale::application::app_status;
use nightingale::application::baseline::{
    baseline_entry_action, baseline_modified_at, baseline_outcome, EntryAction,
};
use nightingale::application::error::{AppError, UserFacingError};
use nightingale::application::file_monitoring::EventDeduplicator;
use nightingale::application::security_management::update_settings;
use nightingale::application::threat_detection::analyze_file_event;
use nightingale::domain::file_monitoring::{is_duplicate, FileEventKind, NormalizedFileEvent};
use nightingale::domain::policy::SecurityPolicy;
use nightingale::domain::security_management::ApplicationSettings;
use nightingale::domain::threat_detection::Severity;
use nightingale::repository::models::FileEventAnalysisContext;
use std::path::PathBuf;

fn event(path: &str, kind: FileEventKind, at: u128) -> NormalizedFileEvent {
    NormalizedFileEvent {
        monitored_path: "/watch".to_string(),
        path: path.to_string(),
        kind,
        observed_at_ms: at,
    }
}

#[test]
fn error_has_stable_user_code() {
    let error: UserFacingError = AppError::PermissionDenied.into();
    assert_eq!(error.code, "permission_denied");
    assert!(error.retryable);
}

#[test]
fn every_error_has_its_own_code() {
    let codes: Vec<(&str, bool)> = [
        AppError::PermissionDenied,
        AppError::InvalidPolicy,
        AppError::UnsupportedFeature,
        AppError::TemporarilyUnavailable,
    ]
    .into_iter()
    .map(|e| {
        let u = UserFacingError::from(e);
        (u.code, u.retryable)
    })
    .collect();
    assert_eq!(
        codes,
        vec![
            ("permission_denied", true),
            ("invalid_policy", false),
            ("unsupported_feature", false),
            ("temporarily_unavailable", true)
        ]
    );
    assert_eq!(AppError::InvalidPolicy.message(), "invalid security policy");
    let invalid = UserFacingError::from(AppError::InvalidPolicy);
    assert_eq!(invalid.action, "기본 설정으로 복구하세요.");
}

#[test]
fn deduplication_is_scoped_to_each_path() {
    let first = NormalizedFileEvent {
        monitored_path: PathBuf::from("/watch").to_string_lossy().to_string(),
        path: PathBuf::from("/watch/a.txt").to_string_lossy().to_string(),
        kind: FileEventKind::Modified,
        observed_at_ms: 100,
    };
    let other_path = NormalizedFileEvent {
        path: PathBuf::from("/watch/b.txt").to_string_lossy().to_string(),
        observed_at_ms: 101,
        ..first.duplicate()
    };
    assert!(!is_duplicate(&first, &other_path));
}

#[test]
fn deduplicator_drops_bursts_per_path() {
    let mut recent = EventDeduplicator::new();
    assert!(recent.should_record(event("/watch/a.txt", FileEventKind::Modified, 1_000)));
    assert!(!recent.should_record(event("/watch/a.txt", FileEventKind::Modified, 1_400)));
    assert!(recent.should_record(event("/watch/b.txt", FileEventKind::Modified, 1_401)));
    assert!(recent.should_record(event("/watch/a.txt", FileEventKind::Deleted, 1_402)));
    assert!(recent.should_record(event("/watch/a.txt", FileEventKind::Deleted, 1_903)));
    // The same path spelled differently is still the same path.
    assert!(!recent.should_record(event("/watch//a.txt", FileEventKind::Deleted, 2_000)));
    // Past the debounce interval the same event on b is recorded again.
    assert!(recent.should_record(event("/watch/b.txt", FileEventKind::Modified, 1_402 + 1_000)));
}

#[test]
fn analysis_is_skipped_when_disabled_or_allowlisted() {
    let context = |enabled, allowlisted| FileEventAnalysisContext {
        threat_detection_enabled: enabled,
        allowlisted,
        policy: SecurityPolicy::default(),
        differs_from_baseline: true,
        recent_changes: 0,
    };
    assert!(analyze_file_event(&context(false, false), "/w/a.txt", FileEventKind::Modified).is_none());
    assert!(analyze_file_event(&context(true, true), "/w/a.txt", FileEventKind::Modified).is_none());
    let a = analyze_file_event(&context(true, false), "/w/a.txt", FileEventKind::Modified)
        .expect("assessment");
    assert_eq!(a.event_type, "integrity_changed");
    assert_eq!(a.severity, Severity::Medium);
    assert_eq!(a.correlation_key, "integrity_changed:w");
}

#[test]
fn settings_update_is_validated() {
    let settings = ApplicationSettings { log_retention_days: 30, ..ApplicationSettings::default() };
    let saved = update_settings(settings).expect("valid settings");
    assert_eq!(saved.log_retention_days, 30);
    let bad = ApplicationSettings { ui_theme: "neon".to_string(), ..ApplicationSettings::default() };
    assert_eq!(update_settings(bad).err(), Some("지원하지 않는 UI 테마입니다.".to_string()));
}

#[test]
fn app_status_names_the_platform() {
    let status = app_status("0.1.0", "macos");
    assert_eq!(status.app_version, "0.1.0");
    assert_eq!(status.operating_system, "macOS");
    assert_eq!(status.capabilities.len(), 6);
    assert_eq!(app_status("0.1.0", "linux").operating_system, "지원되지 않는 운영체제");
}

#[test]
fn baseline_scan_decisions() {
    assert_eq!(baseline_entry_action(true, true, false), EntryAction::Skip);
    assert_eq!(baseline_entry_action(false, true, false), EntryAction::Descend);
    assert_eq!(baseline_entry_action(false, false, true), EntryAction::Hash);
    assert_eq!(baseline_entry_action(false, false, false), EntryAction::Skip);
    assert_eq!(baseline_modified_at(None), 0);
    assert_eq!(baseline_modified_at(Some(1_700_000_000)), 1_700_000_000);
    assert_eq!(baseline_outcome(&Ok(3)), ("complete", None));
    assert_eq!(
        baseline_outcome(&Err("denied".to_string())),
        ("failed", Some("denied".to_string()))
    );
}
