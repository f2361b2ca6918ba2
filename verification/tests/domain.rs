use nightingale::domain::file_monitoring::{
    is_duplicate, sha256_file, validate_watch_path, FileEventKind, NormalizedFileEvent,
    WatchPathFacts, EVENT_DEBOUNCE_MS,
};
use nightingale::domain::policy::{SecurityPolicy, Sensitivity};
use nightingale::domain::security_management::ApplicationSettings;
use nightingale::domain::threat_detection::{
    FileEventContext, Severity, ThreatDetectionService, CORRELATION_WINDOW_SECONDS,
};

fn event(path: &str, kind: FileEventKind, at: u128) -> NormalizedFileEvent {
    NormalizedFileEvent {
        monitored_path: "/watch".to_string(),
        path: path.to_string(),
        kind,
        observed_at_ms: at,
    }
}

#[test]
fn defaults_are_safe_and_valid() {
    let policy = SecurityPolicy::default();
    assert_eq!(policy.sensitivity, Sensitivity::Medium);
    assert!(policy.monitored_paths.is_empty());
    assert!(policy.validate().is_ok());
}

#[test]
fn default_settings_are_valid() {
    assert!(ApplicationSettings::default().validate().is_ok());
}

#[test]
fn policy_escalates_mass_changes_and_suspicious_baseline_changes() {
    let mass = ThreatDetectionService::assess_file_event(FileEventContext {
        kind: FileEventKind::Modified,
        path: "/watch/a.txt",
        differs_from_baseline: false,
        recent_changes: 20,
        policy: &SecurityPolicy::default(),
    });
    assert_eq!(mass.severity, Severity::High);
    let suspicious = ThreatDetectionService::assess_file_event(FileEventContext {
        kind: FileEventKind::Modified,
        path: "/watch/update.ps1",
        differs_from_baseline: true,
        recent_changes: 1,
        policy: &SecurityPolicy::default(),
    });
    assert_eq!(suspicious.severity, Severity::High);
}

#[test]
fn policy_version_zero_is_rejected() {
    let mut policy = SecurityPolicy::default();
    policy.version = 0;
    assert_eq!(policy.validate(), Err("policy version must be positive"));
}

#[test]
fn blank_monitored_path_is_rejected() {
    let mut policy = SecurityPolicy::default();
    policy.monitored_paths = vec!["/data".to_string(), " \t\u{3000}".to_string()];
    assert_eq!(policy.validate(), Err("monitored paths cannot be empty"));
    policy.monitored_paths = vec!["/data".to_string(), " x ".to_string()];
    assert!(policy.validate().is_ok());
}

#[test]
fn settings_reject_retention_and_theme() {
    let mut settings = ApplicationSettings::default();
    assert_eq!(settings.log_retention_days, 90);
    assert_eq!(settings.ui_theme, "system");
    settings.log_retention_days = 0;
    assert_eq!(settings.validate(), Err("로그 보관 기간은 1~3650일이어야 합니다."));
    settings.log_retention_days = 3651;
    assert!(settings.validate().is_err());
    settings.log_retention_days = 3650;
    settings.ui_theme = "dark".to_string();
    assert!(settings.validate().is_ok());
    settings.ui_theme = "blue".to_string();
    assert_eq!(settings.validate(), Err("지원하지 않는 UI 테마입니다."));
}

#[test]
fn severity_names_and_penalties() {
    let all = [Severity::Info, Severity::Low, Severity::Medium, Severity::High, Severity::Critical];
    let names: Vec<&str> = all.iter().map(|s| s.as_str()).collect();
    assert_eq!(names, vec!["info", "low", "medium", "high", "critical"]);
    let penalties: Vec<i64> = all.iter().map(|s| s.score_penalty()).collect();
    assert_eq!(penalties, vec![0, 3, 10, 25, 45]);
    assert_eq!(CORRELATION_WINDOW_SECONDS, 300);
}

#[test]
fn assessment_rules_in_priority_order() {
    let policy = SecurityPolicy::default();
    let assess = |kind, path, differs, recent| {
        ThreatDetectionService::assess_file_event(FileEventContext {
            kind,
            path,
            differs_from_baseline: differs,
            recent_changes: recent,
            policy: &policy,
        })
    };
    let mass = assess(FileEventKind::Modified, "/watch/a.txt", false, 20);
    assert_eq!(mass.event_type, "mass_file_change");
    assert_eq!(mass.title, "대량 파일 변경 감지");
    assert_eq!(mass.correlation_key, "mass_file_change:watch");
    let below = assess(FileEventKind::Modified, "/watch/a.txt", false, 19);
    assert_eq!(below.event_type, "file_activity");
    assert_eq!(below.severity, Severity::Info);
    let integrity = assess(FileEventKind::Deleted, "/watch/docs/a.txt", true, 0);
    assert_eq!(integrity.event_type, "integrity_changed");
    assert_eq!(integrity.severity, Severity::Medium);
    assert_eq!(integrity.correlation_key, "integrity_changed:docs");
    let suspicious = assess(FileEventKind::Created, "/watch/run.BAT", false, 0);
    assert_eq!(suspicious.event_type, "suspicious_file_activity");
    assert_eq!(suspicious.severity, Severity::Low);
    let deleted_script = assess(FileEventKind::Deleted, "/watch/run.js", false, 0);
    assert_eq!(deleted_script.event_type, "file_activity");
    let integrity_script = assess(FileEventKind::Modified, "/w/x/tool.Exe", true, 0);
    assert_eq!(integrity_script.event_type, "suspicious_integrity_change");
    assert_eq!(integrity_script.correlation_key, "suspicious_integrity_change:x");
}

#[test]
fn sensitivity_moves_the_mass_change_threshold() {
    let mut policy = SecurityPolicy::default();
    policy.sensitivity = Sensitivity::High;
    let high = ThreatDetectionService::assess_file_event(FileEventContext {
        kind: FileEventKind::Modified,
        path: "a.txt",
        differs_from_baseline: false,
        recent_changes: 10,
        policy: &policy,
    });
    assert_eq!(high.severity, Severity::High);
    assert_eq!(high.correlation_key, "mass_file_change:a.txt");
    policy.sensitivity = Sensitivity::Low;
    let low = ThreatDetectionService::assess_file_event(FileEventContext {
        kind: FileEventKind::Modified,
        path: "a.txt",
        differs_from_baseline: false,
        recent_changes: 34,
        policy: &policy,
    });
    assert_eq!(low.severity, Severity::Info);
    assert_eq!(ThreatDetectionService::MASS_CHANGE_THRESHOLD, 20);
}

#[test]
fn disabled_signals_only_report_activity() {
    let mut policy = SecurityPolicy::default();
    policy.features.mass_file_changes = false;
    policy.features.integrity_changes = false;
    policy.features.suspicious_file_activity = false;
    let a = ThreatDetectionService::assess_file_event(FileEventContext {
        kind: FileEventKind::Created,
        path: "/watch/evil.exe",
        differs_from_baseline: true,
        recent_changes: 1000,
        policy: &policy,
    });
    assert_eq!(a.event_type, "file_activity");
    assert_eq!(a.severity, Severity::Info);
}

#[test]
fn duplicates_need_same_path_kind_and_window() {
    let first = event("/watch/a.txt", FileEventKind::Modified, 100);
    assert!(is_duplicate(&first, &event("/watch/a.txt", FileEventKind::Modified, 100 + EVENT_DEBOUNCE_MS as u128)));
    assert!(!is_duplicate(&first, &event("/watch/a.txt", FileEventKind::Modified, 601 + EVENT_DEBOUNCE_MS as u128)));
    assert!(!is_duplicate(&first, &event("/watch/a.txt", FileEventKind::Created, 101)));
    assert!(is_duplicate(&first, &event("/watch/a.txt", FileEventKind::Modified, 50)));
    let mut other_watch = event("/watch/a.txt", FileEventKind::Modified, 101);
    other_watch.monitored_path = "/other".to_string();
    assert!(!is_duplicate(&first, &other_watch));
}

#[test]
fn duplicates_compare_paths_by_component() {
    let first = event("/watch/a.txt", FileEventKind::Modified, 100);
    assert!(is_duplicate(&first, &event("/watch//a.txt", FileEventKind::Modified, 200)));
    assert!(is_duplicate(&first, &event("/watch/./a.txt", FileEventKind::Modified, 200)));
    assert!(!is_duplicate(&first, &event("/watch/A.txt", FileEventKind::Modified, 200)));
    let mut trailing = event("/watch/a.txt", FileEventKind::Modified, 200);
    trailing.monitored_path = "/watch/".to_string();
    assert!(is_duplicate(&first, &trailing));
}

#[test]
fn watch_path_checks_in_order() {
    let facts = |canonical: Option<&str>, is_dir, has_parent, is_home, is_symlink| WatchPathFacts {
        canonical: canonical.map(|c| c.to_string()),
        is_dir,
        has_parent,
        is_home,
        is_symlink,
    };
    assert_eq!(
        validate_watch_path(facts(None, true, true, false, false)),
        Err("경로를 찾을 수 없거나 접근할 수 없습니다.".to_string())
    );
    assert_eq!(
        validate_watch_path(facts(Some("/a/f.txt"), false, true, false, false)),
        Err("폴더만 감시할 수 있습니다.".to_string())
    );
    assert_eq!(
        validate_watch_path(facts(Some("/"), true, false, false, false)),
        Err("시스템 루트 또는 사용자 홈 전체는 감시할 수 없습니다.".to_string())
    );
    assert_eq!(
        validate_watch_path(facts(Some("/home/u"), true, true, true, false)),
        Err("시스템 루트 또는 사용자 홈 전체는 감시할 수 없습니다.".to_string())
    );
    assert_eq!(
        validate_watch_path(facts(Some("/home/u/l"), true, true, false, true)),
        Err("심볼릭 링크는 감시할 수 없습니다.".to_string())
    );
    assert_eq!(
        validate_watch_path(facts(Some("/home/u/docs"), true, true, false, false)),
        Ok("/home/u/docs".to_string())
    );
}

#[test]
fn hashes_file_contents() {
    let hash = sha256_file(b"nightingale");
    assert_eq!(hash.len(), 64);
    assert_eq!(hash, "5d56f934eb26a461fe008949b17ab6e6293166255ec6f122d46649e93ce4b631");
    assert_eq!(
        sha256_file(b""),
        "e3b0c44298fc1c149afbf4c8996fb92427ae41e4649b934ca495991b7852b855"
    );
}
