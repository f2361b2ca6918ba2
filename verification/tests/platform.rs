use nightingale::domain::file_monitoring::FileEventKind;
use nightingale::platform::file_watcher::{
    classify_event_kind, CreateKind, ModifyKind, RemoveKind, WatchEventKind,
};
use nightingale::platform::{capabilities, operating_system, CapabilityStatus};

#[test]
fn capability_table_is_fixed() {
    let table = capabilities();
    let keys: Vec<&str> = table.iter().map(|c| c.key).collect();
    assert_eq!(
        keys,
        vec!["앱 상태", "시스템 모니터링", "파일 감시", "운영체제 보안 저장소", "상세 프로세스 정보", "자동 대응"]
    );
    assert_eq!(table[0].status, CapabilityStatus::Supported);
    assert_eq!(table[5].status, CapabilityStatus::Unsupported);
}

#[test]
fn operating_system_names() {
    assert_eq!(operating_system("macos"), "macOS");
    assert_eq!(operating_system("windows"), "Windows");
    assert_eq!(operating_system("linux"), "지원되지 않는 운영체제");
}

#[test]
fn watcher_events_are_normalized() {
    assert_eq!(classify_event_kind(WatchEventKind::Create(CreateKind::Folder)), FileEventKind::Created);
    assert_eq!(classify_event_kind(WatchEventKind::Remove(RemoveKind::Any)), FileEventKind::Deleted);
    assert_eq!(classify_event_kind(WatchEventKind::Modify(ModifyKind::Name)), FileEventKind::Renamed);
    assert_eq!(
        classify_event_kind(WatchEventKind::Modify(ModifyKind::Metadata)),
        FileEventKind::MetadataChanged
    );
    assert_eq!(classify_event_kind(WatchEventKind::Modify(ModifyKind::Data)), FileEventKind::Modified);
    assert_eq!(classify_event_kind(WatchEventKind::Modify(ModifyKind::Any)), FileEventKind::Modified);
    assert_eq!(classify_event_kind(WatchEventKind::Access), FileEventKind::Unknown);
    assert_eq!(classify_event_kind(WatchEventKind::Other), FileEventKind::Unknown);
}
