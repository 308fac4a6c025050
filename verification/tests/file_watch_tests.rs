use leafshell::file_watch::{
    translate_event, translate_kind, FileChangeKind, FileWatchBridge, FileWatchError,
    RawChangeKind,
};

#[test]
fn start_after_start_fails_with_already_running() {
    let mut bridge = FileWatchBridge::new();
    assert!(bridge.start("/etc/leaf".to_string()).is_ok());
    assert!(bridge.is_running());
    assert_eq!(
        bridge.start("/tmp/other".to_string()),
        Err(FileWatchError::AlreadyRunning)
    );
    assert!(bridge.is_running());
}

#[test]
fn stop_after_stop_fails_with_not_running() {
    let mut bridge = FileWatchBridge::new();
    assert_eq!(bridge.stop(), Err(FileWatchError::NotRunning));
    assert!(bridge.start("/etc/leaf".to_string()).is_ok());
    assert!(bridge.stop().is_ok());
    assert!(!bridge.is_running());
    assert_eq!(bridge.stop(), Err(FileWatchError::NotRunning));
}

#[test]
fn restart_after_stop_is_allowed() {
    let mut bridge = FileWatchBridge::new();
    assert!(bridge.start("/etc/leaf".to_string()).is_ok());
    assert!(bridge.stop().is_ok());
    assert!(bridge.start("/etc/leaf2".to_string()).is_ok());
    assert!(bridge.is_running());
}

#[test]
fn new_bridge_is_not_running() {
    let bridge = FileWatchBridge::new();
    assert!(!bridge.is_running());
}

#[test]
fn known_kinds_keep_their_meaning() {
    assert_eq!(translate_kind(RawChangeKind::Create), FileChangeKind::Create);
    assert_eq!(translate_kind(RawChangeKind::Modify), FileChangeKind::Modify);
    assert_eq!(translate_kind(RawChangeKind::Remove), FileChangeKind::Remove);
    assert_eq!(translate_kind(RawChangeKind::Access), FileChangeKind::Other);
    assert_eq!(translate_kind(RawChangeKind::Other), FileChangeKind::Other);
}

#[test]
fn one_event_per_affected_path() {
    let paths = vec!["/a/conf.json".to_string(), "/a/rules.dat".to_string()];
    let events = translate_event(RawChangeKind::Modify, &paths);
    assert_eq!(events.len(), 2);
    assert_eq!(events[0].path, "/a/conf.json");
    assert_eq!(events[0].kind, FileChangeKind::Modify);
    assert_eq!(events[1].path, "/a/rules.dat");
    assert_eq!(events[1].kind, FileChangeKind::Modify);
}

#[test]
fn no_paths_mean_no_events() {
    let events = translate_event(RawChangeKind::Remove, &Vec::new());
    assert!(events.is_empty());
}
