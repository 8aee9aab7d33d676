use clipsync::clock::LocalStamp;
use clipsync::sync::{ConnState, LocalAction, SyncEngine};

fn engine(initial: Option<&str>) -> SyncEngine {
    SyncEngine::new("PC-A".to_string(), initial.map(|s| s.to_string()))
}

/// 2026-05-28 20:26:40 UTC, seen from UTC+3.
fn now() -> LocalStamp {
    LocalStamp::new(1_780_000_000, 3 * 3600).unwrap()
}

const NOW_TEXT: &str = "2026-05-28 23:26:40";

#[test]
fn new_engine_is_disconnected() {
    let e = engine(None);
    assert_eq!(e.conn_label(), "Kopuk");
    assert_eq!(e.last_success_str(), "-");
    assert_eq!(e.last_action(), "başlatıldı");
    let _ = ConnState::Disconnected;
}

#[test]
fn initial_clipboard_is_not_sent() {
    let mut e = engine(Some("hello"));
    e.on_connected(now());
    assert!(matches!(e.on_local_clipboard("hello".to_string(), now()), LocalAction::Ignored));
}

#[test]
fn local_change_while_connected_is_sent() {
    let mut e = engine(None);
    assert_eq!(e.on_connected(now()), None);
    assert_eq!(e.last_action(), "bağlantı kuruldu");
    assert_eq!(e.conn_label(), "Bağlı");
    match e.on_local_clipboard("abc".to_string(), now()) {
        LocalAction::Send(t) => assert_eq!(t, "abc"),
        other => panic!("unexpected {:?}", other),
    }
    assert_eq!(e.last_action(), "pano değişti → gönderildi");
    assert_eq!(e.last_success_str(), NOW_TEXT);
}

#[test]
fn repeated_copy_is_ignored() {
    let mut e = engine(None);
    e.on_connected(now());
    assert!(matches!(e.on_local_clipboard("x".to_string(), now()), LocalAction::Send(_)));
    assert!(matches!(e.on_local_clipboard("x".to_string(), now()), LocalAction::Ignored));
    assert_eq!(e.last_action(), "pano değişti → gönderildi");
}

#[test]
fn latest_copy_waits_while_disconnected() {
    let mut e = engine(None);
    assert!(matches!(e.on_local_clipboard("first".to_string(), now()), LocalAction::Queued));
    assert_eq!(e.last_action(), "pano değişti → bağlantı yok, bekletildi");
    assert_eq!(e.last_success_str(), "-");
    assert!(matches!(e.on_local_clipboard("second".to_string(), now()), LocalAction::Queued));
    assert_eq!(e.on_connected(now()), Some("second".to_string()));
    assert_eq!(e.last_action(), "bağlantı kuruldu → bekleyen gönderildi");
    assert_eq!(e.on_connected(now()), None);
}

#[test]
fn remote_clip_is_written_once_and_not_echoed() {
    let mut e = engine(None);
    e.on_connected(now());
    assert_eq!(e.on_remote_clip("from-b".to_string(), "PC-B".to_string(), now()), Some("from-b".to_string()));
    assert_eq!(e.last_action(), "PC-B → panoya yazıldı");
    assert_eq!(e.last_success_str(), NOW_TEXT);
    assert!(matches!(e.on_local_clipboard("from-b".to_string(), now()), LocalAction::Ignored));
    assert_eq!(e.on_remote_clip("from-b".to_string(), "PC-C".to_string(), now()), None);
}

#[test]
fn own_clips_are_dropped() {
    let mut e = engine(None);
    e.on_connected(now());
    assert_eq!(e.on_remote_clip("mine".to_string(), "PC-A".to_string(), now()), None);
    assert!(matches!(e.on_local_clipboard("mine".to_string(), now()), LocalAction::Send(_)));
}

#[test]
fn disconnect_and_reconnect_labels() {
    let mut e = engine(None);
    e.on_connected(now());
    e.on_disconnected();
    assert_eq!(e.conn_label(), "Kopuk");
    assert_eq!(e.last_action(), "bağlantı koptu");
    e.on_reconnecting(2000);
    assert_eq!(e.conn_label(), "Bağlanıyor");
    assert_eq!(e.last_action(), "2000ms sonra yeniden denenecek");
    assert!(matches!(e.on_local_clipboard("q".to_string(), now()), LocalAction::Queued));
}

#[test]
fn stamps_outside_chrono_range_are_refused() {
    assert!(LocalStamp::new(0, 86400).is_none());
    assert!(LocalStamp::new(0, -86400).is_none());
    assert!(LocalStamp::new(i64::MAX, 0).is_none());
    assert!(LocalStamp::new(-1, -86399).is_some());
}

#[test]
fn last_success_uses_the_given_offset() {
    let mut e = engine(None);
    e.on_connected(now());
    e.on_local_clipboard("a".to_string(), LocalStamp::new(1_780_000_000, 0).unwrap());
    assert_eq!(e.last_success_str(), "2026-05-28 20:26:40");
    e.on_local_clipboard("b".to_string(), LocalStamp::new(0, -3600).unwrap());
    assert_eq!(e.last_success_str(), "1969-12-31 23:00:00");
}
